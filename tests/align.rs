use kle_serial::{realign, Error, Legend};

fn slots(texts: &[&str]) -> [Option<Legend>; 12] {
    std::array::from_fn(|i| {
        texts.get(i).filter(|t| !t.is_empty()).map(|t| Legend {
            text: t.to_string(),
            ..Legend::default()
        })
    })
}

fn texts(r: &[Option<Legend>; 12]) -> Vec<String> {
    r.iter()
        .map(|l| l.as_ref().map_or(String::from("-"), |l| l.text.clone()))
        .collect()
}

#[test]
fn realign_every_alignment_is_a_permutation() {
    let all = ["A", "B", "C", "D", "E", "F", "G", "H", "I", "J", "K", "L"];
    for a in 0..8 {
        let r = realign(slots(&all), a).unwrap();
        let mut t = texts(&r);
        assert!(t.iter().all(|s| s != "-"));
        t.sort();
        assert_eq!(t, all.map(String::from).to_vec());
    }
}

#[test]
fn realign_places_sparse_slots_at_their_display_slot() {
    // under alignment 4 the second written line goes to display slot 6
    let r = realign(slots(&["A", "B"]), 4).unwrap();
    assert_eq!(r[0].as_ref().unwrap().text, "A");
    assert_eq!(r[6].as_ref().unwrap().text, "B");
    assert_eq!(r.iter().filter(|l| l.is_some()).count(), 2);

    // alignment 7 centres the first line
    let r = realign(slots(&["A"]), 7).unwrap();
    assert_eq!(r[4].as_ref().unwrap().text, "A");
    assert_eq!(r.iter().filter(|l| l.is_some()).count(), 1);
}

#[test]
fn realign_keeps_count_of_populated_slots() {
    let input = ["A", "", "C", "", "", "F", "", "", "I"];
    for a in 0..8 {
        let r = realign(slots(&input), a).unwrap();
        assert_eq!(r.iter().filter(|l| l.is_some()).count(), 4);
    }
}

#[test]
fn realign_rejects_alignment_out_of_range() {
    for a in [8, 9, 100, usize::MAX] {
        match realign(slots(&["A"]), a) {
            Err(Error::Alignment(v)) => assert_eq!(v, a),
            _ => panic!("expected an alignment error"),
        }
    }
}
