use kle_serial::{
    Error, JsonError, JsonValue, KeyIterator, Keyboard, KleKeyboard, KleLayoutIterator,
    KleLegendsOrProps,
};

fn units(v: f64) -> i64 {
    (v * 1e6).round() as i64
}

fn to_json(v: &serde_json::Value) -> JsonValue {
    match v {
        serde_json::Value::Null => JsonValue::Null,
        serde_json::Value::Bool(b) => JsonValue::Bool(*b),
        serde_json::Value::Number(n) => match n.as_i64() {
            Some(i) => JsonValue::Int(i),
            None => match n.as_u64() {
                Some(_) => JsonValue::Int(i64::MAX),
                None => JsonValue::Fixed(units(n.as_f64().unwrap_or(0.0))),
            },
        },
        serde_json::Value::String(s) => JsonValue::Str(s.clone()),
        serde_json::Value::Array(a) => JsonValue::Array(a.iter().map(to_json).collect()),
        serde_json::Value::Object(m) => {
            JsonValue::Object(m.iter().map(|(k, v)| (k.clone(), to_json(v))).collect())
        }
    }
}

fn parse(text: &str) -> JsonValue {
    to_json(&serde_json::from_str::<serde_json::Value>(text).unwrap())
}

fn all_keys(mut it: KeyIterator) -> Vec<kle_serial::Key> {
    let mut keys = Vec::new();
    while let Some(k) = it.next() {
        keys.push(k);
    }
    keys
}

#[test]
fn test_deserialize_kle_keyboard() {
    let result1 = KleKeyboard::from_json(&parse(
        r#"[
            {
                "name": "test",
                "unknown": "key"
            },
            [
                {
                    "a": 4,
                    "unknown2": "key"
                },
                "A",
                "B",
                "C"
            ],
            [
                "D"
            ]
        ]"#,
    ))
    .unwrap();

    assert!(matches!(result1.meta.name, Some(ref name) if name == "test"));
    assert_eq!(result1.layout.len(), 2);
    assert_eq!(result1.layout[0].len(), 4);
    assert!(matches!(result1.layout[0][0], KleLegendsOrProps::Props(_)));
    assert!(matches!(result1.layout[0][1], KleLegendsOrProps::Legend(_)));

    let result2 = KleKeyboard::from_json(&parse(r#"[["A"]]"#)).unwrap();
    assert!(result2.meta.name.is_none());
    assert_eq!(result2.layout.len(), 1);

    let result3 = KleKeyboard::from_json(&parse(r#"[{"notes": "'tis a test"}]"#)).unwrap();
    assert!(matches!(result3.meta.notes, Some(ref notes) if notes == "'tis a test"));
    assert_eq!(result3.layout.len(), 0);

    let result4 = KleKeyboard::from_json(&parse(r#"[]"#)).unwrap();
    assert!(result4.meta.name.is_none());
    assert_eq!(result4.layout.len(), 0);

    assert!(KleKeyboard::from_json(&parse("null")).is_err());
}

#[test]
fn test_keyboard_deserialize() {
    let kb = Keyboard::from_json(&parse(
        r#"[
            {
                "name": "test",
                "unknown": "key"
            },
            [
                {
                    "a": 4,
                    "unknown2": "key"
                },
                "A",
                "B",
                "C"
            ],
            [
                "D"
            ]
        ]"#,
    ))
    .unwrap();
    assert_eq!(kb.metadata.name, "test");
    assert_eq!(kb.keys.len(), 4);

    let kb = Keyboard::from_json(&parse(r#"[["A"]]"#)).unwrap();
    assert_eq!(kb.metadata.name, "");
    assert_eq!(kb.keys.len(), 1);

    let kb = Keyboard::from_json(&parse(r#"[{"notes": "'tis a test"}]"#)).unwrap();
    assert_eq!(kb.metadata.notes, "'tis a test");
    assert_eq!(kb.keys.len(), 0);

    assert!(Keyboard::from_json(&parse("null")).is_err());
}

#[test]
fn test_key_iterator_deserialize() {
    let keys = all_keys(
        KeyIterator::from_json(&parse(
            r#"[
                {
                    "name": "test",
                    "unknown": "key"
                },
                [
                    {
                        "a": 4,
                        "unknown2": "key"
                    },
                    "A",
                    "B",
                    "C"
                ],
                [
                    "D"
                ]
            ]"#,
        ))
        .unwrap(),
    );

    assert_eq!(keys.len(), 4);
    assert_eq!(keys[2].legends[0].as_ref().unwrap().text, "C");

    let keys = all_keys(KeyIterator::from_json(&parse(r#"[["A"]]"#)).unwrap());
    assert_eq!(keys.len(), 1);
    assert_eq!(keys[0].legends[0].as_ref().unwrap().text, "A");

    let keys = all_keys(KeyIterator::from_json(&parse(r#"[{"notes": "'tis a test"}]"#)).unwrap());
    assert_eq!(keys.len(), 0);

    assert!(KeyIterator::from_json(&parse("null")).is_err());
}

#[test]
fn test_kle_layout_iterator() {
    let kle = KleKeyboard::from_json(&parse(
        r#"[
            {
                "meta": "data"
            },
            [
                {
                    "a": 4,
                    "unknown": "key"
                },
                "A",
                "B",
                {
                    "x": -0.5,
                    "y": 0.25
                },
                "C"
            ],
            [
                "D"
            ]
        ]"#,
    ))
    .unwrap();

    let mut iterator = KleLayoutIterator::new(kle.layout);
    let mut keys = Vec::new();
    while let Some(k) = iterator.next() {
        keys.push(k);
    }

    assert_eq!(keys.len(), 4);
    assert_eq!(keys[0].x, units(0.0));
    assert_eq!(keys[1].x, units(1.0));
    assert_eq!(keys[2].x, units(1.5));
    assert_eq!(keys[3].x, units(0.0));
}

#[test]
fn empty_document_has_default_metadata_and_no_keys() {
    let kb = Keyboard::from_json(&parse("[]")).unwrap();
    assert_eq!(kb.keys.len(), 0);
    assert_eq!(kb.metadata.name, "");
    assert_eq!(kb.metadata.background_color, kle_serial::Color::new(238, 238, 238, 255));
}

#[test]
fn single_legend_key() {
    let kb = Keyboard::from_json(&parse(r#"[["A"]]"#)).unwrap();
    assert_eq!(kb.keys.len(), 1);
    let k = &kb.keys[0];
    assert_eq!((k.x, k.y), (0, 0));
    assert_eq!((k.width, k.height), (units(1.0), units(1.0)));
    assert_eq!(k.legends[0].as_ref().unwrap().text, "A");
    assert!(k.legends[1..].iter().all(|l| l.is_none()));
}

#[test]
fn metadata_and_rows_with_unknown_overlay_fields() {
    let kb = Keyboard::from_json(&parse(
        r#"[{"name":"test"},[{"a":4,"unknown":"key"},"A","B","C"],["D"]]"#,
    ))
    .unwrap();
    assert_eq!(kb.metadata.name, "test");
    assert_eq!(kb.keys.len(), 4);
    assert_eq!(kb.keys[3].y, units(1.0));
    assert_eq!(kb.keys[3].x, 0);
}

#[test]
fn offset_overlay_moves_only_later_keys() {
    let kb = Keyboard::from_json(&parse(r#"[["A","B",{"x":-0.5,"y":0.25},"C"]]"#)).unwrap();
    assert_eq!(kb.keys.len(), 3);
    assert_eq!((kb.keys[0].x, kb.keys[0].y), (0, 0));
    assert_eq!((kb.keys[1].x, kb.keys[1].y), (units(1.0), 0));
    assert_eq!((kb.keys[2].x, kb.keys[2].y), (units(1.5), units(0.25)));
}

#[test]
fn rows_after_rotation_anchor_start_at_anchor() {
    let kb = Keyboard::from_json(&parse(
        r#"[[{"r":15,"rx":2,"ry":1},"A","B"],["C"],[],["D"]]"#,
    ))
    .unwrap();
    assert_eq!(kb.keys.len(), 4);
    assert_eq!((kb.keys[0].x, kb.keys[0].y), (units(2.0), units(1.0)));
    assert_eq!(kb.keys[0].rotation, units(15.0));
    assert_eq!((kb.keys[2].x, kb.keys[2].y), (units(2.0), units(2.0)));
    assert_eq!((kb.keys[3].x, kb.keys[3].y), (units(2.0), units(4.0)));
    assert_eq!(kb.keys[3].rotation, units(15.0));
}

#[test]
fn per_key_properties_reset_and_persistent_ones_stay() {
    let kb = Keyboard::from_json(&parse(
        r##"[[{"w":2,"h":2,"l":true,"n":true,"d":true,"g":true,"c":"#ff0000","p":"DSA","sm":"cherry"},"A","B"]]"##,
    ))
    .unwrap();
    let (a, b) = (&kb.keys[0], &kb.keys[1]);
    assert_eq!((a.width, a.height, a.width2, a.height2), (units(2.0), units(2.0), units(2.0), units(2.0)));
    assert!(a.stepped && a.homing && a.decal && a.ghosted);
    assert_eq!(b.x, units(2.0));
    assert_eq!((b.width, b.height), (units(1.0), units(1.0)));
    assert!(!b.stepped && !b.homing && !b.decal);
    assert!(b.ghosted);
    assert_eq!(b.color, kle_serial::Color::new(255, 0, 0, 255));
    assert_eq!(b.profile, "DSA");
    assert_eq!(b.switch.mount, "cherry");
}

#[test]
fn legend_colours_and_sizes_reach_the_key() {
    let kb = Keyboard::from_json(&parse(
        r##"[[{"a":0,"t":"#ff0000\n#00ff00","f":5,"f2":7},"A\nB"]]"##,
    ))
    .unwrap();
    let k = &kb.keys[0];
    let a = k.legends[0].as_ref().unwrap();
    assert_eq!((a.text.as_str(), a.size), ("A", 5));
    assert_eq!(a.color, kle_serial::Color::new(255, 0, 0, 255));
    // alignment 0 puts the second written line in display slot 6
    let b = k.legends[6].as_ref().unwrap();
    assert_eq!((b.text.as_str(), b.size), ("B", 7));
    assert_eq!(b.color, kle_serial::Color::new(0, 255, 0, 255));
}

#[test]
fn reading_twice_gives_the_same_keyboard() {
    let doc = parse(r#"[{"name":"x"},[{"x":0.25,"f":4},"A\nB",{"w":1.5},"C"],["D"]]"#);
    let a = Keyboard::from_json(&doc).unwrap();
    let b = Keyboard::from_json(&doc).unwrap();
    assert_eq!(format!("{a:?}"), format!("{b:?}"));
}

#[test]
fn malformed_documents_are_rejected() {
    let invalid_type = |text: &str| {
        matches!(
            Keyboard::from_json(&parse(text)),
            Err(Error::Json(JsonError::InvalidType))
        )
    };
    assert!(invalid_type(r#"{"name":"x"}"#));
    assert!(invalid_type(r#"[5]"#));
    assert!(invalid_type(r#"[["A"], "B"]"#));
    assert!(invalid_type(r#"[["A", 3]]"#));
    assert!(invalid_type(r#"[[{"x":"left"}]]"#));
    assert!(invalid_type(r#"[{"name":3}]"#));

    match Keyboard::from_json(&parse(r#"[[{"a":9},"A"]]"#)) {
        Err(Error::Alignment(9)) => {}
        other => panic!("expected an alignment error, got {other:?}"),
    }
    match Keyboard::from_json(&parse(r#"[[{"f":10},"A"]]"#)) {
        Err(Error::Json(JsonError::OutOfRange { value: 10, max: 9 })) => {}
        other => panic!("expected a range error, got {other:?}"),
    }
    match Keyboard::from_json(&parse(r#"[[{"c":"nope"},"A"]]"#)) {
        Err(Error::Json(JsonError::InvalidColor(s))) => assert_eq!(s, "nope"),
        other => panic!("expected a colour error, got {other:?}"),
    }
    match Keyboard::from_json(&parse(r#"[[{"f":2.5},"A"]]"#)) {
        Err(Error::Json(JsonError::InvalidType)) => {}
        other => panic!("expected a type error, got {other:?}"),
    }
}

#[test]
fn iterator_and_keyboard_agree() {
    let doc = parse(r#"[{"name":"x"},[{"x":0.25},"A","B"],[{"y":0.5},"C"],["D","E"]]"#);
    let kb = Keyboard::from_json(&doc).unwrap();
    let keys = all_keys(KeyIterator::from_json(&doc).unwrap());
    assert_eq!(format!("{:?}", kb.keys), format!("{keys:?}"));
}
