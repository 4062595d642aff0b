use kle_serial::{
    key_color, legend_color, Alignment, Background, Color, FontSize, Key, KleBackground,
    KleMetadata, KleProps, KlePropsObject, Legend, Metadata, NUM_LEGENDS,
};

fn units(v: f64) -> i64 {
    (v * 1e6).round() as i64
}

#[test]
fn test_legend_default() {
    let legend = Legend::default();

    assert_eq!(legend.text, "");
    assert_eq!(usize::from(legend.size), 3);
    assert_eq!(legend.color, Color::new(0, 0, 0, 255));
}

#[test]
fn test_key_default() {
    let key = Key::default();

    for leg in key.legends {
        assert!(leg.is_none());
    }
    assert_eq!(key.color, Color::new(204, 204, 204, 255));
    assert_eq!(key.x, units(0.));
    assert_eq!(key.y, units(0.));
    assert_eq!(key.width, units(1.));
    assert_eq!(key.height, units(1.));
    assert_eq!(key.x2, units(0.));
    assert_eq!(key.y2, units(0.));
    assert_eq!(key.width2, units(1.));
    assert_eq!(key.height2, units(1.));
    assert_eq!(key.rotation, units(0.));
    assert_eq!(key.rx, units(0.));
    assert_eq!(key.ry, units(0.));
    assert_eq!(key.profile, "");
    assert_eq!(key.switch.mount, "");
    assert_eq!(key.switch.brand, "");
    assert_eq!(key.switch.typ, "");
    assert!(!key.ghosted);
    assert!(!key.stepped);
    assert!(!key.homing);
    assert!(!key.decal);
}

#[test]
fn test_metadata_default() {
    let meta = Metadata::default();

    assert_eq!(meta.background_color, Color::new(238, 238, 238, 255));
    assert_eq!(meta.background.name, "");
    assert_eq!(meta.background.style, "");
    assert_eq!(meta.radii, "");
    assert_eq!(meta.name, "");
    assert_eq!(meta.author, "");
    assert_eq!(meta.switch.mount, "");
    assert_eq!(meta.switch.brand, "");
    assert_eq!(meta.switch.typ, "");
    assert!(!meta.plate_mount);
    assert!(!meta.pcb_mount);
    assert_eq!(meta.notes, "");
}

#[test]
fn test_background_from() {
    let bg = Background::from(KleBackground::default());

    assert_eq!(bg.name, Background::default().name);
    assert_eq!(bg.style, Background::default().style);

    let bg = Background::from(KleBackground {
        name: Some("name".into()),
        style: Some("style".into()),
    });

    assert_eq!(bg.name, "name");
    assert_eq!(bg.style, "style");
}

#[test]
fn test_metadata_from() {
    let md = Metadata::from(KleMetadata::default());

    assert_eq!(md.background_color, Metadata::default().background_color);
    assert_eq!(md.background.name, Metadata::default().background.name);
    assert_eq!(md.background.style, Metadata::default().background.style);
    assert_eq!(md.radii, Metadata::default().radii);
    assert_eq!(md.name, Metadata::default().name);
    assert_eq!(md.author, Metadata::default().author);
    assert_eq!(md.switch.mount, Metadata::default().switch.mount);
    assert_eq!(md.switch.brand, Metadata::default().switch.brand);
    assert_eq!(md.switch.typ, Metadata::default().switch.typ);
    assert_eq!(md.plate_mount, Metadata::default().plate_mount);
    assert_eq!(md.pcb_mount, Metadata::default().pcb_mount);
    assert_eq!(md.notes, Metadata::default().notes);

    let md: Metadata = Metadata::from(KleMetadata {
        author: Some("author".into()),
        backcolor: Some(Color::new(204, 34, 34, 255)),
        background: Some(KleBackground {
            name: Some("name".into()),
            style: Some("style".into()),
        }),
        name: Some("name".into()),
        notes: Some("notes".into()),
        radii: Some("radii".into()),
        switch_mount: Some("switch_mount".into()),
        switch_brand: Some("switch_brand".into()),
        switch_type: Some("switch_type".into()),
        css: Some("css".into()),
        pcb: Some(true),
        plate: Some(true),
    });

    assert_eq!(md.background_color, Color::new(204, 34, 34, 255));
    assert_eq!(md.background.name, "name");
    assert_eq!(md.background.style, "style");
    assert_eq!(md.radii, "radii");
    assert_eq!(md.name, "name");
    assert_eq!(md.author, "author");
    assert_eq!(md.switch.mount, "switch_mount");
    assert_eq!(md.switch.brand, "switch_brand");
    assert_eq!(md.switch.typ, "switch_type");
    assert!(md.plate_mount);
    assert!(md.pcb_mount);
    assert_eq!(md.notes, "notes");
}

#[test]
#[allow(clippy::too_many_lines)]
fn test_kle_props_update() {
    let props_obj = KlePropsObject {
        x: None,
        y: None,
        w: None,
        h: None,
        x2: None,
        y2: None,
        w2: None,
        h2: None,
        l: None,
        n: None,
        d: None,
        r: None,
        rx: None,
        ry: None,
        g: None,
        sm: None,
        sb: None,
        st: None,
        c: None,
        t: None,
        a: None,
        p: None,
        f: None,
        f2: None,
        fa: None,
    };
    let mut props = KleProps::default();
    props.update(props_obj);

    assert_eq!(props.x, units(0.0));
    assert_eq!(props.y, units(0.0));
    assert_eq!(props.w, units(1.0));
    assert_eq!(props.h, units(1.0));
    assert_eq!(props.x2, units(0.0));
    assert_eq!(props.y2, units(0.0));
    assert_eq!(props.w2, units(1.0));
    assert_eq!(props.h2, units(1.0));
    assert!(!props.l);
    assert!(!props.n);
    assert!(!props.d);
    assert_eq!(props.r, units(0.0));
    assert_eq!(props.rx, units(0.0));
    assert_eq!(props.ry, units(0.0));
    assert!(!props.g);
    assert_eq!(props.sm, "");
    assert_eq!(props.sb, "");
    assert_eq!(props.st, "");
    assert_eq!(props.c, key_color());
    assert_eq!(props.t, legend_color());
    assert_eq!(props.ta, [legend_color(); NUM_LEGENDS]);
    assert_eq!(props.a, Alignment::default());
    assert_eq!(props.p, "");
    assert_eq!(props.f, FontSize::default());
    assert_eq!(props.fa, [FontSize::default(); NUM_LEGENDS]);

    let props_obj = KlePropsObject {
        x: Some(units(1.0)),
        y: Some(units(1.0)),
        w: Some(units(2.0)),
        h: Some(units(2.0)),
        x2: Some(units(1.5)),
        y2: Some(units(1.5)),
        w2: Some(units(2.5)),
        h2: Some(units(2.5)),
        l: Some(true),
        n: Some(true),
        d: Some(true),
        r: Some(units(15.0)),
        rx: Some(units(1.0)),
        ry: Some(units(1.0)),
        g: Some(true),
        sm: Some("cherry".into()),
        sb: Some("cherry".into()),
        st: Some("MX1A-31xx".into()),
        c: Some(Color::new(127, 51, 76, 255)),
        t: Some(vec![
            Some(Color::new(25, 25, 25, 255)),
            None,
            Some(Color::new(76, 38, 51, 255)),
        ]),
        a: Some(Alignment::new(5).unwrap()),
        p: Some("DSA".into()),
        f: Some(FontSize::new(4).unwrap()),
        f2: Some(FontSize::new(4).unwrap()),
        fa: Some(vec![FontSize::new(4).unwrap(); 3]),
    };
    props.update(props_obj);

    assert_eq!(props.x, units(2.0)); // rx adds for whatever reason
    assert_eq!(props.y, units(2.0));
    assert_eq!(props.w, units(2.0));
    assert_eq!(props.h, units(2.0));
    assert_eq!(props.x2, units(1.5));
    assert_eq!(props.y2, units(1.5));
    assert_eq!(props.w2, units(2.5));
    assert_eq!(props.h2, units(2.5));
    assert!(props.l);
    assert!(props.n);
    assert!(props.d);
    assert_eq!(props.r, units(15.0));
    assert_eq!(props.rx, units(1.0));
    assert_eq!(props.ry, units(1.0));
    assert!(props.g);
    assert_eq!(props.sm, "cherry");
    assert_eq!(props.sb, "cherry");
    assert_eq!(props.st, "MX1A-31xx");
    assert_eq!(props.c, Color::new(127, 51, 76, 255));
    assert_eq!(props.t, Color::new(25, 25, 25, 255));
    assert_eq!(
        props.ta,
        [
            Color::new(25, 25, 25, 255),
            Color::new(25, 25, 25, 255),
            Color::new(76, 38, 51, 255),
            Color::new(25, 25, 25, 255),
            Color::new(25, 25, 25, 255),
            Color::new(25, 25, 25, 255),
            Color::new(25, 25, 25, 255),
            Color::new(25, 25, 25, 255),
            Color::new(25, 25, 25, 255),
            Color::new(25, 25, 25, 255),
            Color::new(25, 25, 25, 255),
            Color::new(25, 25, 25, 255),
        ]
    );
    assert_eq!(usize::from(props.a), 5);
    assert_eq!(props.p, "DSA");
    assert_eq!(usize::from(props.f), 4);
    assert_eq!(props.fa.map(usize::from), [4; NUM_LEGENDS]);

    let props_obj = KlePropsObject {
        f: Some(FontSize::new(2).unwrap()),
        f2: Some(FontSize::new(4).unwrap()),
        ..KlePropsObject::default()
    };
    props.update(props_obj);
    assert_eq!(
        props.fa.map(usize::from),
        [2, 4, 4, 4, 4, 4, 4, 4, 4, 4, 4, 4]
    );

    let rawprops4 = KlePropsObject {
        f: Some(FontSize::new(5).unwrap()),
        ..KlePropsObject::default()
    };
    props.update(rawprops4);
    assert_eq!(props.fa.map(usize::from), [5; NUM_LEGENDS]);
}

#[test]
fn font_size_secondary_then_fallback_replaces_all_slots() {
    let mut props = KleProps::default();
    props.update(KlePropsObject {
        f: Some(FontSize::new(2).unwrap()),
        f2: Some(FontSize::new(4).unwrap()),
        ..KlePropsObject::default()
    });
    assert_eq!(props.fa.map(usize::from), [2, 4, 4, 4, 4, 4, 4, 4, 4, 4, 4, 4]);
    props.update(KlePropsObject {
        f: Some(FontSize::new(5).unwrap()),
        ..KlePropsObject::default()
    });
    assert_eq!(props.fa.map(usize::from), [5; NUM_LEGENDS]);
}

#[test]
fn font_size_array_zero_entries_take_fallback() {
    let mut props = KleProps::default();
    props.update(KlePropsObject {
        f: Some(FontSize::new(6).unwrap()),
        fa: Some(vec![FontSize::new(0).unwrap(), FontSize::new(9).unwrap()]),
        ..KlePropsObject::default()
    });
    assert_eq!(props.fa.map(usize::from), [6, 9, 6, 6, 6, 6, 6, 6, 6, 6, 6, 6]);
    // an overlay without font fields keeps the array
    props.update(KlePropsObject::default());
    assert_eq!(props.fa.map(usize::from), [6, 9, 6, 6, 6, 6, 6, 6, 6, 6, 6, 6]);
}

#[test]
fn width2_defaults_to_width_and_anchor_resets_cursor() {
    let mut props = KleProps {
        x: units(3.0),
        y: units(2.0),
        ..KleProps::default()
    };
    props.update(KlePropsObject {
        w: Some(units(1.25)),
        ry: Some(units(4.0)),
        y: Some(units(0.5)),
        ..KlePropsObject::default()
    });
    assert_eq!(props.w2, units(1.25));
    assert_eq!(props.h2, units(1.0));
    assert_eq!(props.x, units(0.0));
    assert_eq!(props.y, units(4.5));
    assert_eq!(props.ry, units(4.0));
}

#[test]
fn colour_array_without_first_entry_keeps_fallback() {
    let mut props = KleProps::default();
    props.update(KlePropsObject {
        t: Some(vec![None, Some(Color::new(1, 2, 3, 255))]),
        ..KlePropsObject::default()
    });
    assert_eq!(props.t, legend_color());
    assert_eq!(props.ta[1], Color::new(1, 2, 3, 255));
    assert_eq!(props.ta[0], legend_color());
    assert_eq!(props.ta[11], legend_color());
}

#[test]
fn test_kle_props_next_key() {
    let mut props = KleProps {
        x: units(2.0),
        w: units(3.0),
        h: units(1.5),
        ..KleProps::default()
    };
    props.next_key();

    assert_eq!(props.x, units(5.0));
    assert_eq!(props.y, units(0.0));
    assert_eq!(props.w, units(1.0));
    assert_eq!(props.h, units(1.0));
    assert_eq!(props.x2, units(0.0));
    assert_eq!(props.y2, units(0.0));
    assert_eq!(props.w2, units(1.0));
    assert_eq!(props.h2, units(1.0));
    assert!(!props.l);
    assert!(!props.n);
    assert!(!props.d);
}

#[test]
fn test_kle_props_next_line() {
    let mut props = KleProps {
        x: units(2.0),
        ..KleProps::default()
    };
    props.next_line();

    assert_eq!(props.x, units(0.0));
    assert_eq!(props.y, units(1.0));
    assert_eq!(props.w, units(1.0));
    assert_eq!(props.h, units(1.0));
    assert_eq!(props.x2, units(0.0));
    assert_eq!(props.y2, units(0.0));
    assert_eq!(props.w2, units(1.0));
    assert_eq!(props.h2, units(1.0));
    assert!(!props.l);
    assert!(!props.n);
    assert!(!props.d);
}

#[test]
fn next_line_returns_to_rotation_anchor() {
    let mut props = KleProps {
        x: units(7.5),
        y: units(2.25),
        rx: units(3.0),
        ..KleProps::default()
    };
    props.next_line();
    assert_eq!(props.x, units(3.0));
    assert_eq!(props.y, units(3.25));
}

#[test]
fn positions_saturate_instead_of_overflowing() {
    let mut props = KleProps {
        x: i64::MAX - 1,
        ..KleProps::default()
    };
    props.next_key();
    assert_eq!(props.x, i64::MAX);
}

#[test]
fn test_kle_props_build_key() {
    let legends = "A\nB\nC\nD\nE\nF\nG\nH\nI\nJ\nK\nL";
    let expected = ["A", "I", "C", "G", "J", "H", "B", "K", "D", "F", "E", "L"];

    let props = <KleProps>::default();
    let key = props.build_key(legends);

    for (res, exp) in key.legends.iter().zip(expected) {
        assert_eq!(res.as_ref().unwrap().text, exp);
        assert_eq!(res.as_ref().unwrap().size, usize::from(FontSize::default()));
        assert_eq!(res.as_ref().unwrap().color, legend_color());
    }
    assert_eq!(key.color, key_color());
    assert_eq!(key.x, units(0.0));
    assert_eq!(key.y, units(0.0));
    assert_eq!(key.width, units(1.0));
    assert_eq!(key.height, units(1.0));
    assert_eq!(key.x2, units(0.0));
    assert_eq!(key.y2, units(0.0));
    assert_eq!(key.width2, units(1.0));
    assert_eq!(key.height2, units(1.0));
    assert_eq!(key.rotation, units(0.0));
    assert_eq!(key.rx, units(0.0));
    assert_eq!(key.ry, units(0.0));
    assert_eq!(key.profile, "");
    assert_eq!(key.switch.mount, "");
    assert_eq!(key.switch.brand, "");
    assert_eq!(key.switch.typ, "");
    assert!(!key.ghosted);
    assert!(!key.stepped);
    assert!(!key.homing);
    assert!(!key.decal);

    let props = KleProps { d: true, ..props };
    let key = props.build_key(legends);
    assert!(key.decal);

    let props = KleProps { n: true, ..props };
    let key = props.build_key(legends);
    assert!(key.homing);

    let props = KleProps {
        p: "DSA".into(),
        ..props
    };
    let key = props.build_key(legends);
    assert_eq!(key.profile, "DSA");
}

#[test]
fn build_key_drops_lines_past_twelve_and_empty_lines() {
    let props = KleProps::default();
    let key = props.build_key("A\n\nC\r\nD\nE\nF\nG\nH\nI\nJ\nK\nL\nM\nN");
    assert_eq!(key.legends.iter().filter(|l| l.is_some()).count(), 11);
    assert_eq!(key.legends[0].as_ref().unwrap().text, "A");
    assert_eq!(key.legends[2].as_ref().unwrap().text, "C");
    assert!(key.legends[6].is_none());
    assert!(key.legends.iter().all(|l| l.as_ref().map_or(true, |l| l.text != "M")));

    let key = props.build_key("");
    assert!(key.legends.iter().all(|l| l.is_none()));
}
