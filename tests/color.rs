use kle_serial::json::{read_color, read_color_list};
use kle_serial::{color_from_str, parse_color_list, Color, Error, JsonError, JsonValue};

#[test]
fn test_de_color() {
    let colors = [
        ("rebeccapurple", Color::new(102, 51, 153, 255)),
        ("aliceblue", Color::new(240, 248, 255, 255)),
        ("#f09", Color::new(255, 0, 153, 255)),
        ("#ff0099", Color::new(255, 0, 153, 255)),
        ("f09", Color::new(255, 0, 153, 255)),
        ("ff0099", Color::new(255, 0, 153, 255)),
        ("rgb(255 0 153)", Color::new(255, 0, 153, 255)),
        ("rgb(255 0 153 / 80%)", Color::new(255, 0, 153, 204)),
        ("hsl(150 30% 60%)", Color::new(122, 184, 153, 255)),
        ("hsl(150 30% 60% / 0.8)", Color::new(122, 184, 153, 204)),
        ("hwb(12 50% 0%)", Color::new(255, 153, 128, 255)),
        ("hwb(194 0% 0% / 0.5)", Color::new(0, 195, 255, 128)),
    ];

    for (css, res) in colors {
        let color = read_color(Some(&JsonValue::Str(css.to_string())))
            .unwrap()
            .unwrap();
        assert_eq!(color, res);
    }
}

#[test]
fn test_de_nl_delimited_colors() {
    let colors = read_color_list(Some(&JsonValue::Str("#f00\n\n#ba9".to_string())));
    assert!(matches!(colors, Ok(Some(ref v)) if v.len() == 3 && v[1].is_none()));

    let colors = read_color_list(Some(&JsonValue::Str("#abc\\n#bad".to_string())));
    assert!(matches!(colors, Err(Error::Json(_))));

    let colors = read_color_list(Some(&JsonValue::Null));
    assert!(matches!(colors, Ok(None)));
}

#[test]
fn color_literal_errors_name_the_literal() {
    match color_from_str("not a colour") {
        Err(JsonError::InvalidColor(s)) => assert_eq!(s, "not a colour"),
        _ => panic!("expected a colour error"),
    }
    assert_eq!(color_from_str("#000").unwrap(), Color::new(0, 0, 0, 255));
}

#[test]
fn color_list_reports_first_bad_line() {
    match parse_color_list("#fff\nnope1\n\nnope2") {
        Err(JsonError::InvalidColor(s)) => assert_eq!(s, "nope1"),
        _ => panic!("expected a colour error"),
    }
    let v = parse_color_list("#f00\r\n\n#0f0\n").unwrap();
    assert_eq!(
        v,
        vec![
            Some(Color::new(255, 0, 0, 255)),
            None,
            Some(Color::new(0, 255, 0, 255))
        ]
    );
    assert_eq!(parse_color_list("").unwrap(), vec![]);
}

#[test]
fn color_field_of_wrong_type_fails() {
    assert!(matches!(
        read_color(Some(&JsonValue::Int(3))),
        Err(Error::Json(JsonError::InvalidType))
    ));
    assert!(matches!(read_color(None), Ok(None)));
}
