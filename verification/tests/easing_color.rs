use gtk_shell::color::{parse_color, Rgba8};
use gtk_shell::easing::{parse_css_easing, CssEasing, EasingKeyword, LinearStop, ParseError, StopPosition};

fn stop(value: &str, position: StopPosition) -> LinearStop {
    LinearStop { value: value.to_string(), position }
}

#[test]
fn tolerates_whitespace() {
    assert!(parse_css_easing("  cubic-bezier( 0.1 , 0.2 , 0.3 , 0.4 ) ").is_ok());
}

#[test]
fn rejects_unknown_function() {
    assert_eq!(
        parse_css_easing("spring(1, 2)").err(),
        Some(ParseError::UnknownFunction("spring".to_string()))
    );
}

#[test]
fn rejects_wrong_arg_count() {
    assert_eq!(
        parse_css_easing("cubic-bezier(0.1, 0.2, 0.3)").err(),
        Some(ParseError::WrongArgCount { expected: 4, found: 3 })
    );
}

#[test]
fn rejects_invalid_number() {
    assert!(matches!(
        parse_css_easing("cubic-bezier(0.1, foo, 0.3, 0.4)").err(),
        Some(ParseError::InvalidNumber(_))
    ));
}

#[test]
fn keywords_parse() {
    assert_eq!(parse_css_easing("linear"), Ok(CssEasing::Keyword(EasingKeyword::Linear)));
    assert_eq!(parse_css_easing(" ease "), Ok(CssEasing::Keyword(EasingKeyword::Ease)));
    assert_eq!(parse_css_easing("ease-in"), Ok(CssEasing::Keyword(EasingKeyword::EaseIn)));
    assert_eq!(parse_css_easing("ease-out"), Ok(CssEasing::Keyword(EasingKeyword::EaseOut)));
    assert_eq!(parse_css_easing("ease-in-out"), Ok(CssEasing::Keyword(EasingKeyword::EaseInOut)));
}

#[test]
fn explicit_bezier_keeps_its_four_numbers() {
    assert_eq!(
        parse_css_easing("cubic-bezier(0.42, 0, 0.58, 1)"),
        Ok(CssEasing::CubicBezier(vec![
            "0.42".to_string(),
            "0".to_string(),
            "0.58".to_string(),
            "1".to_string()
        ]))
    );
}

#[test]
fn linear_stops_get_even_positions() {
    assert_eq!(
        parse_css_easing("linear(0, 0.5, 1)"),
        Ok(CssEasing::Stops(vec![
            stop("0", StopPosition::Start),
            stop("0.5", StopPosition::Between { start: 0, end: 2 }),
            stop("1", StopPosition::End),
        ]))
    );
}

#[test]
fn linear_stops_keep_explicit_positions() {
    assert_eq!(
        parse_css_easing("linear(0 0%, 1 50%)"),
        Ok(CssEasing::Stops(vec![
            stop("0", StopPosition::Given("0".to_string())),
            stop("1", StopPosition::Given("50".to_string())),
        ]))
    );
}

#[test]
fn two_position_stop_expands_to_two_stops() {
    assert_eq!(
        parse_css_easing("linear(0, 1 25% 75%, 0)"),
        Ok(CssEasing::Stops(vec![
            stop("0", StopPosition::Start),
            stop("1", StopPosition::Given("25".to_string())),
            stop("1", StopPosition::Given("75".to_string())),
            stop("0", StopPosition::End),
        ]))
    );
}

#[test]
fn malformed_linear_lists_are_syntax_errors() {
    assert!(matches!(parse_css_easing("linear()"), Err(ParseError::Syntax(_))));
    assert!(matches!(parse_css_easing("linear(0,,1)"), Err(ParseError::Syntax(_))));
    assert!(matches!(parse_css_easing("linear(0, 1"), Err(ParseError::Syntax(_))));
    assert!(matches!(parse_css_easing("linear(x, 1)"), Err(ParseError::InvalidNumber(_))));
}

#[test]
fn number_literals_accept_what_f32_accepts() {
    for s in ["1e3", "+.5", "-2.", "inf", "NaN", "1E-2"] {
        let text = format!("cubic-bezier({s}, 0, 0, 0)");
        assert!(parse_css_easing(&text).is_ok(), "{s}");
        assert!(s.parse::<f32>().is_ok());
    }
    for s in ["1e", ".", "--1", "0x10", "1.2.3"] {
        let text = format!("cubic-bezier({s}, 0, 0, 0)");
        assert_eq!(parse_css_easing(&text).err(), Some(ParseError::InvalidNumber(s.to_string())), "{s}");
        assert!(s.parse::<f32>().is_err());
    }
}

#[test]
fn test_color_parse_6digit() {
    let c = parse_color("#6750A4").unwrap();
    assert!((c.r as f32 / 255.0 - 103.0 / 255.0).abs() < 1e-4);
    assert!((c.g as f32 / 255.0 - 80.0 / 255.0).abs() < 1e-4);
    assert!((c.b as f32 / 255.0 - 164.0 / 255.0).abs() < 1e-4);
    assert_eq!(c.a as f32 / 255.0, 1.0);
}

#[test]
fn test_color_parse_8digit() {
    let c = parse_color("#6750A480").unwrap();
    assert!((c.a as f32 / 255.0 - 128.0 / 255.0).abs() < 1e-4);
}

#[test]
fn test_color_invalid() {
    assert!(parse_color("#ZZZ").is_err());
}

#[test]
fn test_color_default_is_transparent() {
    let c = Rgba8::default();
    assert_eq!(c.a, 0);
}

#[test]
fn color_errors_carry_the_messages() {
    assert_eq!(parse_color("#ZZZ"), Err("invalid color: #ZZZ".to_string()));
    assert_eq!(parse_color("#GG0000"), Err("invalid digit found in string".to_string()));
    assert_eq!(parse_color("##ff0000"), Ok(Rgba8 { r: 255, g: 0, b: 0, a: 255 }));
    assert_eq!(parse_color("+f+f+f"), Ok(Rgba8 { r: 15, g: 15, b: 15, a: 255 }));
}

#[test]
fn syntax_errors_quote_the_offending_text() {
    assert_eq!(
        parse_css_easing("linear(0, 1 2% 3% 4%)"),
        Err(ParseError::Syntax("too many values in stop: \"1 2% 3% 4%\"".to_string()))
    );
    assert_eq!(
        parse_css_easing("linear(0 5)"),
        Err(ParseError::Syntax("expected percentage, found \"5\"".to_string()))
    );
    assert_eq!(
        parse_css_easing("cubic-bezier"),
        Err(ParseError::Syntax("missing parentheses in \"cubic-bezier\"".to_string()))
    );
    assert_eq!(
        gtk_shell::easing::syntax_message("x: ", "y"),
        ParseError::Syntax("x: y".to_string())
    );
}
