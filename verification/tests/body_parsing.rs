use mood_monitor::parse_body;
use mood_monitor::Mood;

#[test]
fn parses_empty_array() {
    let v = parse_body("[]").expect("empty array is valid");
    assert_eq!(v.len(), 0);
    let v = parse_body("  [ ]  ").expect("whitespace around is valid");
    assert_eq!(v.len(), 0);
}

#[test]
fn parses_single_record() {
    let v = parse_body(r#"[{"name":"a","color":"red"}]"#).expect("valid body");
    assert_eq!(v.len(), 1);
    assert_eq!(v[0].name, "a");
    assert_eq!(v[0].color, "red");
}

#[test]
fn parses_several_records_in_order() {
    let v = parse_body(r#"[{"name":"a","color":"red"},{"name":"b","color":"blue"}]"#)
        .expect("valid body");
    assert_eq!(v.len(), 2);
    assert_eq!(v[0].name, "a");
    assert_eq!(v[0].color, "red");
    assert_eq!(v[1].name, "b");
    assert_eq!(v[1].color, "blue");
}

#[test]
fn parses_members_in_either_order() {
    let v = parse_body(r#"[{"color":"blue","name":"svc"}]"#).expect("valid body");
    assert_eq!(v[0].name, "svc");
    assert_eq!(v[0].color, "blue");
}

#[test]
fn parses_with_whitespace_between_tokens() {
    let v = parse_body(" [ { \"name\" : \"a\" ,\n\t\"color\" : \"blue\" } , { \"name\":\"b\", \"color\":\"red\" } ] ")
        .expect("valid body");
    assert_eq!(v.len(), 2);
    assert_eq!(v[1].color, "red");
}

#[test]
fn parses_string_escapes() {
    let v = parse_body(r#"[{"name":"a\"b\\c\/d","color":"x\ny\tz\r\b\f"}]"#)
        .expect("valid body");
    assert_eq!(v[0].name, "a\"b\\c/d");
    assert_eq!(v[0].color, "x\ny\tz\r\u{8}\u{c}");
}

#[test]
fn rejects_malformed_bodies() {
    assert!(parse_body("").is_none());
    assert!(parse_body("oops").is_none());
    assert!(parse_body("{").is_none());
    assert!(parse_body("[").is_none());
    assert!(parse_body("[]]").is_none());
    assert!(parse_body(r#"[{"name":"a","color":"red"}"#).is_none());
    assert!(parse_body(r#"[{"name":"a","color":"red"},]"#).is_none());
    assert!(parse_body(r#"[{"name":"a","color":"red"}] trailing"#).is_none());
    assert!(parse_body(r#"[{"name":"a"}]"#).is_none());
    assert!(parse_body(r#"[{"color":"red"}]"#).is_none());
    assert!(parse_body(r#"[{"name":"a","name":"b"}]"#).is_none());
    assert!(parse_body(r#"[{"name":"a","color":"red","extra":"x"}]"#).is_none());
    assert!(parse_body(r#"[{"name":"a","color":7}]"#).is_none());
    assert!(parse_body(r#"[{"name":"a","color":null}]"#).is_none());
    assert!(parse_body(r#"[{"name":"a","color":"red"#).is_none());
    assert!(parse_body(r#"[{"name":"a","color":"re\d"}]"#).is_none());
    assert!(parse_body(r#"[{"name":"\u0041","color":"red"}]"#).is_none());
    assert!(parse_body("[,]").is_none());
    assert!(parse_body("[{}]").is_none());
}

#[test]
fn load_classifies_fetched_bodies() {
    let body = r#"[{"name":"a","color":"red"},{"name":"b","color":"blue"}]"#.to_string();
    assert_eq!(Mood::load(Some(&body)), Mood::Sad);
    let body = r#"[{"name":"a","color":"blue"}]"#.to_string();
    assert_eq!(Mood::load(Some(&body)), Mood::Happy);
    let body = r#"[{"name":"a","color":"yellow"}]"#.to_string();
    assert_eq!(Mood::load(Some(&body)), Mood::Neutral);
    let body = "[]".to_string();
    assert_eq!(Mood::load(Some(&body)), Mood::Happy);
}

#[test]
fn load_yields_unknown_on_any_failure() {
    assert_eq!(Mood::load(None), Mood::Unknown);
    let body = "not json".to_string();
    assert_eq!(Mood::load(Some(&body)), Mood::Unknown);
    let body = r#"{"name":"a","color":"red"}"#.to_string();
    assert_eq!(Mood::load(Some(&body)), Mood::Unknown);
}
