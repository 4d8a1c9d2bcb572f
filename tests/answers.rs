use archetect::answer_map::{merge_answers, AnswerMap};
use archetect::answers::{answers_from_arguments, parse_answer_pair, AnswerParseError};
use archetect::value::{coerce_answer, parse_i64, AnswerValue};

fn int_of(m: &AnswerMap, key: &str) -> Option<i64> {
    match m.get(key) {
        Some(AnswerValue::Int(i)) => Some(*i),
        _ => None,
    }
}

fn text_of(m: &AnswerMap, key: &str) -> Option<String> {
    match m.get(key) {
        Some(AnswerValue::Str(s)) => Some(s.clone()),
        _ => None,
    }
}

#[test]
fn test_parse_rhai_string() {}

#[test]
fn test_parse_identifier() {
    let (key, _) = parse_answer_pair("key=value").unwrap();
    assert_eq!(key, "key");
}

#[test]
fn test_parse_value() {
    assert_eq!(parse_answer_pair("key=value").unwrap().1, "value");
    assert_eq!(parse_answer_pair("key=\"value\"").unwrap().1, "value");
    assert_eq!(parse_answer_pair("key='value'").unwrap().1, "value");
}

#[test]
fn parse_pair_with_underscores_and_digits() {
    assert_eq!(
        parse_answer_pair("_first_name2=Jimmie").unwrap(),
        ("_first_name2".to_string(), "Jimmie".to_string())
    );
}

#[test]
fn parse_pair_keeps_equals_in_value() {
    assert_eq!(parse_answer_pair("a=b=c").unwrap(), ("a".to_string(), "b=c".to_string()));
}

#[test]
fn parse_pair_empty_quoted_value() {
    assert_eq!(parse_answer_pair("a=\"\"").unwrap().1, "");
}

#[test]
fn parse_pair_rejects_bad_identifiers() {
    assert_eq!(parse_answer_pair("1key=value"), Err(AnswerParseError::InvalidIdentifier));
    assert_eq!(parse_answer_pair("=value"), Err(AnswerParseError::InvalidIdentifier));
    assert_eq!(parse_answer_pair("key"), Err(AnswerParseError::InvalidIdentifier));
    assert_eq!(parse_answer_pair("ke-y=value"), Err(AnswerParseError::InvalidIdentifier));
    assert_eq!(parse_answer_pair(""), Err(AnswerParseError::InvalidIdentifier));
}

#[test]
fn parse_pair_rejects_bad_values() {
    assert_eq!(parse_answer_pair("key="), Err(AnswerParseError::InvalidValue));
    assert_eq!(parse_answer_pair("key=\"open"), Err(AnswerParseError::InvalidValue));
    assert_eq!(parse_answer_pair("key='a'b'"), Err(AnswerParseError::InvalidValue));
    assert_eq!(parse_answer_pair("key=\""), Err(AnswerParseError::InvalidValue));
}

#[test]
fn decimal_parsing() {
    assert_eq!(parse_i64("999"), Some(999));
    assert_eq!(parse_i64("-42"), Some(-42));
    assert_eq!(parse_i64("+7"), Some(7));
    assert_eq!(parse_i64("9223372036854775807"), Some(i64::MAX));
    assert_eq!(parse_i64("-9223372036854775808"), Some(i64::MIN));
    assert_eq!(parse_i64("9223372036854775808"), None);
    assert_eq!(parse_i64("123456789012345678901234567890"), None);
    assert_eq!(parse_i64(""), None);
    assert_eq!(parse_i64("-"), None);
    assert_eq!(parse_i64("12a"), None);
    assert_eq!(parse_i64(" 1"), None);
}

#[test]
fn answer_text_gets_its_type() {
    assert!(matches!(coerce_answer("999"), AnswerValue::Int(999)));
    assert!(matches!(coerce_answer("true"), AnswerValue::Bool(true)));
    assert!(matches!(coerce_answer("false"), AnswerValue::Bool(false)));
    match coerce_answer("YES") {
        AnswerValue::Str(s) => assert_eq!(s, "YES"),
        other => panic!("unexpected {:?}", other),
    }
}

#[test]
fn answer_map_insert_overwrites() {
    let mut m = AnswerMap::new();
    assert!(m.get("name").is_none());
    m.insert("name".to_string(), AnswerValue::Int(1));
    m.insert("other".to_string(), AnswerValue::Int(5));
    m.insert("name".to_string(), AnswerValue::Int(2));
    assert_eq!(int_of(&m, "name"), Some(2));
    assert_eq!(int_of(&m, "other"), Some(5));
    assert!(m.get("missing").is_none());
}

#[test]
fn arguments_become_typed_answers() {
    let args = vec!["age=999".to_string(), "name=\"World\"".to_string(), "enable=YES".to_string(), "age=3".to_string()];
    let m = answers_from_arguments(&args).unwrap();
    assert_eq!(int_of(&m, "age"), Some(3));
    assert_eq!(text_of(&m, "name"), Some("World".to_string()));
    assert_eq!(text_of(&m, "enable"), Some("YES".to_string()));
}

#[test]
fn arguments_report_first_bad_pair() {
    let args = vec!["a=1".to_string(), "b".to_string(), "c=".to_string()];
    assert!(matches!(answers_from_arguments(&args), Err((1, AnswerParseError::InvalidIdentifier))));
}

#[test]
fn answer_precedence_config_file_argument() {
    let mut config = AnswerMap::new();
    config.insert("a".to_string(), AnswerValue::Int(1));
    config.insert("b".to_string(), AnswerValue::Int(1));
    config.insert("c".to_string(), AnswerValue::Int(1));
    let mut first = AnswerMap::new();
    first.insert("b".to_string(), AnswerValue::Int(2));
    first.insert("c".to_string(), AnswerValue::Int(2));
    let mut second = AnswerMap::new();
    second.insert("b".to_string(), AnswerValue::Int(3));
    let pairs = answers_from_arguments(&vec!["c=4".to_string()]).unwrap();
    let merged = merge_answers(config, vec![first, second], pairs);
    assert_eq!(int_of(&merged, "a"), Some(1));
    assert_eq!(int_of(&merged, "b"), Some(3));
    assert_eq!(int_of(&merged, "c"), Some(4));
}
