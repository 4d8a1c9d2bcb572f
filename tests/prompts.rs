use archetect::answer_map::AnswerMap;
use archetect::prompt::boolean::{boolean_of_folded, get_boolean, prompt as prompt_bool, receive_bool};
use archetect::prompt::integer::{prompt_int, receive_int};
use archetect::prompt::text::{prompt as prompt_text, receive_text};
use archetect::prompt::{PromptErrorKind, PromptStep};
use archetect::protocol::{log_request, CommandRequest, CommandResponse, LogLevel};
use archetect::validation::{validate_int, validate_text, Violation};
use archetect::value::AnswerValue;

fn bounds(min: i64, max: i64) -> AnswerMap {
    let mut s = AnswerMap::new();
    s.insert("min".to_string(), AnswerValue::Int(min));
    s.insert("max".to_string(), AnswerValue::Int(max));
    s
}

fn ask_info(step: PromptStep<String>) -> archetect::protocol::PromptInfo {
    match step {
        PromptStep::Ask(CommandRequest::PromptForText(info, _)) => info,
        other => panic!("expected a request, got {:?}", other),
    }
}

#[test]
fn literal_text_answer_headless() {
    let answer = AnswerValue::Str("World".to_string());
    let r = prompt_text("Name:", &AnswerMap::new(), true, Some("name"), Some(&answer)).unwrap();
    match r {
        PromptStep::Answered(Some(s)) => assert_eq!(format!("Hello, {}!", s), "Hello, World!"),
        other => panic!("unexpected {:?}", other),
    }
}

#[test]
fn int_answer_above_max_is_a_validation_error() {
    let answer = AnswerValue::Int(999);
    let e = prompt_int("Age:", &bounds(0, 120), true, Some("age"), Some(&answer)).unwrap_err();
    assert!(matches!(e.kind, PromptErrorKind::AnswerValidation(Violation::AboveMax(120))));
    assert_eq!(e.key.as_deref(), Some("age"));
    assert_eq!(e.message, "Age:");
}

#[test]
fn int_answer_within_bounds() {
    let answer = AnswerValue::Int(42);
    let r = prompt_int("Age:", &bounds(0, 120), false, Some("age"), Some(&answer)).unwrap();
    assert!(matches!(r, PromptStep::Answered(Some(42))));
    let below = AnswerValue::Int(-1);
    let e = prompt_int("Age:", &bounds(0, 120), false, Some("age"), Some(&below)).unwrap_err();
    assert!(matches!(e.kind, PromptErrorKind::AnswerValidation(Violation::BelowMin(0))));
}

#[test]
fn int_answer_of_wrong_type() {
    let answer = AnswerValue::Str("ten".to_string());
    let e = prompt_int("Age:", &AnswerMap::new(), false, Some("age"), Some(&answer)).unwrap_err();
    assert!(matches!(e.kind, PromptErrorKind::AnswerType));
}

#[test]
fn bool_answer_yes_in_upper_case() {
    let answer = AnswerValue::Str("YES".to_string());
    let r = prompt_bool("Enable?", &AnswerMap::new(), true, Some("enable"), Some(&answer)).unwrap();
    assert!(matches!(r, PromptStep::Answered(Some(true))));
}

#[test]
fn bool_answer_not_a_boolean() {
    let answer = AnswerValue::Str("maybe".to_string());
    let e = prompt_bool("Enable?", &AnswerMap::new(), true, Some("enable"), Some(&answer)).unwrap_err();
    assert!(matches!(e.kind, PromptErrorKind::AnswerValidation(Violation::NotABoolean)));
    let number = AnswerValue::Int(1);
    let e = prompt_bool("Enable?", &AnswerMap::new(), true, Some("enable"), Some(&number)).unwrap_err();
    assert!(matches!(e.kind, PromptErrorKind::AnswerType));
}

#[test]
fn boolean_words() {
    for w in ["y", "yes", "t", "true", "Y", "Yes", "TRUE"] {
        assert_eq!(get_boolean(w), Ok(true));
    }
    for w in ["n", "no", "f", "false", "NO", "False"] {
        assert_eq!(get_boolean(w), Ok(false));
    }
    assert_eq!(get_boolean("yep"), Err(()));
    assert_eq!(get_boolean(""), Err(()));
    assert_eq!(boolean_of_folded("yes"), Ok(true));
    assert_eq!(boolean_of_folded("YES"), Err(()));
}

#[test]
fn supplied_answer_is_never_asked() {
    let answer = AnswerValue::Str("World".to_string());
    let r = prompt_text("Name:", &AnswerMap::new(), false, Some("name"), Some(&answer)).unwrap();
    assert!(matches!(r, PromptStep::Answered(Some(_))));
    let n = AnswerValue::Int(3);
    let r = prompt_int("N:", &AnswerMap::new(), false, Some("n"), Some(&n)).unwrap();
    assert!(matches!(r, PromptStep::Answered(Some(3))));
}

#[test]
fn interactive_prompt_asks_the_driver() {
    let mut settings = bounds(2, 10);
    settings.insert("placeholder".to_string(), AnswerValue::Str("type here".to_string()));
    settings.insert("defaults_with".to_string(), AnswerValue::Str("abc".to_string()));
    match prompt_text("Name:", &settings, false, Some("name"), None).unwrap() {
        PromptStep::Ask(CommandRequest::PromptForText(info, default)) => {
            assert_eq!(info.message, "Name:");
            assert_eq!(info.key.as_deref(), Some("name"));
            assert_eq!(info.min, Some(2));
            assert_eq!(info.max, Some(10));
            assert_eq!(info.placeholder.as_deref(), Some("type here"));
            assert!(!info.optional);
            assert_eq!(default.as_deref(), Some("abc"));
        }
        other => panic!("unexpected {:?}", other),
    }
}

#[test]
fn headless_uses_defaults() {
    let mut settings = AnswerMap::new();
    settings.insert("defaults_with".to_string(), AnswerValue::Str("svc".to_string()));
    let r = prompt_text("Name:", &settings, true, None, None).unwrap();
    assert!(matches!(r, PromptStep::Answered(Some(ref s)) if s == "svc"));
    let mut ints = AnswerMap::new();
    ints.insert("defaults_with".to_string(), AnswerValue::Int(8080));
    assert!(matches!(prompt_int("Port:", &ints, true, None, None).unwrap(), PromptStep::Answered(Some(8080))));
    let mut bools = AnswerMap::new();
    bools.insert("defaults_with".to_string(), AnswerValue::Bool(false));
    assert!(matches!(prompt_bool("On?", &bools, true, None, None).unwrap(), PromptStep::Answered(Some(false))));
}

#[test]
fn headless_without_default() {
    let e = prompt_text("Name:", &AnswerMap::new(), true, Some("name"), None).unwrap_err();
    assert!(matches!(e.kind, PromptErrorKind::HeadlessNoAnswer));
    let mut optional = AnswerMap::new();
    optional.insert("optional".to_string(), AnswerValue::Bool(true));
    assert!(matches!(prompt_text("Name:", &optional, true, None, None).unwrap(), PromptStep::Answered(None)));
    assert!(matches!(prompt_int("N:", &optional, true, None, None).unwrap(), PromptStep::Answered(None)));
    assert!(matches!(prompt_bool("B:", &optional, true, None, None).unwrap(), PromptStep::Answered(None)));
}

#[test]
fn invalid_setting_is_named() {
    let mut settings = AnswerMap::new();
    settings.insert("min".to_string(), AnswerValue::Str("one".to_string()));
    let e = prompt_int("N:", &settings, false, None, None).unwrap_err();
    assert!(matches!(e.kind, PromptErrorKind::InvalidPromptSetting(ref n) if n == "min"));
    let mut settings = AnswerMap::new();
    settings.insert("defaults_with".to_string(), AnswerValue::Int(1));
    let e = prompt_bool("B:", &settings, false, None, None).unwrap_err();
    assert!(matches!(e.kind, PromptErrorKind::InvalidPromptSetting(ref n) if n == "defaults_with"));
    let mut settings = AnswerMap::new();
    settings.insert("optional".to_string(), AnswerValue::Int(1));
    let e = prompt_text("T:", &settings, false, None, None).unwrap_err();
    assert!(matches!(e.kind, PromptErrorKind::InvalidPromptSetting(ref n) if n == "optional"));
}

#[test]
fn no_answer_response() {
    let required = ask_info(prompt_text("Name:", &AnswerMap::new(), false, Some("name"), None).unwrap());
    let e = receive_text(&required, CommandResponse::NoAnswer).unwrap_err();
    assert!(matches!(e.kind, PromptErrorKind::AnswerNotOptional));
    let mut settings = AnswerMap::new();
    settings.insert("optional".to_string(), AnswerValue::Bool(true));
    let optional = ask_info(prompt_text("Name:", &settings, false, Some("name"), None).unwrap());
    assert_eq!(receive_text(&optional, CommandResponse::NoAnswer).unwrap(), None);
}

#[test]
fn abort_response_is_script_abort() {
    let info = ask_info(prompt_text("Name:", &AnswerMap::new(), false, Some("name"), None).unwrap());
    let e = receive_text(&info, CommandResponse::Abort).unwrap_err();
    assert!(matches!(e.kind, PromptErrorKind::ScriptAbort));
}

#[test]
fn other_responses() {
    let info = ask_info(prompt_text("Name:", &AnswerMap::new(), false, Some("name"), None).unwrap());
    let e = receive_text(&info, CommandResponse::Error("boom".to_string())).unwrap_err();
    assert!(matches!(e.kind, PromptErrorKind::Prompt(ref m) if m == "boom"));
    let e = receive_text(&info, CommandResponse::Integer(3)).unwrap_err();
    assert!(matches!(e.kind, PromptErrorKind::UnexpectedResponse));
    assert_eq!(receive_text(&info, CommandResponse::String("Ann".to_string())).unwrap(), Some("Ann".to_string()));
    let e = receive_text(&info, CommandResponse::String(String::new())).unwrap_err();
    assert!(matches!(e.kind, PromptErrorKind::AnswerValidation(Violation::TooShort(1))));
    assert_eq!(receive_int(&info, CommandResponse::Integer(5)).unwrap(), Some(5));
    assert_eq!(receive_bool(&info, CommandResponse::Boolean(true)).unwrap(), Some(true));
    let e = receive_bool(&info, CommandResponse::String("yes".to_string())).unwrap_err();
    assert!(matches!(e.kind, PromptErrorKind::UnexpectedResponse));
}

#[test]
fn validation_bounds() {
    assert_eq!(validate_int(Some(0), Some(120), 120), Ok(()));
    assert_eq!(validate_int(Some(0), Some(120), 121), Err(Violation::AboveMax(120)));
    assert_eq!(validate_int(None, None, i64::MIN), Ok(()));
    assert_eq!(validate_text(None, None, ""), Err(Violation::TooShort(1)));
    assert_eq!(validate_text(Some(0), None, ""), Ok(()));
    assert_eq!(validate_text(None, Some(3), "abcd"), Err(Violation::TooLong(3)));
    assert_eq!(validate_text(None, Some(3), "äöü"), Ok(()));
    assert_eq!(validate_text(Some(-5), Some(-1), "a"), Err(Violation::TooLong(-1)));
}

#[test]
fn log_levels_map_to_requests() {
    assert!(matches!(log_request(LogLevel::Info, "m".to_string()), CommandRequest::LogInfo(ref m) if m == "m"));
    assert!(matches!(log_request(LogLevel::Trace, "m".to_string()), CommandRequest::LogTrace(_)));
    assert!(matches!(log_request(LogLevel::Debug, "m".to_string()), CommandRequest::LogDebug(_)));
    assert!(matches!(log_request(LogLevel::Warn, "m".to_string()), CommandRequest::LogWarn(_)));
    assert!(matches!(log_request(LogLevel::Error, "m".to_string()), CommandRequest::LogError(_)));
}

#[test]
fn violation_messages() {
    assert_eq!(Violation::AboveMax(120).message(), "must be ≤ 120");
    assert_eq!(Violation::BelowMin(-3).message(), "must be ≥ -3");
    assert_eq!(Violation::TooShort(1).message(), "must have at least 1 characters");
    assert_eq!(Violation::TooLong(20).message(), "must have at most 20 characters");
    assert_eq!(Violation::NotABoolean.message(), "must resemble a boolean");
}

#[test]
fn text_prompt_offers_minimum_of_one() {
    let info = ask_info(prompt_text("Name:", &AnswerMap::new(), false, Some("name"), None).unwrap());
    assert_eq!(info.min, Some(1));
    assert_eq!(info.max, None);
    match prompt_int("N:", &AnswerMap::new(), false, None, None).unwrap() {
        PromptStep::Ask(CommandRequest::PromptForInt(info, _)) => assert_eq!(info.min, None),
        other => panic!("unexpected {:?}", other),
    }
}
