use archetect::answer_map::AnswerMap;
use archetect::answers::{answers_from_arguments, answer_file_kind, AnswerConfigError, AnswerFileKind};
use archetect::decimal::int_to_text;
use archetect::prompt::boolean::prompt as prompt_bool;
use archetect::prompt::text::prompt as prompt_text;
use archetect::prompt::PromptStep;
use archetect::safe::{deserialize, serialize, MarkedText};
use archetect::template::{render_path_segment, render_text, write_action, OverwritePolicy, RenderError, WriteAction};
use archetect::validation::{validate_int_input, IntInputError, Violation};
use archetect::value::AnswerValue;

fn answers(pairs: &[(&str, AnswerValue)]) -> AnswerMap {
    let mut m = AnswerMap::new();
    for (k, v) in pairs {
        let v = match v {
            AnswerValue::Int(i) => AnswerValue::Int(*i),
            AnswerValue::Bool(b) => AnswerValue::Bool(*b),
            AnswerValue::Str(s) => AnswerValue::Str(s.clone()),
            _ => AnswerValue::Unit,
        };
        m.insert(k.to_string(), v);
    }
    m
}

#[test]
fn literal_text_render_from_answer_argument() {
    let args = answers_from_arguments(&vec!["name=\"World\"".to_string()]).unwrap();
    let name = match prompt_text("Name:", &AnswerMap::new(), true, Some("name"), args.get("name")).unwrap() {
        PromptStep::Answered(Some(n)) => n,
        other => panic!("unexpected {:?}", other),
    };
    let scope = answers(&[("name", AnswerValue::Str(name))]);
    assert_eq!(render_text("Hello, {{ name }}!", &scope).unwrap(), "Hello, World!");
}

#[test]
fn bool_coercion_renders_true() {
    let args = answers_from_arguments(&vec!["enable=YES".to_string()]).unwrap();
    let enable = match prompt_bool("Enable?", &AnswerMap::new(), true, Some("enable"), args.get("enable")).unwrap() {
        PromptStep::Answered(Some(b)) => b,
        other => panic!("unexpected {:?}", other),
    };
    let scope = answers(&[("enable", AnswerValue::Bool(enable))]);
    assert_eq!(render_text("enable={{enable}}", &scope).unwrap(), "enable=true");
}

#[test]
fn plain_template_is_copied() {
    let scope = answers(&[("name", AnswerValue::Str("x".to_string()))]);
    let text = "fn main() {\n    println!(\"{ name }\");\n}\n}}";
    assert_eq!(render_text(text, &scope).unwrap(), text);
    assert_eq!(render_text("", &scope).unwrap(), "");
}

#[test]
fn values_render_by_type() {
    let scope = answers(&[
        ("n", AnswerValue::Int(-42)),
        ("z", AnswerValue::Int(0)),
        ("b", AnswerValue::Bool(false)),
        ("u", AnswerValue::Unit),
    ]);
    assert_eq!(render_text("{{n}}/{{ z }}/{{b}}/{{u}}/{{missing}}.", &scope).unwrap(), "-42/0/false//.");
}

#[test]
fn render_errors() {
    let mut scope = AnswerMap::new();
    scope.insert("list".to_string(), AnswerValue::List(vec![AnswerValue::Int(1)]));
    assert_eq!(render_text("a {{ name", &scope), Err(RenderError::UnclosedTag));
    assert_eq!(render_text("{{ 1x }}", &scope), Err(RenderError::InvalidExpression));
    assert_eq!(render_text("{{ a b }}", &scope), Err(RenderError::InvalidExpression));
    assert_eq!(render_text("{{}}", &scope), Err(RenderError::InvalidExpression));
    assert_eq!(render_text("{{ list }}", &scope), Err(RenderError::UnrenderableValue));
}

#[test]
fn path_segments() {
    let scope = answers(&[("project", AnswerValue::Str("demo".to_string())), ("empty", AnswerValue::Str(String::new()))]);
    assert_eq!(render_path_segment("{{ project }}-svc", &scope).unwrap(), Some("demo-svc".to_string()));
    assert_eq!(render_path_segment("{{ empty }}", &scope).unwrap(), None);
    assert_eq!(render_path_segment(".archetect.yml", &scope).unwrap(), None);
}

#[test]
fn overwrite_policy() {
    assert_eq!(OverwritePolicy::default_policy(), OverwritePolicy::Prompt);
    assert_eq!(write_action(OverwritePolicy::Preserve, false), WriteAction::Write);
    assert_eq!(write_action(OverwritePolicy::Preserve, true), WriteAction::Skip);
    assert_eq!(write_action(OverwritePolicy::Prompt, true), WriteAction::Ask);
    assert_eq!(write_action(OverwritePolicy::Overwrite, true), WriteAction::Write);
}

#[test]
fn integers_in_decimal() {
    assert_eq!(int_to_text(0), "0");
    assert_eq!(int_to_text(1234567890), "1234567890");
    assert_eq!(int_to_text(i64::MAX), "9223372036854775807");
    assert_eq!(int_to_text(i64::MIN), "-9223372036854775808");
}

#[test]
fn answer_file_kinds() {
    assert_eq!(answer_file_kind("answers.yml"), Ok(AnswerFileKind::Yaml));
    assert_eq!(answer_file_kind("a.yaml"), Ok(AnswerFileKind::Yaml));
    assert_eq!(answer_file_kind("a.json"), Ok(AnswerFileKind::Json));
    assert_eq!(answer_file_kind("a.rhai"), Ok(AnswerFileKind::Script));
    assert_eq!(answer_file_kind("a.toml"), Err(AnswerConfigError::InvalidFileType));
}

#[test]
fn typed_int_input() {
    assert_eq!(validate_int_input(Some(0), Some(120), "42"), Ok(42));
    assert_eq!(validate_int_input(Some(0), Some(120), "999"), Err(IntInputError::OutOfBounds(Violation::AboveMax(120))));
    assert_eq!(validate_int_input(None, None, "forty"), Err(IntInputError::NotAnInt));
}

#[test]
fn safe_string_round_trip() {
    let v = MarkedText { text: "<b>HTML</b>".to_string(), safe: true };
    let s = serialize(&v);
    assert_eq!(s, "+<b>HTML</b>");
    let back = deserialize(&s).unwrap();
    assert_eq!(back.text, "<b>HTML</b>");
    assert!(back.safe);
    let plain = deserialize(&serialize(&MarkedText { text: String::new(), safe: false })).unwrap();
    assert_eq!(plain.text, "");
    assert!(!plain.safe);
    assert!(deserialize("").is_none());
    assert!(deserialize("x").is_none());
}
