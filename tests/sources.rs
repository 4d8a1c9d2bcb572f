use archetect::answer_map::AnswerMap;
use archetect::value::AnswerValue;
use archetect::catalog::{menu, navigate, CatalogEntry, CatalogError, MenuStep, RenderStack};
use archetect::protocol::CommandRequest;
use archetect::source::{classify, fetch_action, git_cache_dir_for, http_cache_dir_for, http_cache_dir_from_digest, settle_fetch, FetchAction, SourceError, SourceKind};
use archetect::switches::merge_switches;

fn leaf(description: &str, source: &str, switches: &[&str]) -> CatalogEntry {
    CatalogEntry::Archetype {
        description: description.to_string(),
        source: source.to_string(),
        switches: switches.iter().map(|s| s.to_string()).collect(),
        answers: AnswerMap::new(),
    }
}

fn strings(items: &[&str]) -> Vec<String> {
    items.iter().map(|s| s.to_string()).collect()
}

fn group(description: &str, switches: &[&str], entries: Vec<CatalogEntry>) -> CatalogEntry {
    CatalogEntry::Group {
        description: description.to_string(),
        switches: switches.iter().map(|s| s.to_string()).collect(),
        entries,
    }
}

fn two_level() -> Vec<CatalogEntry> {
    vec![
        group("web", &["frontend"], vec![leaf("spa", "git@github.com:acme/spa.git", &["react"]), leaf("static", "s", &[])]),
        group("service", &["backend"], vec![leaf("grpc", "git@github.com:acme/grpc.git", &[])]),
    ]
}

#[test]
fn catalog_descent_merges_switches() {
    let s = navigate(two_level(), &strings(&["web", "spa"]), &strings(&["verbose"]), AnswerMap::new()).unwrap();
    assert_eq!(s.source, "git@github.com:acme/spa.git");
    assert_eq!(s.switches, strings(&["verbose", "frontend", "react"]));
}

#[test]
fn catalog_single_leaf_is_taken() {
    let s = navigate(two_level(), &strings(&["service"]), &vec![], AnswerMap::new()).unwrap();
    assert_eq!(s.source, "git@github.com:acme/grpc.git");
    assert_eq!(s.switches, vec!["backend".to_string()]);
}

#[test]
fn catalog_errors() {
    assert!(matches!(navigate(two_level(), &vec![], &vec![], AnswerMap::new()), Err(CatalogError::NoChoice)));
    assert!(matches!(navigate(two_level(), &strings(&["web"]), &vec![], AnswerMap::new()), Err(CatalogError::NoChoice)));
    assert!(matches!(navigate(two_level(), &strings(&["mobile"]), &vec![], AnswerMap::new()), Err(CatalogError::UnknownEntry)));
}

#[test]
fn catalog_menu_lists_entries_in_order() {
    let catalog = two_level();
    match menu(&catalog, "Choose:") {
        MenuStep::Ask(CommandRequest::PromptForSelect(info, options)) => {
            assert_eq!(info.message, "Choose:");
            assert_eq!(options, vec!["web".to_string(), "service".to_string()]);
        }
        other => panic!("unexpected {:?}", other),
    }
    let single = vec![leaf("only", "x", &[])];
    assert!(matches!(menu(&single, "Choose:"), MenuStep::Take(0)));
}

#[test]
fn reference_classification() {
    assert_eq!(classify("anything", true), Ok(SourceKind::Local));
    assert_eq!(classify("git://example.com/acme/repo.git", false), Ok(SourceKind::Git));
    assert_eq!(classify("git@github.com:acme/repo", false), Ok(SourceKind::Git));
    assert_eq!(classify("https://example.com/archetype.zip", false), Ok(SourceKind::Http));
    assert_eq!(classify("http://example.com/a", false), Ok(SourceKind::Http));
    assert_eq!(classify("./missing/dir", false), Err(SourceError::ReferenceError));
    assert_eq!(classify("a/b@c:d", false), Err(SourceError::ReferenceError));
}

#[test]
fn offline_cache_reuse() {
    // first run, online, empty cache
    assert_eq!(fetch_action(false, false), Ok(FetchAction::Clone));
    assert_eq!(settle_fetch(FetchAction::Clone, true), Ok(()));
    // second run, offline, warm cache
    assert_eq!(fetch_action(true, true), Ok(FetchAction::UseCached));
    assert_eq!(settle_fetch(FetchAction::UseCached, false), Ok(()));
    // offline with nothing cached
    assert_eq!(fetch_action(false, true), Err(SourceError::OfflineError));
    assert_eq!(settle_fetch(FetchAction::Clone, false), Err(SourceError::FetchError));
    assert_eq!(fetch_action(true, false), Ok(FetchAction::Update));
    assert_eq!(settle_fetch(FetchAction::Update, false), Ok(()));
}

#[test]
fn git_cache_directories() {
    let a = git_cache_dir_for("/c/var/git", "github.com", "acme", "repo", "main");
    assert_eq!(a, "/c/var/git/github.com/acme/repo-main");
    assert_eq!(a, git_cache_dir_for("/c/var/git", "github.com", "acme", "repo", "main"));
    assert_ne!(a, git_cache_dir_for("/c/var/git", "github.com", "acme", "repo", "3f2a9c1"));
}

#[test]
fn switches_merge_once_each() {
    let config = vec!["a".to_string(), "b".to_string(), "a".to_string()];
    let cli = vec!["b".to_string(), "c".to_string()];
    assert_eq!(merge_switches(&config, &cli), vec!["a".to_string(), "b".to_string(), "c".to_string()]);
    assert!(merge_switches(&vec![], &vec![]).is_empty());
}

#[test]
fn composition_cycle_is_caught() {
    let mut stack = RenderStack::new();
    assert_eq!(stack.enter("a"), Ok(()));
    assert_eq!(stack.enter("b"), Ok(()));
    assert_eq!(stack.enter("a"), Err(CatalogError::CatalogCycle));
    stack.leave();
    assert_eq!(stack.enter("b"), Ok(()));
    stack.leave();
    stack.leave();
    assert_eq!(stack.enter("a"), Ok(()));
}

#[test]
fn catalog_entry_answers_override_callers() {
    let mut overrides = AnswerMap::new();
    overrides.insert("language".to_string(), AnswerValue::Str("rust".to_string()));
    let catalog = vec![
        CatalogEntry::Archetype {
            description: "svc".to_string(),
            source: "git@github.com:acme/svc.git".to_string(),
            switches: strings(&["grpc"]),
            answers: overrides,
        },
        leaf("other", "x", &[]),
    ];
    let mut caller = AnswerMap::new();
    caller.insert("language".to_string(), AnswerValue::Str("java".to_string()));
    caller.insert("name".to_string(), AnswerValue::Str("demo".to_string()));
    let s = navigate(catalog, &strings(&["svc"]), &strings(&["debug"]), caller).unwrap();
    assert_eq!(s.switches, strings(&["debug", "grpc"]));
    assert!(matches!(s.answers.get("language"), Some(AnswerValue::Str(v)) if v == "rust"));
    assert!(matches!(s.answers.get("name"), Some(AnswerValue::Str(v)) if v == "demo"));
}

#[test]
fn http_cache_directories() {
    let dir = http_cache_dir_for("/c/var/http", "https://example.com/archetype.zip");
    assert_eq!(dir, "/c/var/http/3f57619a6f32e93f7e0ca4f7c3b9d836a22776cae63a119c056720aedbef7235");
    assert_eq!(dir, http_cache_dir_for("/c/var/http", "https://example.com/archetype.zip"));
    assert_ne!(dir, http_cache_dir_for("/c/var/http", "https://example.com/other.zip"));
    assert_eq!(http_cache_dir_from_digest("/h", &vec![0x00, 0x0f, 0xa5, 0xff]), "/h/000fa5ff");
}
