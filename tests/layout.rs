use archetect::layout::{describe_layout, dot_home_in, join, NativeSystemLayout, RootedSystemLayout, SystemError, SystemLayout};
use archetect::server::{ArchetectServer, ArchetectServiceCore};

#[test]
fn test_native_system_paths() {
    if let Ok(native) = NativeSystemLayout::new() {
        println!("{}", describe_layout(&native));
    }
}

#[test]
fn test_directory_system_paths() {
    let layout = dot_home_in(Some("/home/user".to_string())).unwrap();
    println!("{}", describe_layout(&layout));
    assert_eq!(layout.configs_dir(), "/home/user/.archetect/etc");
}

#[test]
fn rooted_layout_paths() {
    let layout = RootedSystemLayout::new("/tmp/root");
    assert_eq!(layout.configs_dir(), "/tmp/root/etc");
    assert_eq!(layout.cache_dir(), "/tmp/root/var");
    assert_eq!(layout.git_cache_dir(), "/tmp/root/var/git");
    assert_eq!(layout.http_cache_dir(), "/tmp/root/var/http");
    assert_eq!(layout.catalog_cache_dir(), "/tmp/root/var/catalogs");
    assert_eq!(layout.answers_config(), "/tmp/root/etc/answers.yml");
    assert_eq!(layout.catalog(), "/tmp/root/etc/catalog.yml");
    assert_eq!(
        describe_layout(&layout),
        "Configs Directory: /tmp/root/etc\nUser Answers: /tmp/root/etc/answers.yml\nUser Catalog: /tmp/root/etc/catalog.yml\nGit Cache: /tmp/root/var/git\nCatalog Cache: /tmp/root/var/catalogs\n"
    );
}

#[test]
fn join_handles_trailing_slash() {
    assert_eq!(join("/a/", "b"), "/a/b");
    assert_eq!(join("/a", "b"), "/a/b");
    assert_eq!(join("", "b"), "b");
}

#[test]
fn answers_file_migration() {
    let layout = RootedSystemLayout::new("/r");
    assert_eq!(
        layout.answers_migration(false, true),
        Some(("/r/etc/answers.yaml".to_string(), "/r/etc/answers.yml".to_string()))
    );
    assert_eq!(layout.answers_migration(true, true), None);
    assert_eq!(layout.answers_migration(false, false), None);
}

#[test]
fn native_layout_from_dirs() {
    let l = NativeSystemLayout::from_dirs(Some(("/c".to_string(), "/k".to_string()))).unwrap();
    assert_eq!(l.configs_dir(), "/c");
    assert_eq!(l.git_cache_dir(), "/k/git");
    match NativeSystemLayout::from_dirs(None) {
        Err(SystemError::GenericError(m)) => assert_eq!(m, "No home directory detected for the current user."),
        Ok(_) => panic!("expected an error"),
    }
    assert!(dot_home_in(None).is_err());
}

#[test]
fn server_builder_keeps_address_and_port() {
    let builder = ArchetectServer::builder(ArchetectServiceCore::new("127.0.0.1", 8080));
    assert_eq!(builder.bind_address(), ("127.0.0.1", 8080));
    let server = builder.bound(51234);
    assert_eq!(server.service_port(), 51234);
    assert_eq!(server.service_core().host(), "127.0.0.1");
}
