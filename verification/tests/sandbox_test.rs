use app_runtime::fs::{FsError, PathProbe, ScopedFs};
use app_runtime::path::{extension, file_name, has_extension, is_absolute, join, lexically_within, normalized_components, starts_with};
use app_runtime::scope::AppScope;

#[test]
fn component_prefixes() {
    assert!(starts_with("/home/u/.local/share/app/x.txt", "/home/u/.local/share/app"));
    assert!(starts_with("/a/b", "/a/b/"));
    assert!(starts_with("/a//b/./c", "/a/b"));
    assert!(!starts_with("/a/bc", "/a/b"));
    assert!(!starts_with("a/b", "/a"));
    assert!(starts_with("./a", "."));
    assert!(!starts_with("/a", "/a/b"));
}

#[test]
fn joining_paths() {
    assert_eq!(join("/root", "x.txt"), "/root/x.txt");
    assert_eq!(join("/root/", "x.txt"), "/root/x.txt");
    assert_eq!(join("/root", "/etc/passwd"), "/etc/passwd");
    assert_eq!(join("", "x"), "x");
    assert!(is_absolute("/x"));
    assert!(!is_absolute("x"));
}

#[test]
fn file_names() {
    assert_eq!(file_name("/a/b.txt").as_deref(), Some("b.txt"));
    assert_eq!(file_name("a/b/").as_deref(), Some("b"));
    assert_eq!(file_name("a/b/.").as_deref(), Some("b"));
    assert_eq!(file_name("a/.."), None);
    assert_eq!(file_name("/"), None);
}

#[test]
fn scope_under_given_bases() {
    let scope = AppScope::from_base_dirs("notes", Some("/d".to_string()), None, Some("/k/".to_string()));
    assert_eq!(scope.data_dir(), "/d/notes");
    assert_eq!(scope.config_dir(), "~/.config/notes");
    assert_eq!(scope.cache_dir(), "/k/notes");
    assert!(scope.is_within_scope("/d/notes"));
    assert!(scope.is_within_scope("/d/notes/a/b"));
    assert!(scope.is_within_scope("/k/notes/c"));
    assert!(!scope.is_within_scope("/d/notes2"));
    assert!(!scope.is_within_scope("/d"));
    assert!(!scope.is_within_scope("/etc/passwd"));
}

#[test]
fn scope_is_named_after_the_app() {
    let scope = AppScope::new("my-app");
    assert!(scope.data_dir().ends_with("my-app"));
    assert!(scope.config_dir().ends_with("my-app"));
    assert!(scope.cache_dir().ends_with("my-app"));
}

fn probe(candidate: Option<&str>, root: Result<&str, &str>, parent: Option<&str>) -> PathProbe {
    PathProbe {
        canonical_candidate: candidate.map(|s| s.to_string()),
        candidate_is_link: false,
        canonical_root: root.map(|s| s.to_string()).map_err(|s| s.to_string()),
        canonical_parent: parent.map(|s| s.to_string()),
    }
}

#[test]
fn existing_file_inside_root_is_accepted() {
    let fs = ScopedFs::new_with_root("/tmp/r".to_string());
    assert_eq!(fs.candidate_path("hello.txt"), "/tmp/r/hello.txt");
    let r = fs.validate_path("hello.txt", &probe(Some("/tmp/r/hello.txt"), Ok("/tmp/r"), Some("/tmp/r")));
    assert_eq!(r.ok().as_deref(), Some("/tmp/r/hello.txt"));
}

#[test]
fn existing_file_outside_root_is_refused() {
    let fs = ScopedFs::new_with_root("/tmp/r".to_string());
    let r = fs.validate_path("/etc/passwd", &probe(Some("/etc/passwd"), Ok("/tmp/r"), Some("/etc")));
    assert!(matches!(r, Err(FsError::OutOfScope(p)) if p == "/etc/passwd"));
}

#[test]
fn traversal_resolving_outside_is_refused() {
    let fs = ScopedFs::new_with_root("/tmp/r".to_string());
    assert_eq!(fs.candidate_path("../../etc/passwd"), "/tmp/r/../../etc/passwd");
    let r = fs.validate_path("../../etc/passwd", &probe(Some("/etc/passwd"), Ok("/tmp/r"), Some("/etc")));
    assert!(matches!(r, Err(FsError::OutOfScope(_))));
}

#[test]
fn new_file_goes_under_its_canonical_parent() {
    let fs = ScopedFs::new_with_root("/tmp/r".to_string());
    let r = fs.validate_path("output.txt", &probe(None, Ok("/tmp/r"), Some("/tmp/r")));
    assert_eq!(r.ok().as_deref(), Some("/tmp/r/output.txt"));
    let r = fs.validate_path("../x.txt", &probe(None, Ok("/tmp/r"), Some("/tmp")));
    assert!(matches!(r, Err(FsError::OutOfScope(_))));
    let r = fs.validate_path("missing/x.txt", &probe(None, Ok("/tmp/r"), None));
    assert!(matches!(r, Err(FsError::OutOfScope(_))));
}

#[test]
fn unreadable_root_is_an_io_error() {
    let fs = ScopedFs::new_with_root("/nope".to_string());
    let r = fs.validate_path("a", &probe(Some("/nope/a"), Err("No such file or directory"), None));
    assert!(matches!(r, Err(FsError::Io(m)) if m == "No such file or directory"));
}

#[test]
fn extensions() {
    assert_eq!(extension("src/main.rs").as_deref(), Some("rs"));
    assert_eq!(extension("/a/b.tar.gz").as_deref(), Some("gz"));
    assert_eq!(extension("a/.rs"), None);
    assert_eq!(extension("a/b"), None);
    assert_eq!(extension("a/b.").as_deref(), Some(""));
    assert_eq!(extension("a.rs/.."), None);
    assert!(has_extension("x/y/lib.rs", "rs"));
    assert!(!has_extension("x/y/lib.rsx", "rs"));
    assert!(!has_extension("x/y.rs/", "md"));
}

#[test]
fn fs_error_messages() {
    assert_eq!(
        FsError::OutOfScope("/etc/passwd".to_string()).message(),
        "path is outside the allowed scope: /etc/passwd"
    );
    assert_eq!(FsError::Io("denied".to_string()).message(), "denied");
}

#[test]
fn dangling_link_is_refused() {
    let fs = ScopedFs::new_with_root("/tmp/r".to_string());
    let mut p = probe(None, Ok("/tmp/r"), Some("/tmp/r"));
    p.candidate_is_link = true;
    let r = fs.validate_path("evil", &p);
    assert!(matches!(r, Err(FsError::OutOfScope(q)) if q == "evil"));
}

#[test]
fn traversal_out_of_the_scope_is_outside() {
    let scope = AppScope::from_base_dirs(
        "app",
        Some("/home/u/.local/share".to_string()),
        Some("/home/u/.config".to_string()),
        Some("/home/u/.cache".to_string()),
    );
    assert!(!scope.is_within_scope("/home/u/.local/share/app/../../../../../etc/passwd"));
    assert!(!scope.is_within_scope("/home/u/.local/share/app/.."));
    assert!(!scope.is_within_scope("/home/u/.local/share/app/../../../../../../../.."));
    assert!(scope.is_within_scope("/home/u/.local/share/app/x/../y.txt"));
    assert!(scope.is_within_scope("/home/u/.config/./app/notes"));
    assert!(scope.is_within_scope("/home/u/.cache/other/../app"));
}

#[test]
fn lexical_resolution() {
    assert!(lexically_within("/a/b/../c", "/a/c"));
    assert!(!lexically_within("/a/b/../c", "/a/b"));
    assert!(!lexically_within("/..", "/"));
    assert!(!lexically_within("a/../..", "."));
    assert!(lexically_within("./a/./b", "a"));
    assert_eq!(normalized_components("/a/../../b").map(|v| v.len()), None);
    assert_eq!(normalized_components("/a/./b/..").map(|v| v.len()), Some(2));
}
