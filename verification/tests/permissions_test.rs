use app_runtime::manifest::AppManifest;
use app_runtime::permissions::PermissionGuard;

fn make_guard(toml_str: &str) -> PermissionGuard {
    let manifest = AppManifest::from_toml_str(toml_str).ok().unwrap();
    PermissionGuard::new(manifest)
}

#[test]
fn allows_declared_permission() {
    let guard = make_guard(r#"
[app]
name = "test"
version = "0.1.0"

[permissions]
network = ["https"]
"#);
    assert!(guard.check("network").is_ok());
}

#[test]
fn denies_undeclared_permission() {
    let guard = make_guard(r#"
[app]
name = "test"
version = "0.1.0"
"#);
    assert!(guard.check("network").is_err());
    assert!(guard.check("filesystem").is_err());
    assert!(guard.check("clipboard").is_err());
}

#[test]
fn denies_unknown_feature() {
    let guard = make_guard(r#"
[app]
name = "test"
version = "0.1.0"

[permissions]
network = ["https"]
"#);
    assert!(guard.check("nuclear-launch").is_err());
}

#[test]
fn refusal_names_the_feature() {
    let guard = make_guard("[app]\nname = \"t\"\nversion = \"1\"\n");
    let denied = guard.check("clipboard").err().unwrap();
    assert_eq!(denied.feature, "clipboard");
    assert_eq!(denied.message(), "permission denied: clipboard is not declared in app.toml");
    assert_eq!(guard.manifest().app.name, "t");
}
