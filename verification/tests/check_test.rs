use app_runtime::audit::{CheckError, CheckResult};
use app_runtime::manifest::{AppManifest, ManifestError};

fn audit(toml_content: &str, rust_content: &str) -> CheckResult {
    let manifest = AppManifest::from_toml_str(toml_content).ok().unwrap();
    CheckResult::from_manifest_and_sources(&manifest, &vec![rust_content.to_string()])
}

fn has(set: &[String], feature: &str) -> bool {
    set.iter().any(|s| s == feature)
}

#[test]
fn detects_over_permissioned() {
    let result = audit(
        r#"
[app]
name = "test"
version = "0.1.0"
[permissions]
network = ["https"]
clipboard = ["read"]
"#,
        "fn main() {}",
    );
    assert!(has(&result.over_permissioned(), "network"));
    assert!(has(&result.over_permissioned(), "clipboard"));
    assert!(result.under_permissioned().is_empty());
}

#[test]
fn detects_under_permissioned() {
    let result = audit(
        r#"
[app]
name = "test"
version = "0.1.0"
"#,
        r#"
use runtime_api::network::NetworkApi;
fn main() { NetworkApi::fetch("https://example.com"); }
"#,
    );
    assert!(has(&result.under_permissioned(), "network"));
    assert!(result.declared.is_empty());
}

#[test]
fn passes_when_matched() {
    let result = audit(
        r#"
[app]
name = "test"
version = "0.1.0"
[permissions]
network = ["https"]
"#,
        r#"
use runtime_api::network::NetworkApi;
fn main() { NetworkApi::fetch("https://example.com"); }
"#,
    );
    assert!(result.is_ok());
    assert!(result.over_permissioned().is_empty());
    assert!(result.under_permissioned().is_empty());
}

#[test]
fn features_come_out_sorted_and_once() {
    let result = audit(
        "[app]\nname = \"t\"\nversion = \"1\"\n[permissions]\nnetwork = [\"h\"]\nclipboard = [\"r\"]\n[permissions.filesystem]\n",
        "use ShellApi; ScopedFs; DialogApi; runtime_api::shell; NetworkApi",
    );
    assert_eq!(result.declared, vec!["clipboard", "filesystem", "network"]);
    assert_eq!(result.used, vec!["filesystem", "network", "shell"]);
    assert_eq!(result.over_permissioned(), vec!["clipboard"]);
    assert_eq!(result.under_permissioned(), vec!["shell"]);
    assert!(!result.is_ok());
}

#[test]
fn sources_are_audited_together() {
    let manifest = AppManifest::from_toml_str("[app]\nname = \"t\"\nversion = \"1\"\n").ok().unwrap();
    let sources = vec!["ClipboardApi::read_text()".to_string(), "let x = 1;".to_string()];
    let result = CheckResult::from_manifest_and_sources(&manifest, &sources);
    assert_eq!(result.used, vec!["clipboard"]);
    assert!(result.declared.is_empty());
}

#[test]
fn check_error_messages() {
    assert_eq!(CheckError::NoManifest.message(), "no app.toml found");
    assert_eq!(CheckError::Io("boom".to_string()).message(), "io error: boom");
    assert_eq!(
        CheckError::Manifest(ManifestError::Parse("x".to_string())).message(),
        "manifest error: failed to parse manifest: x"
    );
}
