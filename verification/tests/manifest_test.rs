use app_runtime::manifest::{AppManifest, FilesystemPermission, ManifestError};

#[test]
fn parse_minimal_manifest() {
    let toml_str = r#"
[app]
name = "test-app"
version = "0.1.0"
"#;

    let manifest = AppManifest::from_toml_str(toml_str).ok().unwrap();
    assert_eq!(manifest.app.name, "test-app");
    assert_eq!(manifest.app.version, "0.1.0");
    assert!(manifest.app.description.is_none());
    assert!(manifest.window.is_none());
    assert!(manifest.permissions.is_none());
    assert!(manifest.build.is_none());
}

#[test]
fn parse_full_manifest() {
    let toml_str = r#"
[app]
name = "my-app"
version = "1.0.0"
description = "A test application"

[window]
title = "My App"
width = 1280
height = 720
resizable = true
decorations = false

[permissions]
network = ["https://api.example.com"]
clipboard = ["read", "write"]

[permissions.filesystem]
user-files = "portal"

[build]
frontend = "npm run build"
assets = ["dist", "static"]
"#;

    let manifest = AppManifest::from_toml_str(toml_str).ok().unwrap();
    assert_eq!(manifest.app.name, "my-app");
    assert_eq!(manifest.app.version, "1.0.0");
    assert_eq!(manifest.app.description.as_deref(), Some("A test application"));

    let window = manifest.window.as_ref().unwrap();
    assert_eq!(window.title.as_deref(), Some("My App"));
    assert_eq!(window.width, Some(1280));
    assert_eq!(window.height, Some(720));
    assert_eq!(window.resizable, Some(true));
    assert_eq!(window.decorations, Some(false));

    let perms = manifest.permissions.as_ref().unwrap();
    assert_eq!(perms.network.as_ref().unwrap(), &["https://api.example.com"]);
    assert_eq!(perms.clipboard.as_ref().unwrap(), &["read", "write"]);

    let fs = perms.filesystem.as_ref().unwrap();
    assert!(fs.user_files.is_some());

    let build = manifest.build.as_ref().unwrap();
    assert_eq!(build.frontend.as_deref(), Some("npm run build"));
    assert_eq!(build.assets.as_ref().unwrap(), &["dist", "static"]);
}

#[test]
fn reject_unknown_permission() {
    let toml_str = r#"
[app]
name = "test-app"
version = "0.1.0"

[permissions]
webcam = true
"#;

    let result = AppManifest::from_toml_str(toml_str);
    assert!(result.is_err());
}

fn parse(text: &str) -> Result<AppManifest, ManifestError> {
    AppManifest::from_toml_str(text)
}

#[test]
fn rejects_text_that_is_not_toml() {
    assert!(matches!(parse("[app\nname = "), Err(ManifestError::Parse(_))));
}

#[test]
fn rejects_missing_app_section() {
    assert!(parse("[window]\ntitle = \"x\"\n").is_err());
}

#[test]
fn rejects_missing_required_fields() {
    assert!(parse("[app]\nname = \"x\"\n").is_err());
    assert!(parse("[app]\nversion = \"1\"\n").is_err());
}

#[test]
fn rejects_unknown_keys_in_every_section() {
    assert!(parse("[app]\nname = \"x\"\nversion = \"1\"\nauthor = \"me\"\n").is_err());
    assert!(parse("[app]\nname = \"x\"\nversion = \"1\"\n[window]\nfullscreen = true\n").is_err());
    assert!(parse("[app]\nname = \"x\"\nversion = \"1\"\n[build]\nout = \"d\"\n").is_err());
    assert!(parse("[app]\nname = \"x\"\nversion = \"1\"\n[extra]\n").is_err());
    assert!(parse("[app]\nname = \"x\"\nversion = \"1\"\n[permissions.filesystem]\nhome = \"rw\"\n").is_err());
}

#[test]
fn rejects_wrong_types() {
    assert!(parse("[app]\nname = 5\nversion = \"1\"\n").is_err());
    assert!(parse("[app]\nname = \"x\"\nversion = \"1\"\n[window]\nwidth = \"wide\"\n").is_err());
    assert!(parse("[app]\nname = \"x\"\nversion = \"1\"\n[window]\nresizable = 1\n").is_err());
    assert!(parse("[app]\nname = \"x\"\nversion = \"1\"\n[permissions]\nnetwork = \"https\"\n").is_err());
    assert!(parse("[app]\nname = \"x\"\nversion = \"1\"\n[permissions]\nnetwork = [\"https\", 1]\n").is_err());
    assert!(parse("[app]\nname = \"x\"\nversion = \"1\"\n[window]\nwidth = 1.5\n").is_err());
}

#[test]
fn width_must_fit_an_unsigned_32_bit_integer() {
    assert!(parse("[app]\nname = \"x\"\nversion = \"1\"\n[window]\nwidth = -1\n").is_err());
    assert!(parse("[app]\nname = \"x\"\nversion = \"1\"\n[window]\nwidth = 4294967296\n").is_err());
    let m = parse("[app]\nname = \"x\"\nversion = \"1\"\n[window]\nwidth = 4294967295\nheight = 0\n").ok().unwrap();
    let w = m.window.unwrap();
    assert_eq!(w.width, Some(4294967295));
    assert_eq!(w.height, Some(0));
}

#[test]
fn user_files_only_takes_portal() {
    let m = parse("[app]\nname = \"x\"\nversion = \"1\"\n[permissions.filesystem]\nuser-files = \"portal\"\n").ok().unwrap();
    let fs = m.permissions.unwrap().filesystem.unwrap();
    assert_eq!(fs.user_files, Some(FilesystemPermission::Portal));
    assert!(parse("[app]\nname = \"x\"\nversion = \"1\"\n[permissions.filesystem]\nuser-files = \"Portal\"\n").is_err());
    assert!(parse("[app]\nname = \"x\"\nversion = \"1\"\n[permissions.filesystem]\nuser_files = \"portal\"\n").is_err());
    let m = parse("[app]\nname = \"x\"\nversion = \"1\"\n[permissions.filesystem]\nuser-files = { portal = {} }\n").ok().unwrap();
    assert_eq!(m.permissions.unwrap().filesystem.unwrap().user_files, Some(FilesystemPermission::Portal));
}

#[test]
fn a_section_may_be_an_array_of_all_its_fields() {
    let m = parse("app = [\"x\", \"1\", \"about x\"]\n").ok().unwrap();
    assert_eq!(m.app.name, "x");
    assert_eq!(m.app.version, "1");
    assert_eq!(m.app.description.as_deref(), Some("about x"));
    assert!(parse("app = [\"x\", \"1\"]\n").is_err());
}

#[test]
fn inline_tables_work_like_sections() {
    let m = parse("app = { name = \"x\", version = \"2\" }\nbuild = { assets = [] }\n").ok().unwrap();
    assert_eq!(m.app.version, "2");
    let b = m.build.unwrap();
    assert!(b.frontend.is_none());
    assert_eq!(b.assets.unwrap().len(), 0);
}

#[test]
fn has_permission_follows_the_declarations() {
    let m = parse("[app]\nname = \"x\"\nversion = \"1\"\n[permissions]\nnetwork = []\nclipboard = [\"read\"]\n[permissions.filesystem]\n").ok().unwrap();
    assert!(!m.has_permission("network"));
    assert!(m.has_permission("clipboard"));
    assert!(m.has_permission("filesystem"));
    assert!(!m.has_permission("shell"));
    assert!(!m.has_permission("Clipboard"));
}

#[test]
fn unreadable_file_is_an_io_error() {
    let r = AppManifest::from_file(Err("No such file or directory (os error 2)".to_string()));
    match r {
        Err(e @ ManifestError::Io(_)) => {
            assert_eq!(e.message(), "failed to read manifest: No such file or directory (os error 2)")
        }
        _ => panic!("expected an I/O error"),
    }
}

#[test]
fn read_file_is_parsed_like_text() {
    let m = AppManifest::from_file(Ok("[app]\nname = \"a\"\nversion = \"1\"\n".to_string())).ok().unwrap();
    assert_eq!(m.app.name, "a");
    assert_eq!(m.app.version, "1");
    let r = AppManifest::from_file(Ok("[app]\nname = \"a\"\n".to_string()));
    assert!(matches!(r, Err(ManifestError::Parse(_))));
}

#[test]
fn parse_error_message_names_the_failure() {
    let e = ManifestError::Parse("bad".to_string());
    assert_eq!(e.message(), "failed to parse manifest: bad");
}
