use app_runtime::builder::AppBuilder;
use app_runtime::context::AppContext;
use app_runtime::ipc::{CommandHandler, IpcError, JsonValue};
use app_runtime::manifest::{AppManifest, ManifestError};
use app_runtime::network::{NetworkApi, NetworkError};
use app_runtime::project::{
    debug_binary_path, manifest_path, package_layout, placeholder_icon, release_binary_path, scaffold_project,
    BuildError, DevError, DirState, InitError, PackageError, ScaffoldStep,
};

fn file<'a>(steps: &'a [ScaffoldStep], path: &str) -> Option<&'a str> {
    steps.iter().find_map(|s| match s {
        ScaffoldStep::WriteFile(p, c) if p == path => Some(c.as_str()),
        _ => None,
    })
}

#[test]
fn scaffold_writes_the_project_files() {
    let steps = scaffold_project("/tmp/my-app", "my-app", DirState::Missing).ok().unwrap();
    assert_eq!(steps.len(), 8);
    assert!(matches!(&steps[0], ScaffoldStep::CreateDir(p) if p == "/tmp/my-app"));
    let app_toml = file(&steps, "/tmp/my-app/app.toml").unwrap();
    assert!(app_toml.contains("name = \"my-app\""));
    assert!(app_toml.contains("title = \"my-app\""));
    assert!(file(&steps, "/tmp/my-app/Cargo.toml").unwrap().contains("name = \"my-app\""));
    assert!(file(&steps, "/tmp/my-app/src/main.rs").unwrap().contains("AppBuilder"));
    let main_rs = file(&steps, "/tmp/my-app/src/main.rs").unwrap();
    assert!(main_rs.contains("AppBuilder::new()\n        .url(html)\n        .run();"));
    assert!(!main_rs.contains("with_url"));
    assert!(file(&steps, "/tmp/my-app/frontend/index.html").unwrap().contains("Welcome to my-app"));
    assert!(matches!(&steps[7], ScaffoldStep::CreateDir(p) if p == "/tmp/my-app/assets"));
    let m = AppManifest::from_toml_str(app_toml).ok().unwrap();
    assert_eq!(m.app.name, "my-app");
    assert_eq!(m.window.unwrap().width, Some(1024));
}

#[test]
fn scaffold_into_an_empty_directory_does_not_create_it() {
    let steps = scaffold_project("p", "x", DirState::Empty).ok().unwrap();
    assert_eq!(steps.len(), 7);
    assert!(matches!(&steps[0], ScaffoldStep::WriteFile(p, _) if p == "p/app.toml"));
}

#[test]
fn scaffold_refuses_a_non_empty_directory() {
    let r = scaffold_project("existing-app", "existing-app", DirState::NonEmpty);
    assert!(matches!(r, Err(InitError::DirectoryExists(p)) if p == "existing-app"));
}

#[test]
fn build_paths() {
    assert_eq!(manifest_path("proj"), "proj/app.toml");
    assert_eq!(release_binary_path("proj", "app"), "proj/target/release/app");
    assert_eq!(debug_binary_path("/p/", "app"), "/p/target/debug/app");
}

#[test]
fn appimage_layout() {
    let l = package_layout("proj", "notes", "1.2.0");
    assert_eq!(l.binary, "proj/target/release/notes");
    assert_eq!(l.appdir, "proj/target/appimage");
    assert_eq!(l.appdir_root, "proj/target/appimage/notes.AppDir");
    assert_eq!(l.usr_bin, "proj/target/appimage/notes.AppDir/usr/bin");
    assert_eq!(l.usr_share, "proj/target/appimage/notes.AppDir/usr/share/applications");
    assert_eq!(l.usr_icons, "proj/target/appimage/notes.AppDir/usr/share/icons/hicolor/256x256/apps");
    assert_eq!(
        l.desktop_entry,
        "[Desktop Entry]\nType=Application\nName=notes\nExec=notes\nIcon=notes\nCategories=Utility;\n"
    );
    assert_eq!(l.apprun, "#!/bin/sh\nexec \"$APPDIR/usr/bin/notes\" \"$@\"\n");
    assert_eq!(l.appimage_name, "notes-1.2.0-x86_64.AppImage");
    let icon = placeholder_icon();
    assert_eq!(icon.len(), 66);
    assert_eq!(&icon[1..4], b"PNG");
}

#[test]
fn plain_http_is_refused() {
    assert!(matches!(NetworkApi::check_url("http://example.com"), Err(NetworkError::HttpNotAllowed)));
    assert!(NetworkApi::check_url("https://example.com").is_ok());
    assert!(matches!(NetworkApi::check_url("HTTP://example.com"), Err(NetworkError::HttpNotAllowed)));
    assert!(matches!(NetworkApi::check_url("ftp://example.com"), Err(NetworkError::HttpNotAllowed)));
    assert!(matches!(NetworkApi::check_url("example.com"), Err(NetworkError::HttpNotAllowed)));
    assert!(matches!(NetworkApi::check_url("https:/"), Err(NetworkError::HttpNotAllowed)));
    assert!(NetworkApi::check_url("HTTPS://example.com").is_ok());
    assert!(NetworkApi::check_url("HttpS://example.com").is_ok());
    assert_eq!(NetworkError::HttpNotAllowed.message(), "HTTP is not allowed; use HTTPS");
}

struct Nop;

impl CommandHandler for Nop {
    fn handle(&self, _args: JsonValue) -> Result<JsonValue, IpcError> {
        Ok(JsonValue::Null)
    }
}

#[test]
fn builder_defaults_and_settings() {
    let b = AppBuilder::new();
    assert_eq!(b.window_title(), "Servo Runtime");
    assert_eq!(b.start_url(), "about:blank");
    assert_eq!(b.window_size(), (1024, 768));
    let b = b.title("Hello".to_string()).size(-5, 600).url("file:///x.html".to_string()).command("nop".to_string(), Nop);
    assert_eq!(b.window_title(), "Hello");
    assert_eq!(b.window_size(), (0, 600));
    assert_eq!(b.start_url(), "file:///x.html");
    let commands = b.into_commands();
    assert!(commands.has_command("nop"));
}

#[test]
fn context_from_manifest() {
    let m = AppManifest::from_toml_str("[app]\nname = \"ctx-app\"\nversion = \"1\"\n[permissions]\nclipboard = [\"read\"]\n").ok().unwrap();
    let ctx = AppContext::from_manifest(m);
    assert_eq!(ctx.app_name, "ctx-app");
    assert!(ctx.permissions.check("clipboard").is_ok());
    assert!(ctx.permissions.check("network").is_err());
    assert!(ctx.data_dir().ends_with("ctx-app"));
    assert!(ctx.config_dir().ends_with("ctx-app"));
    assert!(ctx.cache_dir().ends_with("ctx-app"));
}

#[test]
fn cli_error_messages() {
    assert_eq!(
        InitError::DirectoryExists("p".to_string()).message(),
        "directory already exists and is not empty: p"
    );
    assert_eq!(InitError::Io("e".to_string()).message(), "I/O error: e");
    assert_eq!(BuildError::NoManifest("d".to_string()).message(), "no app.toml found in d");
    assert_eq!(BuildError::Build.message(), "build failed");
    assert_eq!(
        BuildError::Manifest(ManifestError::Io("gone".to_string())).message(),
        "failed to parse manifest: failed to read manifest: gone"
    );
    assert_eq!(DevError::NoManifest("d".to_string()).message(), "no app.toml found in d");
    assert_eq!(DevError::Io("e".to_string()).message(), "I/O error: e");
    assert_eq!(PackageError::NoManifest.message(), "no app.toml found");
    assert_eq!(PackageError::Build("cargo build --release failed".to_string()).message(), "build failed: cargo build --release failed");
    assert_eq!(PackageError::BinaryNotFound("b".to_string()).message(), "binary not found at b");
    assert_eq!(PackageError::Io("e".to_string()).message(), "io error: e");
    assert_eq!(
        PackageError::Manifest(ManifestError::Parse("x".to_string())).message(),
        "manifest error: failed to parse manifest: x"
    );
}

#[test]
fn context_from_manifest_file() {
    let ctx = AppContext::from_manifest_file(Ok("[app]\nname = \"notes\"\nversion = \"0.1.0\"\n".to_string()))
        .ok()
        .unwrap();
    assert_eq!(ctx.app_name, "notes");
    assert!(ctx.data_dir().ends_with("/notes"));
    let r = AppContext::from_manifest_file(Err("missing".to_string()));
    assert!(matches!(r, Err(ManifestError::Io(m)) if m == "missing"));
    let r = AppContext::from_manifest_file(Ok("not toml = = =".to_string()));
    assert!(matches!(r, Err(ManifestError::Parse(_))));
}

#[test]
fn builder_default_is_new() {
    let b = AppBuilder::default();
    assert_eq!(b.window_title(), "Servo Runtime");
    assert_eq!(b.start_url(), "about:blank");
    assert_eq!(b.window_size(), (1024, 768));
}
