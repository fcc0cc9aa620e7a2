//! What the command-line tool lays down on disk: the files of a new
//! project, where a build puts its binary, and the layout of an AppImage
//! directory. The tool's caller carries out the steps.
use vstd::prelude::*;
use crate::manifest::{ManifestError, spec_manifest_message};
use crate::path::{path_join, join};
use crate::text::{concat, contains_seq, occurs_at};

verus! {

/// Why a project could not be created.
pub enum InitError {
    /// The directory exists and is not empty.
    DirectoryExists(String),
    /// An I/O failure, with its message.
    Io(String),
}

/// Why a release build failed.
pub enum BuildError {
    /// The directory has no `app.toml`.
    NoManifest(String),
    /// The manifest could not be read.
    Manifest(ManifestError),
    /// The compiler failed.
    Build,
    /// An I/O failure, with its message.
    Io(String),
}

/// Why a development run failed.
pub enum DevError {
    /// The directory has no `app.toml`.
    NoManifest(String),
    /// The manifest could not be read.
    Manifest(ManifestError),
    /// The compiler failed.
    Build,
    /// An I/O failure, with its message.
    Io(String),
}

/// Why packaging failed.
pub enum PackageError {
    /// The manifest could not be read.
    Manifest(ManifestError),
    /// The project has no `app.toml`.
    NoManifest,
    /// The compiler failed, with a description.
    Build(String),
    /// The built binary is not where it should be.
    BinaryNotFound(String),
    /// An I/O failure, with its message.
    Io(String),
}

impl InitError {
    /// The message of the error.
    pub fn message(&self) -> (r: String)
        ensures
            match self {
                InitError::DirectoryExists(p) => r@ == "directory already exists and is not empty: "@ + p@,
                InitError::Io(m) => r@ == "I/O error: "@ + m@,
            },
    {
        match self {
            InitError::DirectoryExists(p) => concat("directory already exists and is not empty: ", p.as_str()),
            InitError::Io(m) => concat("I/O error: ", m.as_str()),
        }
    }
}

impl BuildError {
    /// The message of the error.
    pub fn message(&self) -> (r: String)
        ensures
            match self {
                BuildError::NoManifest(p) => r@ == "no app.toml found in "@ + p@,
                BuildError::Manifest(e) => r@ == "failed to parse manifest: "@ + spec_manifest_message(*e),
                BuildError::Build => r@ == "build failed"@,
                BuildError::Io(m) => r@ == "I/O error: "@ + m@,
            },
    {
        match self {
            BuildError::NoManifest(p) => concat("no app.toml found in ", p.as_str()),
            BuildError::Manifest(e) => {
                let m = e.message();
                concat("failed to parse manifest: ", m.as_str())
            },
            BuildError::Build => "build failed".to_string(),
            BuildError::Io(m) => concat("I/O error: ", m.as_str()),
        }
    }
}

impl DevError {
    /// The message of the error.
    pub fn message(&self) -> (r: String)
        ensures
            match self {
                DevError::NoManifest(p) => r@ == "no app.toml found in "@ + p@,
                DevError::Manifest(e) => r@ == "failed to parse manifest: "@ + spec_manifest_message(*e),
                DevError::Build => r@ == "build failed"@,
                DevError::Io(m) => r@ == "I/O error: "@ + m@,
            },
    {
        match self {
            DevError::NoManifest(p) => concat("no app.toml found in ", p.as_str()),
            DevError::Manifest(e) => {
                let m = e.message();
                concat("failed to parse manifest: ", m.as_str())
            },
            DevError::Build => "build failed".to_string(),
            DevError::Io(m) => concat("I/O error: ", m.as_str()),
        }
    }
}

impl PackageError {
    /// The message of the error.
    pub fn message(&self) -> (r: String)
        ensures
            match self {
                PackageError::Manifest(e) => r@ == "manifest error: "@ + spec_manifest_message(*e),
                PackageError::NoManifest => r@ == "no app.toml found"@,
                PackageError::Build(m) => r@ == "build failed: "@ + m@,
                PackageError::BinaryNotFound(p) => r@ == "binary not found at "@ + p@,
                PackageError::Io(m) => r@ == "io error: "@ + m@,
            },
    {
        match self {
            PackageError::Manifest(e) => {
                let m = e.message();
                concat("manifest error: ", m.as_str())
            },
            PackageError::NoManifest => "no app.toml found".to_string(),
            PackageError::Build(m) => concat("build failed: ", m.as_str()),
            PackageError::BinaryNotFound(p) => concat("binary not found at ", p.as_str()),
            PackageError::Io(m) => concat("io error: ", m.as_str()),
        }
    }
}

/// What is at the target directory of a new project.
#[derive(PartialEq, Eq, Structural, Clone, Copy, Debug)]
pub enum DirState {
    /// Nothing.
    Missing,
    /// A directory without entries.
    Empty,
    /// A directory with entries (or anything else that cannot be listed as empty).
    NonEmpty,
}

/// One thing to do on disk.
pub enum ScaffoldStep {
    /// Create a directory and its parents.
    CreateDir(String),
    /// Write a file with the given contents.
    WriteFile(String, String),
}

/// The model of a step.
pub enum StepView {
    CreateDir(Seq<char>),
    WriteFile(Seq<char>, Seq<char>),
}

impl ScaffoldStep {
    pub open spec fn view(&self) -> StepView {
        match self {
            ScaffoldStep::CreateDir(p) => StepView::CreateDir(p@),
            ScaffoldStep::WriteFile(p, c) => StepView::WriteFile(p@, c@),
        }
    }
}

/// The manifest of a new project.
pub open spec fn spec_app_toml(name: Seq<char>) -> Seq<char> {
    "[app]\nname = \""@ + name + "\"\nversion = \"0.1.0\"\n\n[window]\ntitle = \""@ + name
        + "\"\nwidth = 1024\nheight = 768\n"@
}

/// The package manifest of a new project.
pub open spec fn spec_cargo_toml(name: Seq<char>) -> Seq<char> {
    "[package]\nname = \""@ + name
        + "\"\nversion = \"0.1.0\"\nedition = \"2024\"\n\n[dependencies]\nruntime-core = { git = \"https://github.com/nicoburniske/servo-runtime.git\" }\nurl = \"2\"\n"@
}

/// The entry point of a new project.
pub open spec fn spec_main_rs() -> Seq<char> {
    "use runtime_core::AppBuilder;\nuse url::Url;\n\nfn main() {\n    let html = Url::parse(\"file://frontend/index.html\").expect(\"valid URL\");\n    AppBuilder::new()\n        .url(html)\n        .run();\n}\n"@
}

/// The start page of a new project.
pub open spec fn spec_index_html(name: Seq<char>) -> Seq<char> {
    "<!DOCTYPE html>\n<html lang=\"en\">\n<head>\n    <meta charset=\"UTF-8\">\n    <meta name=\"viewport\" content=\"width=device-width, initial-scale=1.0\">\n    <title>"@
        + name + "</title>\n</head>\n<body>\n    <h1>Welcome to "@ + name
        + "</h1>\n    <p>Edit <code>frontend/index.html</code> to get started.</p>\n</body>\n</html>\n"@
}

/// The steps that create a project named `name` at `path`: the directory
/// itself when missing, then the manifest, the package manifest, the entry
/// point, the start page and an empty `assets` directory. A non-empty
/// directory is refused.
pub open spec fn spec_scaffold(path: Seq<char>, name: Seq<char>, state: DirState) -> Option<Seq<StepView>> {
    if state == DirState::NonEmpty {
        None
    } else {
        let head = if state == DirState::Missing {
            seq![StepView::CreateDir(path)]
        } else {
            Seq::empty()
        };
        Some(
            head + seq![
                StepView::WriteFile(path_join(path, "app.toml"@), spec_app_toml(name)),
                StepView::WriteFile(path_join(path, "Cargo.toml"@), spec_cargo_toml(name)),
                StepView::CreateDir(path_join(path, "src"@)),
                StepView::WriteFile(path_join(path, "src/main.rs"@), spec_main_rs()),
                StepView::CreateDir(path_join(path, "frontend"@)),
                StepView::WriteFile(path_join(path, "frontend/index.html"@), spec_index_html(name)),
                StepView::CreateDir(path_join(path, "assets"@)),
            ],
        )
    }
}

fn app_toml(name: &str) -> (r: String)
    ensures
        r@ == spec_app_toml(name@),
{
    let mut s = "[app]\nname = \"".to_string();
    s.append(name);
    s.append("\"\nversion = \"0.1.0\"\n\n[window]\ntitle = \"");
    s.append(name);
    s.append("\"\nwidth = 1024\nheight = 768\n");
    s
}

fn cargo_toml(name: &str) -> (r: String)
    ensures
        r@ == spec_cargo_toml(name@),
{
    let mut s = "[package]\nname = \"".to_string();
    s.append(name);
    s.append(
        "\"\nversion = \"0.1.0\"\nedition = \"2024\"\n\n[dependencies]\nruntime-core = { git = \"https://github.com/nicoburniske/servo-runtime.git\" }\nurl = \"2\"\n",
    );
    s
}

fn main_rs() -> (r: String)
    ensures
        r@ == spec_main_rs(),
{
    "use runtime_core::AppBuilder;\nuse url::Url;\n\nfn main() {\n    let html = Url::parse(\"file://frontend/index.html\").expect(\"valid URL\");\n    AppBuilder::new()\n        .url(html)\n        .run();\n}\n".to_string()
}

fn index_html(name: &str) -> (r: String)
    ensures
        r@ == spec_index_html(name@),
{
    let mut s = "<!DOCTYPE html>\n<html lang=\"en\">\n<head>\n    <meta charset=\"UTF-8\">\n    <meta name=\"viewport\" content=\"width=device-width, initial-scale=1.0\">\n    <title>".to_string();
    s.append(name);
    s.append("</title>\n</head>\n<body>\n    <h1>Welcome to ");
    s.append(name);
    s.append("</h1>\n    <p>Edit <code>frontend/index.html</code> to get started.</p>\n</body>\n</html>\n");
    s
}

/// The steps that create a project named `name` at `path`, given what is
/// there now; a non-empty directory is refused with
/// [`InitError::DirectoryExists`] holding the path.
pub fn scaffold_project(path: &str, name: &str, state: DirState) -> (r: Result<Vec<ScaffoldStep>, InitError>)
    ensures
        match r {
            Ok(steps) => spec_scaffold(path@, name@, state) == Some(Seq::new(steps@.len(), |i: int| steps@[i].view())),
            Err(e) => spec_scaffold(path@, name@, state) is None && (e matches InitError::DirectoryExists(p) && p@ == path@),
        },
{
    if state == DirState::NonEmpty {
        return Err(InitError::DirectoryExists(path.to_owned()));
    }
    let mut steps: Vec<ScaffoldStep> = Vec::new();
    if state == DirState::Missing {
        steps.push(ScaffoldStep::CreateDir(path.to_owned()));
    }
    let ghost head = Seq::new(steps@.len(), |i: int| steps@[i].view());
    steps.push(ScaffoldStep::WriteFile(join(path, "app.toml"), app_toml(name)));
    steps.push(ScaffoldStep::WriteFile(join(path, "Cargo.toml"), cargo_toml(name)));
    steps.push(ScaffoldStep::CreateDir(join(path, "src")));
    steps.push(ScaffoldStep::WriteFile(join(path, "src/main.rs"), main_rs()));
    steps.push(ScaffoldStep::CreateDir(join(path, "frontend")));
    steps.push(ScaffoldStep::WriteFile(join(path, "frontend/index.html"), index_html(name)));
    steps.push(ScaffoldStep::CreateDir(join(path, "assets")));
    proof {
        let expected = spec_scaffold(path@, name@, state)->0;
        if state == DirState::Missing {
            assert(head =~= seq![StepView::CreateDir(path@)]);
        } else {
            assert(head =~= Seq::<StepView>::empty());
        }
        assert(Seq::new(steps@.len(), |i: int| steps@[i].view()) =~= expected);
    }
    Ok(steps)
}

/// The manifest of the project at `dir`.
pub fn manifest_path(dir: &str) -> (r: String)
    ensures
        r@ == path_join(dir@, "app.toml"@),
{
    join(dir, "app.toml")
}

/// Where a release build of `app_name` puts its binary.
pub fn release_binary_path(dir: &str, app_name: &str) -> (r: String)
    ensures
        r@ == path_join(dir@, "target/release/"@ + app_name@),
{
    let rel = concat("target/release/", app_name);
    join(dir, rel.as_str())
}

/// Where a debug build of `app_name` puts its binary.
pub fn debug_binary_path(dir: &str, app_name: &str) -> (r: String)
    ensures
        r@ == path_join(dir@, "target/debug/"@ + app_name@),
{
    let rel = concat("target/debug/", app_name);
    join(dir, rel.as_str())
}

/// The paths and files of an AppImage directory for an app.
pub struct PackageLayout {
    /// The release binary.
    pub binary: String,
    /// `target/appimage`, where the AppImage goes.
    pub appdir: String,
    /// `<name>.AppDir` inside it.
    pub appdir_root: String,
    /// `usr/bin` of the AppDir.
    pub usr_bin: String,
    /// `usr/share/applications` of the AppDir.
    pub usr_share: String,
    /// `usr/share/icons/hicolor/256x256/apps` of the AppDir.
    pub usr_icons: String,
    /// The desktop entry.
    pub desktop_entry: String,
    /// The `AppRun` script.
    pub apprun: String,
    /// The file name of the AppImage.
    pub appimage_name: String,
}

/// The desktop entry of an app.
pub open spec fn spec_desktop_entry(name: Seq<char>) -> Seq<char> {
    "[Desktop Entry]\nType=Application\nName="@ + name + "\nExec="@ + name + "\nIcon="@ + name
        + "\nCategories=Utility;\n"@
}

/// The `AppRun` script of an app: it runs the binary with the arguments given.
pub open spec fn spec_apprun(name: Seq<char>) -> Seq<char> {
    "#!/bin/sh\nexec \"$APPDIR/usr/bin/"@ + name + "\" \"$@\"\n"@
}

/// The file name of an app's AppImage.
pub open spec fn spec_appimage_name(name: Seq<char>, version: Seq<char>) -> Seq<char> {
    name + "-"@ + version + "-x86_64.AppImage"@
}

/// Paths joined one after another.
pub open spec fn join_all(base: Seq<char>, parts: Seq<Seq<char>>) -> Seq<char>
    decreases parts.len(),
{
    if parts.len() == 0 {
        base
    } else {
        path_join(join_all(base, parts.drop_last()), parts.last())
    }
}

/// The layout of the AppImage directory of app `name`, version `version`,
/// in the project at `dir`.
pub fn package_layout(dir: &str, name: &str, version: &str) -> (r: PackageLayout)
    ensures
        r.binary@ == join_all(dir@, seq!["target"@, "release"@, name@]),
        r.appdir@ == join_all(dir@, seq!["target"@, "appimage"@]),
        r.appdir_root@ == path_join(r.appdir@, name@ + ".AppDir"@),
        r.usr_bin@ == join_all(r.appdir_root@, seq!["usr"@, "bin"@]),
        r.usr_share@ == join_all(r.appdir_root@, seq!["usr"@, "share"@, "applications"@]),
        r.usr_icons@ == join_all(
            r.appdir_root@,
            seq!["usr"@, "share"@, "icons"@, "hicolor"@, "256x256"@, "apps"@],
        ),
        r.desktop_entry@ == spec_desktop_entry(name@),
        r.apprun@ == spec_apprun(name@),
        r.appimage_name@ == spec_appimage_name(name@, version@),
{
    let target = join(dir, "target");
    let release = join(target.as_str(), "release");
    let binary = join(release.as_str(), name);
    assert(binary@ == join_all(dir@, seq!["target"@, "release"@, name@])) by {
        reveal_with_fuel(join_all, 7);
        assert(seq!["target"@, "release"@, name@].drop_last() =~= seq!["target"@, "release"@]);
        assert(seq!["target"@, "release"@].drop_last() =~= seq!["target"@]);
        assert(seq!["target"@].drop_last() =~= Seq::<Seq<char>>::empty());
    }
    let appdir = join(target.as_str(), "appimage");
    assert(appdir@ == join_all(dir@, seq!["target"@, "appimage"@])) by {
        reveal_with_fuel(join_all, 7);
        assert(seq!["target"@, "appimage"@].drop_last() =~= seq!["target"@]);
        assert(seq!["target"@].drop_last() =~= Seq::<Seq<char>>::empty());
    }
    let root_name = concat(name, ".AppDir");
    let appdir_root = join(appdir.as_str(), root_name.as_str());
    let usr = join(appdir_root.as_str(), "usr");
    let usr_bin = join(usr.as_str(), "bin");
    assert(usr_bin@ == join_all(appdir_root@, seq!["usr"@, "bin"@])) by {
        reveal_with_fuel(join_all, 7);
        assert(seq!["usr"@, "bin"@].drop_last() =~= seq!["usr"@]);
        assert(seq!["usr"@].drop_last() =~= Seq::<Seq<char>>::empty());
    }
    let share = join(usr.as_str(), "share");
    let usr_share = join(share.as_str(), "applications");
    assert(usr_share@ == join_all(appdir_root@, seq!["usr"@, "share"@, "applications"@])) by {
        reveal_with_fuel(join_all, 7);
        assert(seq!["usr"@, "share"@, "applications"@].drop_last() =~= seq!["usr"@, "share"@]);
        assert(seq!["usr"@, "share"@].drop_last() =~= seq!["usr"@]);
        assert(seq!["usr"@].drop_last() =~= Seq::<Seq<char>>::empty());
    }
    let icons = join(share.as_str(), "icons");
    let hicolor = join(icons.as_str(), "hicolor");
    let size = join(hicolor.as_str(), "256x256");
    let usr_icons = join(size.as_str(), "apps");
    assert(usr_icons@ == join_all(
        appdir_root@,
        seq!["usr"@, "share"@, "icons"@, "hicolor"@, "256x256"@, "apps"@],
    )) by {
        reveal_with_fuel(join_all, 7);
        let s6 = seq!["usr"@, "share"@, "icons"@, "hicolor"@, "256x256"@, "apps"@];
        assert(s6.drop_last() =~= seq!["usr"@, "share"@, "icons"@, "hicolor"@, "256x256"@]);
        assert(s6.drop_last().drop_last() =~= seq!["usr"@, "share"@, "icons"@, "hicolor"@]);
        assert(s6.drop_last().drop_last().drop_last() =~= seq!["usr"@, "share"@, "icons"@]);
        assert(s6.drop_last().drop_last().drop_last().drop_last() =~= seq!["usr"@, "share"@]);
        assert(seq!["usr"@, "share"@].drop_last() =~= seq!["usr"@]);
        assert(seq!["usr"@].drop_last() =~= Seq::<Seq<char>>::empty());
    }
    let mut desktop_entry = "[Desktop Entry]\nType=Application\nName=".to_string();
    desktop_entry.append(name);
    desktop_entry.append("\nExec=");
    desktop_entry.append(name);
    desktop_entry.append("\nIcon=");
    desktop_entry.append(name);
    desktop_entry.append("\nCategories=Utility;\n");
    let mut apprun = "#!/bin/sh\nexec \"$APPDIR/usr/bin/".to_string();
    apprun.append(name);
    apprun.append("\" \"$@\"\n");
    let mut appimage_name = name.to_owned();
    appimage_name.append("-");
    appimage_name.append(version);
    appimage_name.append("-x86_64.AppImage");
    PackageLayout {
        binary,
        appdir,
        appdir_root,
        usr_bin,
        usr_share,
        usr_icons,
        desktop_entry,
        apprun,
        appimage_name,
    }
}

/// A 1x1 transparent PNG, the icon of an app that brings none.
pub open spec fn spec_placeholder_icon() -> Seq<u8> {
    seq![
        0x89u8, 0x50, 0x4E, 0x47, 0x0D, 0x0A, 0x1A, 0x0A, 0x00, 0x00, 0x00, 0x0D,
        0x49, 0x48, 0x44, 0x52, 0x00, 0x00, 0x00, 0x01, 0x00, 0x00, 0x00, 0x01,
        0x08, 0x06, 0x00, 0x00, 0x00, 0x1F, 0x15, 0xC4, 0x89, 0x00, 0x00, 0x00,
        0x0A, 0x49, 0x44, 0x41, 0x54, 0x78, 0x9C, 0x62, 0x00, 0x00, 0x00, 0x02,
        0x00, 0x01, 0xE5, 0x27, 0xDE, 0xFC, 0x00, 0x00, 0x00, 0x00, 0x49, 0x45,
        0x4E, 0x44, 0xAE, 0x42, 0x60, 0x82,
    ]
}

/// The bytes of the placeholder icon.
pub fn placeholder_icon() -> (r: Vec<u8>)
    ensures
        r@ == spec_placeholder_icon(),
{
    let r: Vec<u8> = vec![
        0x89u8, 0x50, 0x4E, 0x47, 0x0D, 0x0A, 0x1A, 0x0A, 0x00, 0x00, 0x00, 0x0D,
        0x49, 0x48, 0x44, 0x52, 0x00, 0x00, 0x00, 0x01, 0x00, 0x00, 0x00, 0x01,
        0x08, 0x06, 0x00, 0x00, 0x00, 0x1F, 0x15, 0xC4, 0x89, 0x00, 0x00, 0x00,
        0x0A, 0x49, 0x44, 0x41, 0x54, 0x78, 0x9C, 0x62, 0x00, 0x00, 0x00, 0x02,
        0x00, 0x01, 0xE5, 0x27, 0xDE, 0xFC, 0x00, 0x00, 0x00, 0x00, 0x49, 0x45,
        0x4E, 0x44, 0xAE, 0x42, 0x60, 0x82,
    ];
    assert(r@ =~= spec_placeholder_icon());
    r
}


/// `needle` at `k` in `b` is at `a.len() + k` in `a + b`.
proof fn lemma_occurs_after(a: Seq<char>, b: Seq<char>, needle: Seq<char>, k: int)
    requires
        occurs_at(b, needle, k),
    ensures
        occurs_at(a + b, needle, a.len() + k),
{
    assert((a + b).subrange(a.len() + k, a.len() + k + needle.len()) =~= b.subrange(k, k + needle.len()));
}

/// A new project builds: its `Cargo.toml` declares, under `[dependencies]`,
/// the two crates that its `src/main.rs` imports (`runtime-core`, and `url`
/// at version 2), and its entry point sets the start page with `.url`.
pub proof fn lemma_scaffold_declares_its_imports(path: Seq<char>, name: Seq<char>, state: DirState)
    requires
        state != DirState::NonEmpty,
    ensures
        spec_scaffold(path, name, state) is Some,
        exists|k: int, c: Seq<char>|
            0 <= k < spec_scaffold(path, name, state)->Some_0.len()
                && spec_scaffold(path, name, state)->Some_0[k] == StepView::WriteFile(path_join(path, "Cargo.toml"@), c)
                && contains_seq(c, "[dependencies]\n"@) && contains_seq(c, "\nruntime-core = "@)
                && contains_seq(c, "\nurl = \"2\"\n"@),
        exists|k: int, c: Seq<char>|
            0 <= k < spec_scaffold(path, name, state)->Some_0.len()
                && spec_scaffold(path, name, state)->Some_0[k] == StepView::WriteFile(path_join(path, "src/main.rs"@), c)
                && contains_seq(c, "use runtime_core::AppBuilder;"@) && contains_seq(c, "use url::Url;"@)
                && contains_seq(c, "\n        .url(html)\n"@),
{
    let steps = spec_scaffold(path, name, state)->Some_0;
    let h: int = if state == DirState::Missing { 1 } else { 0 };
    assert(steps[h + 1] == StepView::WriteFile(path_join(path, "Cargo.toml"@), spec_cargo_toml(name)));
    assert(steps[h + 3] == StepView::WriteFile(path_join(path, "src/main.rs"@), spec_main_rs()));
    let head = "[package]\nname = \""@ + name;
    let tail = "\"\nversion = \"0.1.0\"\nedition = \"2024\"\n\n[dependencies]\nruntime-core = { git = \"https://github.com/nicoburniske/servo-runtime.git\" }\nurl = \"2\"\n"@;
    assert(spec_cargo_toml(name) == head + tail);
    {
        reveal_strlit("\"\nversion = \"0.1.0\"\nedition = \"2024\"\n\n[dependencies]\nruntime-core = { git = \"https://github.com/nicoburniske/servo-runtime.git\" }\nurl = \"2\"\n");
        reveal_strlit("[dependencies]\n");
        reveal_strlit("\nruntime-core = ");
        reveal_strlit("\nurl = \"2\"\n");
        assert("\"\nversion = \"0.1.0\"\nedition = \"2024\"\n\n[dependencies]\nruntime-core = { git = \"https://github.com/nicoburniske/servo-runtime.git\" }\nurl = \"2\"\n"@.subrange(52, 68) =~= "\nruntime-core = "@);
        assert("\"\nversion = \"0.1.0\"\nedition = \"2024\"\n\n[dependencies]\nruntime-core = { git = \"https://github.com/nicoburniske/servo-runtime.git\" }\nurl = \"2\"\n"@.subrange(129, 140) =~= "\nurl = \"2\"\n"@);
        assert("\"\nversion = \"0.1.0\"\nedition = \"2024\"\n\n[dependencies]\nruntime-core = { git = \"https://github.com/nicoburniske/servo-runtime.git\" }\nurl = \"2\"\n"@.subrange(38, 53) =~= "[dependencies]\n"@);
    }
    lemma_occurs_after(head, tail, "\nruntime-core = "@, 52);
    assert(contains_seq(spec_cargo_toml(name), "\nruntime-core = "@));
    lemma_occurs_after(head, tail, "\nurl = \"2\"\n"@, 129);
    assert(contains_seq(spec_cargo_toml(name), "\nurl = \"2\"\n"@));
    lemma_occurs_after(head, tail, "[dependencies]\n"@, 38);
    assert(contains_seq(spec_cargo_toml(name), "[dependencies]\n"@));
    {
        reveal_strlit("use runtime_core::AppBuilder;\nuse url::Url;\n\nfn main() {\n    let html = Url::parse(\"file://frontend/index.html\").expect(\"valid URL\");\n    AppBuilder::new()\n        .url(html)\n        .run();\n}\n");
        reveal_strlit("use runtime_core::AppBuilder;");
        reveal_strlit("use url::Url;");
        reveal_strlit("\n        .url(html)\n");
        assert("use runtime_core::AppBuilder;\nuse url::Url;\n\nfn main() {\n    let html = Url::parse(\"file://frontend/index.html\").expect(\"valid URL\");\n    AppBuilder::new()\n        .url(html)\n        .run();\n}\n"@.subrange(0, 29) =~= "use runtime_core::AppBuilder;"@);
        assert("use runtime_core::AppBuilder;\nuse url::Url;\n\nfn main() {\n    let html = Url::parse(\"file://frontend/index.html\").expect(\"valid URL\");\n    AppBuilder::new()\n        .url(html)\n        .run();\n}\n"@.subrange(30, 43) =~= "use url::Url;"@);
        assert("use runtime_core::AppBuilder;\nuse url::Url;\n\nfn main() {\n    let html = Url::parse(\"file://frontend/index.html\").expect(\"valid URL\");\n    AppBuilder::new()\n        .url(html)\n        .run();\n}\n"@.subrange(155, 175) =~= "\n        .url(html)\n"@);
    }
    assert(occurs_at(spec_main_rs(), "use runtime_core::AppBuilder;"@, 0));
    assert(contains_seq(spec_main_rs(), "use runtime_core::AppBuilder;"@));
    assert(occurs_at(spec_main_rs(), "use url::Url;"@, 30));
    assert(contains_seq(spec_main_rs(), "use url::Url;"@));
    assert(occurs_at(spec_main_rs(), "\n        .url(html)\n"@, 155));
    assert(contains_seq(spec_main_rs(), "\n        .url(html)\n"@));
}

} // verus!
