//! The application manifest (`app.toml`): its sections, how a TOML
//! document is read into them, and which features it grants.
//!
//! Reading follows the manifest's schema exactly: unknown keys are refused
//! in every section, `app.name` and `app.version` are required, every other
//! setting is optional, widths and heights are unsigned 32-bit integers,
//! and `permissions.filesystem.user-files` only takes `"portal"`. As with
//! any serde-described structure read from TOML, a section may also be
//! given as an array holding all of its fields in order.
use vstd::prelude::*;
use crate::text::{str_eq, concat};
use crate::toml_doc::{TomlValue, TomlData, toml_view, table_view, toml_document, parse_toml};

verus! {

// ----------------------------------------------------------------------
// Types
// ----------------------------------------------------------------------

/// Why a manifest could not be had.
pub enum ManifestError {
    /// The manifest file could not be read; the I/O error's message.
    Io(String),
    /// The text is not TOML, or does not follow the manifest's schema.
    Parse(String),
}

/// The message of a manifest error.
pub open spec fn spec_manifest_message(e: ManifestError) -> Seq<char> {
    match e {
        ManifestError::Io(m) => "failed to read manifest: "@ + m@,
        ManifestError::Parse(m) => "failed to parse manifest: "@ + m@,
    }
}

impl ManifestError {
    /// The message of the error: what failed, a colon and the detail.
    pub fn message(&self) -> (r: String)
        ensures
            r@ == spec_manifest_message(*self),
    {
        match self {
            ManifestError::Io(m) => concat("failed to read manifest: ", m.as_str()),
            ManifestError::Parse(m) => concat("failed to parse manifest: ", m.as_str()),
        }
    }
}

/// The `[app]` section.
pub struct AppSection {
    pub name: String,
    pub version: String,
    pub description: Option<String>,
}

/// The `[window]` section.
pub struct WindowSection {
    pub title: Option<String>,
    pub width: Option<u32>,
    pub height: Option<u32>,
    pub resizable: Option<bool>,
    pub decorations: Option<bool>,
}

/// The `[permissions]` section.
pub struct PermissionsSection {
    pub network: Option<Vec<String>>,
    pub clipboard: Option<Vec<String>>,
    pub filesystem: Option<FilesystemSection>,
}

/// The `[permissions.filesystem]` section.
pub struct FilesystemSection {
    pub user_files: Option<FilesystemPermission>,
}

/// How user files may be reached.
#[derive(PartialEq, Eq, Structural, Clone, Copy, Debug)]
pub enum FilesystemPermission {
    /// Only through a file picker dialog.
    Portal,
}

/// The `[build]` section.
pub struct BuildSection {
    pub frontend: Option<String>,
    pub assets: Option<Vec<String>>,
}

/// The application manifest.
pub struct AppManifest {
    pub app: AppSection,
    pub window: Option<WindowSection>,
    pub permissions: Option<PermissionsSection>,
    pub build: Option<BuildSection>,
}

// ----------------------------------------------------------------------
// Models
// ----------------------------------------------------------------------

pub struct AppSectionView {
    pub name: Seq<char>,
    pub version: Seq<char>,
    pub description: Option<Seq<char>>,
}

pub struct WindowSectionView {
    pub title: Option<Seq<char>>,
    pub width: Option<u32>,
    pub height: Option<u32>,
    pub resizable: Option<bool>,
    pub decorations: Option<bool>,
}

pub struct FilesystemSectionView {
    pub user_files: Option<FilesystemPermission>,
}

pub struct PermissionsSectionView {
    pub network: Option<Seq<Seq<char>>>,
    pub clipboard: Option<Seq<Seq<char>>>,
    pub filesystem: Option<FilesystemSectionView>,
}

pub struct BuildSectionView {
    pub frontend: Option<Seq<char>>,
    pub assets: Option<Seq<Seq<char>>>,
}

pub struct AppManifestView {
    pub app: AppSectionView,
    pub window: Option<WindowSectionView>,
    pub permissions: Option<PermissionsSectionView>,
    pub build: Option<BuildSectionView>,
}

pub open spec fn opt_str_view(o: Option<String>) -> Option<Seq<char>> {
    match o {
        Some(s) => Some(s@),
        None => None,
    }
}

pub open spec fn strings_view(v: Seq<String>) -> Seq<Seq<char>> {
    Seq::new(v.len(), |i: int| v[i]@)
}

pub open spec fn opt_strings_view(o: Option<Vec<String>>) -> Option<Seq<Seq<char>>> {
    match o {
        Some(v) => Some(strings_view(v@)),
        None => None,
    }
}

impl AppSection {
    pub open spec fn view(&self) -> AppSectionView {
        AppSectionView {
            name: self.name@,
            version: self.version@,
            description: opt_str_view(self.description),
        }
    }
}

impl WindowSection {
    pub open spec fn view(&self) -> WindowSectionView {
        WindowSectionView {
            title: opt_str_view(self.title),
            width: self.width,
            height: self.height,
            resizable: self.resizable,
            decorations: self.decorations,
        }
    }
}

impl FilesystemSection {
    pub open spec fn view(&self) -> FilesystemSectionView {
        FilesystemSectionView { user_files: self.user_files }
    }
}

impl PermissionsSection {
    pub open spec fn view(&self) -> PermissionsSectionView {
        PermissionsSectionView {
            network: opt_strings_view(self.network),
            clipboard: opt_strings_view(self.clipboard),
            filesystem: match self.filesystem {
                Some(f) => Some(f.view()),
                None => None,
            },
        }
    }
}

impl BuildSection {
    pub open spec fn view(&self) -> BuildSectionView {
        BuildSectionView { frontend: opt_str_view(self.frontend), assets: opt_strings_view(self.assets) }
    }
}

impl AppManifest {
    pub open spec fn view(&self) -> AppManifestView {
        AppManifestView {
            app: self.app.view(),
            window: match self.window {
                Some(w) => Some(w.view()),
                None => None,
            },
            permissions: match self.permissions {
                Some(p) => Some(p.view()),
                None => None,
            },
            build: match self.build {
                Some(b) => Some(b.view()),
                None => None,
            },
        }
    }
}

// ----------------------------------------------------------------------
// The schema, over TOML data
// ----------------------------------------------------------------------

/// The value of the first entry named `k`.
pub open spec fn spec_lookup(t: Seq<(Seq<char>, TomlData)>, k: Seq<char>) -> Option<TomlData>
    decreases t.len(),
{
    if t.len() == 0 {
        None
    } else if t[0].0 == k {
        Some(t[0].1)
    } else {
        spec_lookup(t.drop_first(), k)
    }
}

/// Every entry of `t` is named by one of `allowed`.
pub open spec fn keys_within(t: Seq<(Seq<char>, TomlData)>, allowed: Seq<&str>) -> bool {
    forall|i: int| 0 <= i < t.len() ==> key_allowed(#[trigger] t[i].0, allowed)
}

/// `k` is one of `allowed`.
pub open spec fn key_allowed(k: Seq<char>, allowed: Seq<&str>) -> bool {
    exists|j: int| 0 <= j < allowed.len() && (#[trigger] allowed[j])@ == k
}

pub open spec fn dec_string(v: TomlData) -> Option<Seq<char>> {
    match v {
        TomlData::String(s) => Some(s),
        _ => None,
    }
}

pub open spec fn dec_u32(v: TomlData) -> Option<u32> {
    match v {
        TomlData::Integer(i) => if 0 <= i <= u32::MAX {
            Some(i as u32)
        } else {
            None
        },
        _ => None,
    }
}

pub open spec fn dec_bool(v: TomlData) -> Option<bool> {
    match v {
        TomlData::Boolean(b) => Some(b),
        _ => None,
    }
}

/// An array of strings.
pub open spec fn dec_strings(v: TomlData) -> Option<Seq<Seq<char>>> {
    match v {
        TomlData::Array(a) => if forall|i: int| 0 <= i < a.len() ==> (#[trigger] a[i]) is String {
            Some(Seq::new(a.len(), |i: int| a[i]->String_0))
        } else {
            None
        },
        _ => None,
    }
}

/// `"portal"`, or a one-entry table `portal` whose value is an empty table
/// or an empty array.
pub open spec fn dec_fs_permission(v: TomlData) -> Option<FilesystemPermission> {
    match v {
        TomlData::String(s) => if s == "portal"@ {
            Some(FilesystemPermission::Portal)
        } else {
            None
        },
        TomlData::Table(t) => if t.len() == 1 && t[0].0 == "portal"@ && (match t[0].1 {
            TomlData::Table(x) => x.len() == 0,
            TomlData::Array(x) => x.len() == 0,
            _ => false,
        }) {
            Some(FilesystemPermission::Portal)
        } else {
            None
        },
        _ => None,
    }
}

/// An optional field of a table: absent is fine, present must decode.
pub open spec fn opt_field<A>(t: Seq<(Seq<char>, TomlData)>, k: Seq<char>, d: spec_fn(TomlData) -> Option<A>) -> Option<Option<A>> {
    match spec_lookup(t, k) {
        None => Some(None),
        Some(v) => match d(v) {
            Some(a) => Some(Some(a)),
            None => None,
        },
    }
}

/// A required field of a table.
pub open spec fn req_field<A>(t: Seq<(Seq<char>, TomlData)>, k: Seq<char>, d: spec_fn(TomlData) -> Option<A>) -> Option<A> {
    match spec_lookup(t, k) {
        None => None,
        Some(v) => d(v),
    }
}

/// An optional field given in an array: the element must decode.
pub open spec fn opt_elem<A>(v: TomlData, d: spec_fn(TomlData) -> Option<A>) -> Option<Option<A>> {
    match d(v) {
        Some(a) => Some(Some(a)),
        None => None,
    }
}

pub open spec fn dec_app(v: TomlData) -> Option<AppSectionView> {
    match v {
        TomlData::Table(t) => if keys_within(t, seq!["name", "version", "description"]) {
            match (
                req_field(t, "name"@, |x: TomlData| dec_string(x)),
                req_field(t, "version"@, |x: TomlData| dec_string(x)),
                opt_field(t, "description"@, |x: TomlData| dec_string(x)),
            ) {
                (Some(n), Some(ver), Some(d)) => Some(AppSectionView { name: n, version: ver, description: d }),
                _ => None,
            }
        } else {
            None
        },
        TomlData::Array(a) => if a.len() >= 3 {
            match (dec_string(a[0]), dec_string(a[1]), opt_elem(a[2], |x: TomlData| dec_string(x))) {
                (Some(n), Some(ver), Some(d)) => Some(AppSectionView { name: n, version: ver, description: d }),
                _ => None,
            }
        } else {
            None
        },
        _ => None,
    }
}

pub open spec fn dec_window(v: TomlData) -> Option<WindowSectionView> {
    match v {
        TomlData::Table(t) => if keys_within(t, seq!["title", "width", "height", "resizable", "decorations"]) {
            match (
                opt_field(t, "title"@, |x: TomlData| dec_string(x)),
                opt_field(t, "width"@, |x: TomlData| dec_u32(x)),
                opt_field(t, "height"@, |x: TomlData| dec_u32(x)),
                opt_field(t, "resizable"@, |x: TomlData| dec_bool(x)),
                opt_field(t, "decorations"@, |x: TomlData| dec_bool(x)),
            ) {
                (Some(a), Some(b), Some(c), Some(d), Some(e)) => Some(
                    WindowSectionView { title: a, width: b, height: c, resizable: d, decorations: e },
                ),
                _ => None,
            }
        } else {
            None
        },
        TomlData::Array(x) => if x.len() >= 5 {
            match (
                opt_elem(x[0], |y: TomlData| dec_string(y)),
                opt_elem(x[1], |y: TomlData| dec_u32(y)),
                opt_elem(x[2], |y: TomlData| dec_u32(y)),
                opt_elem(x[3], |y: TomlData| dec_bool(y)),
                opt_elem(x[4], |y: TomlData| dec_bool(y)),
            ) {
                (Some(a), Some(b), Some(c), Some(d), Some(e)) => Some(
                    WindowSectionView { title: a, width: b, height: c, resizable: d, decorations: e },
                ),
                _ => None,
            }
        } else {
            None
        },
        _ => None,
    }
}

pub open spec fn dec_filesystem(v: TomlData) -> Option<FilesystemSectionView> {
    match v {
        TomlData::Table(t) => if keys_within(t, seq!["user-files"]) {
            match opt_field(t, "user-files"@, |x: TomlData| dec_fs_permission(x)) {
                Some(u) => Some(FilesystemSectionView { user_files: u }),
                None => None,
            }
        } else {
            None
        },
        TomlData::Array(x) => if x.len() >= 1 {
            match opt_elem(x[0], |y: TomlData| dec_fs_permission(y)) {
                Some(u) => Some(FilesystemSectionView { user_files: u }),
                None => None,
            }
        } else {
            None
        },
        _ => None,
    }
}

pub open spec fn dec_permissions(v: TomlData) -> Option<PermissionsSectionView> {
    match v {
        TomlData::Table(t) => if keys_within(t, seq!["network", "clipboard", "filesystem"]) {
            match (
                opt_field(t, "network"@, |x: TomlData| dec_strings(x)),
                opt_field(t, "clipboard"@, |x: TomlData| dec_strings(x)),
                opt_field(t, "filesystem"@, |x: TomlData| dec_filesystem(x)),
            ) {
                (Some(a), Some(b), Some(c)) => Some(PermissionsSectionView { network: a, clipboard: b, filesystem: c }),
                _ => None,
            }
        } else {
            None
        },
        TomlData::Array(x) => if x.len() >= 3 {
            match (
                opt_elem(x[0], |y: TomlData| dec_strings(y)),
                opt_elem(x[1], |y: TomlData| dec_strings(y)),
                opt_elem(x[2], |y: TomlData| dec_filesystem(y)),
            ) {
                (Some(a), Some(b), Some(c)) => Some(PermissionsSectionView { network: a, clipboard: b, filesystem: c }),
                _ => None,
            }
        } else {
            None
        },
        _ => None,
    }
}

pub open spec fn dec_build(v: TomlData) -> Option<BuildSectionView> {
    match v {
        TomlData::Table(t) => if keys_within(t, seq!["frontend", "assets"]) {
            match (
                opt_field(t, "frontend"@, |x: TomlData| dec_string(x)),
                opt_field(t, "assets"@, |x: TomlData| dec_strings(x)),
            ) {
                (Some(a), Some(b)) => Some(BuildSectionView { frontend: a, assets: b }),
                _ => None,
            }
        } else {
            None
        },
        TomlData::Array(x) => if x.len() >= 2 {
            match (opt_elem(x[0], |y: TomlData| dec_string(y)), opt_elem(x[1], |y: TomlData| dec_strings(y))) {
                (Some(a), Some(b)) => Some(BuildSectionView { frontend: a, assets: b }),
                _ => None,
            }
        } else {
            None
        },
        _ => None,
    }
}

/// The manifest that the top-level entries of a document describe, if any.
pub open spec fn dec_manifest(t: Seq<(Seq<char>, TomlData)>) -> Option<AppManifestView> {
    if keys_within(t, seq!["app", "window", "permissions", "build"]) {
        match (
            req_field(t, "app"@, |x: TomlData| dec_app(x)),
            opt_field(t, "window"@, |x: TomlData| dec_window(x)),
            opt_field(t, "permissions"@, |x: TomlData| dec_permissions(x)),
            opt_field(t, "build"@, |x: TomlData| dec_build(x)),
        ) {
            (Some(a), Some(w), Some(p), Some(b)) => Some(AppManifestView { app: a, window: w, permissions: p, build: b }),
            _ => None,
        }
    } else {
        None
    }
}

/// The manifest that a text describes, if any.
pub open spec fn spec_parse_manifest(text: Seq<char>) -> Option<AppManifestView> {
    match spec_manifest_result(text) {
        Ok(m) => Some(m),
        Err(_) => None,
    }
}

/// The message of a manifest that is TOML but breaks the schema.
pub open spec fn schema_error_message() -> Seq<char> {
    "the manifest does not follow the app.toml schema"@
}

/// What reading `text` as a manifest gives: the manifest, or the message of
/// the `Parse` error (the TOML parser's own for text that is not TOML).
pub open spec fn spec_manifest_result(text: Seq<char>) -> Result<AppManifestView, Seq<char>> {
    match toml_document(text) {
        Err(m) => Err(m),
        Ok(t) => match dec_manifest(t) {
            Some(m) => Ok(m),
            None => Err(schema_error_message()),
        },
    }
}

/// `r` is what reading `text` as a manifest gives.
pub open spec fn manifest_outcome(r: Result<AppManifest, ManifestError>, text: Seq<char>) -> bool {
    match r {
        Ok(m) => spec_manifest_result(text) == Ok::<AppManifestView, Seq<char>>(m.view()),
        Err(ManifestError::Parse(msg)) => spec_manifest_result(text) == Err::<AppManifestView, Seq<char>>(msg@),
        Err(ManifestError::Io(_)) => false,
    }
}

/// Whether the manifest grants a feature: `network` and `clipboard` when
/// declared with at least one entry, `filesystem` when its section is
/// there; nothing else, and nothing at all without a `[permissions]` section.
pub open spec fn spec_has_permission(m: AppManifestView, feature: Seq<char>) -> bool {
    match m.permissions {
        None => false,
        Some(p) => if feature == "network"@ {
            p.network matches Some(v) && v.len() > 0
        } else if feature == "clipboard"@ {
            p.clipboard matches Some(v) && v.len() > 0
        } else if feature == "filesystem"@ {
            p.filesystem is Some
        } else {
            false
        },
    }
}

} // verus!
verus! {

// ----------------------------------------------------------------------
// Reading, executable
// ----------------------------------------------------------------------

/// The value of the first entry named `k`.
fn lookup<'a>(t: &'a Vec<(String, TomlValue)>, k: &str) -> (r: Option<&'a TomlValue>)
    ensures
        match r {
            Some(v) => spec_lookup(table_view(t@), k@) == Some(toml_view(*v)),
            None => spec_lookup(table_view(t@), k@) is None,
        },
{
    let ghost tv = table_view(t@);
    assert(tv.subrange(0, tv.len() as int) =~= tv);
    let mut i: usize = 0;
    while i < t.len()
        invariant
            tv == table_view(t@),
            i <= t@.len(),
            spec_lookup(tv, k@) == spec_lookup(tv.subrange(i as int, tv.len() as int), k@),
        decreases t@.len() - i,
    {
        let ghost rest = tv.subrange(i as int, tv.len() as int);
        assert(rest[0] == tv[i as int]);
        assert(rest.drop_first() =~= tv.subrange(i + 1, tv.len() as int));
        if str_eq(t[i].0.as_str(), k) {
            return Some(&t[i].1);
        }
        i = i + 1;
    }
    None
}

/// `k` is one of `allowed`.
fn key_in(k: &str, allowed: &[&str]) -> (r: bool)
    ensures
        r == key_allowed(k@, allowed@),
{
    let mut j: usize = 0;
    while j < allowed.len()
        invariant
            j <= allowed@.len(),
            forall|i: int| 0 <= i < j ==> (#[trigger] allowed@[i])@ != k@,
        decreases allowed@.len() - j,
    {
        if str_eq(allowed[j], k) {
            return true;
        }
        j = j + 1;
    }
    false
}

/// Every entry of `t` is named by one of `allowed`.
fn keys_within_exec(t: &Vec<(String, TomlValue)>, allowed: &[&str]) -> (r: bool)
    ensures
        r == keys_within(table_view(t@), allowed@),
{
    let ghost tv = table_view(t@);
    let mut i: usize = 0;
    while i < t.len()
        invariant
            tv == table_view(t@),
            i <= t@.len(),
            forall|m: int| 0 <= m < i ==> key_allowed(#[trigger] tv[m].0, allowed@),
        decreases t@.len() - i,
    {
        assert(tv[i as int].0 == t@[i as int].0@);
        if !key_in(t[i].0.as_str(), allowed) {
            return false;
        }
        i = i + 1;
    }
    true
}

fn dec_string_exec(v: &TomlValue) -> (r: Option<String>)
    ensures
        opt_str_view(r) == dec_string(toml_view(*v)),
{
    match v {
        TomlValue::String(s) => Some(s.clone()),
        _ => None,
    }
}

fn dec_u32_exec(v: &TomlValue) -> (r: Option<u32>)
    ensures
        r == dec_u32(toml_view(*v)),
{
    match v {
        TomlValue::Integer(i) => if *i >= 0 && *i <= 4294967295 {
            Some(*i as u32)
        } else {
            None
        },
        _ => None,
    }
}

fn dec_bool_exec(v: &TomlValue) -> (r: Option<bool>)
    ensures
        r == dec_bool(toml_view(*v)),
{
    match v {
        TomlValue::Boolean(b) => Some(*b),
        _ => None,
    }
}

fn dec_strings_exec(v: &TomlValue) -> (r: Option<Vec<String>>)
    ensures
        opt_strings_view(r) == dec_strings(toml_view(*v)),
{
    match v {
        TomlValue::Array(a) => {
            let ghost av = match toml_view(*v) {
                TomlData::Array(x) => x,
                _ => Seq::empty(),
            };
            assert(av.len() == a@.len());
            let mut out: Vec<String> = Vec::new();
            let mut i: usize = 0;
            while i < a.len()
                invariant
                    toml_view(*v) == TomlData::Array(av),
                    av.len() == a@.len(),
                    forall|m: int| 0 <= m < a@.len() ==> av[m] == toml_view(#[trigger] a@[m]),
                    i <= a@.len(),
                    out@.len() == i,
                    forall|m: int| 0 <= m < i ==> (#[trigger] av[m]) is String && av[m]->String_0 == out@[m]@,
                decreases a@.len() - i,
            {
                match &a[i] {
                    TomlValue::String(s) => {
                        out.push(s.clone());
                    },
                    _ => {
                        assert(!(av[i as int] is String));
                        return None;
                    },
                }
                i = i + 1;
            }
            assert(strings_view(out@) =~= Seq::new(av.len(), |m: int| av[m]->String_0));
            Some(out)
        },
        _ => None,
    }
}

fn dec_fs_permission_exec(v: &TomlValue) -> (r: Option<FilesystemPermission>)
    ensures
        r == dec_fs_permission(toml_view(*v)),
{
    match v {
        TomlValue::String(s) => {
            proof {
                reveal_strlit("portal");
            }
            if str_eq(s.as_str(), "portal") {
                Some(FilesystemPermission::Portal)
            } else {
                None
            }
        },
        TomlValue::Table(t) => {
            if t.len() == 1 && str_eq(t[0].0.as_str(), "portal") {
                let ghost tv = match toml_view(*v) {
                    TomlData::Table(x) => x,
                    _ => Seq::empty(),
                };
                assert(tv[0] == (t@[0].0@, toml_view(t@[0].1)));
                match &t[0].1 {
                    TomlValue::Table(x) => if x.len() == 0 {
                        Some(FilesystemPermission::Portal)
                    } else {
                        None
                    },
                    TomlValue::Array(x) => if x.len() == 0 {
                        Some(FilesystemPermission::Portal)
                    } else {
                        None
                    },
                    _ => None,
                }
            } else {
                None
            }
        },
        _ => None,
    }
}

proof fn lemma_array_view(v: TomlValue)
    requires
        v is Array,
    ensures
        toml_view(v) is Array,
        toml_view(v)->Array_0.len() == v->Array_0@.len(),
        forall|i: int| 0 <= i < v->Array_0@.len() ==> toml_view(v)->Array_0[i] == toml_view(#[trigger] v->Array_0@[i]),
{
}

proof fn lemma_table_view(v: TomlValue)
    requires
        v is Table,
    ensures
        toml_view(v) == TomlData::Table(table_view(v->Table_0@)),
{
    assert(toml_view(v)->Table_0 =~= table_view(v->Table_0@));
}

fn opt_string_field(t: &Vec<(String, TomlValue)>, k: &str) -> (r: Option<Option<String>>)
    ensures
        match r {
            None => opt_field(table_view(t@), k@, |x: TomlData| dec_string(x)) is None,
            Some(o) => opt_field(table_view(t@), k@, |x: TomlData| dec_string(x)) == Some(opt_str_view(o)),
        },
{
    match lookup(t, k) {
        None => Some(None),
        Some(v) => match dec_string_exec(v) {
            Some(x) => Some(Some(x)),
            None => None,
        },
    }
}

fn req_string_field(t: &Vec<(String, TomlValue)>, k: &str) -> (r: Option<String>)
    ensures
        opt_str_view(r) == req_field(table_view(t@), k@, |x: TomlData| dec_string(x)),
{
    match lookup(t, k) {
        None => None,
        Some(v) => dec_string_exec(v),
    }
}

fn opt_u32_field(t: &Vec<(String, TomlValue)>, k: &str) -> (r: Option<Option<u32>>)
    ensures
        r == opt_field(table_view(t@), k@, |x: TomlData| dec_u32(x)),
{
    match lookup(t, k) {
        None => Some(None),
        Some(v) => match dec_u32_exec(v) {
            Some(x) => Some(Some(x)),
            None => None,
        },
    }
}

fn opt_bool_field(t: &Vec<(String, TomlValue)>, k: &str) -> (r: Option<Option<bool>>)
    ensures
        r == opt_field(table_view(t@), k@, |x: TomlData| dec_bool(x)),
{
    match lookup(t, k) {
        None => Some(None),
        Some(v) => match dec_bool_exec(v) {
            Some(x) => Some(Some(x)),
            None => None,
        },
    }
}

fn opt_strings_field(t: &Vec<(String, TomlValue)>, k: &str) -> (r: Option<Option<Vec<String>>>)
    ensures
        match r {
            None => opt_field(table_view(t@), k@, |x: TomlData| dec_strings(x)) is None,
            Some(o) => opt_field(table_view(t@), k@, |x: TomlData| dec_strings(x)) == Some(opt_strings_view(o)),
        },
{
    match lookup(t, k) {
        None => Some(None),
        Some(v) => match dec_strings_exec(v) {
            Some(x) => Some(Some(x)),
            None => None,
        },
    }
}

fn opt_fs_permission_field(t: &Vec<(String, TomlValue)>, k: &str) -> (r: Option<Option<FilesystemPermission>>)
    ensures
        r == opt_field(table_view(t@), k@, |x: TomlData| dec_fs_permission(x)),
{
    match lookup(t, k) {
        None => Some(None),
        Some(v) => match dec_fs_permission_exec(v) {
            Some(x) => Some(Some(x)),
            None => None,
        },
    }
}

fn dec_app_exec(v: &TomlValue) -> (r: Option<AppSection>)
    ensures
        match r {
            Some(s) => dec_app(toml_view(*v)) == Some(s.view()),
            None => dec_app(toml_view(*v)) is None,
        },
{
    match v {
        TomlValue::Table(t) => {
            proof {
                lemma_table_view(*v);
            }
            let allowed: [&str; 3] = ["name", "version", "description"];
            assert(allowed@ =~= seq!["name", "version", "description"]);
            if !keys_within_exec(t, &allowed) {
                return None;
            }
            let n = req_string_field(t, "name");
            let ver = req_string_field(t, "version");
            let d = opt_string_field(t, "description");
            match (n, ver, d) {
                (Some(n), Some(ver), Some(d)) => Some(AppSection { name: n, version: ver, description: d }),
                _ => None,
            }
        },
        TomlValue::Array(a) => {
            proof {
                lemma_array_view(*v);
            }
            if a.len() < 3 {
                return None;
            }
            let n = dec_string_exec(&a[0]);
            let ver = dec_string_exec(&a[1]);
            let d = dec_string_exec(&a[2]);
            match (n, ver, d) {
                (Some(n), Some(ver), Some(d)) => Some(AppSection { name: n, version: ver, description: Some(d) }),
                _ => None,
            }
        },
        _ => None,
    }
}

fn dec_window_exec(v: &TomlValue) -> (r: Option<WindowSection>)
    ensures
        match r {
            Some(s) => dec_window(toml_view(*v)) == Some(s.view()),
            None => dec_window(toml_view(*v)) is None,
        },
{
    match v {
        TomlValue::Table(t) => {
            proof {
                lemma_table_view(*v);
            }
            let allowed: [&str; 5] = ["title", "width", "height", "resizable", "decorations"];
            assert(allowed@ =~= seq!["title", "width", "height", "resizable", "decorations"]);
            if !keys_within_exec(t, &allowed) {
                return None;
            }
            let a = opt_string_field(t, "title");
            let b = opt_u32_field(t, "width");
            let c = opt_u32_field(t, "height");
            let d = opt_bool_field(t, "resizable");
            let e = opt_bool_field(t, "decorations");
            match (a, b, c, d, e) {
                (Some(a), Some(b), Some(c), Some(d), Some(e)) => Some(
                    WindowSection { title: a, width: b, height: c, resizable: d, decorations: e },
                ),
                _ => None,
            }
        },
        TomlValue::Array(x) => {
            proof {
                lemma_array_view(*v);
            }
            if x.len() < 5 {
                return None;
            }
            let a = dec_string_exec(&x[0]);
            let b = dec_u32_exec(&x[1]);
            let c = dec_u32_exec(&x[2]);
            let d = dec_bool_exec(&x[3]);
            let e = dec_bool_exec(&x[4]);
            match (a, b, c, d, e) {
                (Some(a), Some(b), Some(c), Some(d), Some(e)) => Some(
                    WindowSection {
                        title: Some(a),
                        width: Some(b),
                        height: Some(c),
                        resizable: Some(d),
                        decorations: Some(e),
                    },
                ),
                _ => None,
            }
        },
        _ => None,
    }
}

fn dec_filesystem_exec(v: &TomlValue) -> (r: Option<FilesystemSection>)
    ensures
        match r {
            Some(s) => dec_filesystem(toml_view(*v)) == Some(s.view()),
            None => dec_filesystem(toml_view(*v)) is None,
        },
{
    match v {
        TomlValue::Table(t) => {
            proof {
                lemma_table_view(*v);
            }
            let allowed: [&str; 1] = ["user-files"];
            assert(allowed@ =~= seq!["user-files"]);
            if !keys_within_exec(t, &allowed) {
                return None;
            }
            match opt_fs_permission_field(t, "user-files") {
                Some(u) => Some(FilesystemSection { user_files: u }),
                None => None,
            }
        },
        TomlValue::Array(x) => {
            proof {
                lemma_array_view(*v);
            }
            if x.len() < 1 {
                return None;
            }
            match dec_fs_permission_exec(&x[0]) {
                Some(u) => Some(FilesystemSection { user_files: Some(u) }),
                None => None,
            }
        },
        _ => None,
    }
}

fn opt_filesystem_field(t: &Vec<(String, TomlValue)>, k: &str) -> (r: Option<Option<FilesystemSection>>)
    ensures
        match r {
            None => opt_field(table_view(t@), k@, |x: TomlData| dec_filesystem(x)) is None,
            Some(o) => opt_field(table_view(t@), k@, |x: TomlData| dec_filesystem(x)) == Some(
                match o {
                    Some(f) => Some(f.view()),
                    None => None,
                },
            ),
        },
{
    match lookup(t, k) {
        None => Some(None),
        Some(v) => match dec_filesystem_exec(v) {
            Some(x) => Some(Some(x)),
            None => None,
        },
    }
}

fn dec_permissions_exec(v: &TomlValue) -> (r: Option<PermissionsSection>)
    ensures
        match r {
            Some(s) => dec_permissions(toml_view(*v)) == Some(s.view()),
            None => dec_permissions(toml_view(*v)) is None,
        },
{
    match v {
        TomlValue::Table(t) => {
            proof {
                lemma_table_view(*v);
            }
            let allowed: [&str; 3] = ["network", "clipboard", "filesystem"];
            assert(allowed@ =~= seq!["network", "clipboard", "filesystem"]);
            if !keys_within_exec(t, &allowed) {
                return None;
            }
            let a = opt_strings_field(t, "network");
            let b = opt_strings_field(t, "clipboard");
            let c = opt_filesystem_field(t, "filesystem");
            match (a, b, c) {
                (Some(a), Some(b), Some(c)) => Some(PermissionsSection { network: a, clipboard: b, filesystem: c }),
                _ => None,
            }
        },
        TomlValue::Array(x) => {
            proof {
                lemma_array_view(*v);
            }
            if x.len() < 3 {
                return None;
            }
            let a = dec_strings_exec(&x[0]);
            let b = dec_strings_exec(&x[1]);
            let c = dec_filesystem_exec(&x[2]);
            match (a, b, c) {
                (Some(a), Some(b), Some(c)) => Some(
                    PermissionsSection { network: Some(a), clipboard: Some(b), filesystem: Some(c) },
                ),
                _ => None,
            }
        },
        _ => None,
    }
}

fn dec_build_exec(v: &TomlValue) -> (r: Option<BuildSection>)
    ensures
        match r {
            Some(s) => dec_build(toml_view(*v)) == Some(s.view()),
            None => dec_build(toml_view(*v)) is None,
        },
{
    match v {
        TomlValue::Table(t) => {
            proof {
                lemma_table_view(*v);
            }
            let allowed: [&str; 2] = ["frontend", "assets"];
            assert(allowed@ =~= seq!["frontend", "assets"]);
            if !keys_within_exec(t, &allowed) {
                return None;
            }
            let a = opt_string_field(t, "frontend");
            let b = opt_strings_field(t, "assets");
            match (a, b) {
                (Some(a), Some(b)) => Some(BuildSection { frontend: a, assets: b }),
                _ => None,
            }
        },
        TomlValue::Array(x) => {
            proof {
                lemma_array_view(*v);
            }
            if x.len() < 2 {
                return None;
            }
            let a = dec_string_exec(&x[0]);
            let b = dec_strings_exec(&x[1]);
            match (a, b) {
                (Some(a), Some(b)) => Some(BuildSection { frontend: Some(a), assets: Some(b) }),
                _ => None,
            }
        },
        _ => None,
    }
}

fn dec_manifest_exec(t: &Vec<(String, TomlValue)>) -> (r: Option<AppManifest>)
    ensures
        match r {
            Some(m) => dec_manifest(table_view(t@)) == Some(m.view()),
            None => dec_manifest(table_view(t@)) is None,
        },
{
    let allowed: [&str; 4] = ["app", "window", "permissions", "build"];
    assert(allowed@ =~= seq!["app", "window", "permissions", "build"]);
    if !keys_within_exec(t, &allowed) {
        return None;
    }
    let app = match lookup(t, "app") {
        None => None,
        Some(v) => dec_app_exec(v),
    };
    let window = match lookup(t, "window") {
        None => Some(None),
        Some(v) => match dec_window_exec(v) {
            Some(w) => Some(Some(w)),
            None => None,
        },
    };
    let permissions = match lookup(t, "permissions") {
        None => Some(None),
        Some(v) => match dec_permissions_exec(v) {
            Some(p) => Some(Some(p)),
            None => None,
        },
    };
    let build = match lookup(t, "build") {
        None => Some(None),
        Some(v) => match dec_build_exec(v) {
            Some(b) => Some(Some(b)),
            None => None,
        },
    };
    match (app, window, permissions, build) {
        (Some(app), Some(window), Some(permissions), Some(build)) => Some(
            AppManifest { app, window, permissions, build },
        ),
        _ => None,
    }
}

impl AppManifest {
    /// Reads a manifest from the text of an `app.toml`. Fails with
    /// [`ManifestError::Parse`] exactly when the text is not TOML (with the
    /// parser's message) or does not follow the manifest's schema.
    pub fn from_toml_str(text: &str) -> (r: Result<AppManifest, ManifestError>)
        ensures
            manifest_outcome(r, text@),
    {
        match parse_toml(text) {
            Err(msg) => Err(ManifestError::Parse(msg)),
            Ok(t) => match dec_manifest_exec(&t) {
                Some(m) => Ok(m),
                None => Err(ManifestError::Parse("the manifest does not follow the app.toml schema".to_string())),
            },
        }
    }

    /// Reads a manifest from the outcome of reading its file: a failed read
    /// becomes [`ManifestError::Io`] with the read's message; read text is
    /// taken as [`AppManifest::from_toml_str`] takes it.
    pub fn from_file(contents: Result<String, String>) -> (r: Result<AppManifest, ManifestError>)
        ensures
            match contents {
                Err(msg) => r matches Err(ManifestError::Io(m)) && m@ == msg@,
                Ok(text) => manifest_outcome(r, text@),
            },
    {
        match contents {
            Err(msg) => Err(ManifestError::Io(msg)),
            Ok(text) => AppManifest::from_toml_str(text.as_str()),
        }
    }

    /// Whether the manifest grants `feature`: `"network"` and `"clipboard"`
    /// when declared with at least one entry, `"filesystem"` when its
    /// section is present; any other feature never.
    pub fn has_permission(&self, feature: &str) -> (r: bool)
        ensures
            r == spec_has_permission(self.view(), feature@),
    {
        match &self.permissions {
            None => false,
            Some(p) => {
                if str_eq(feature, "network") {
                    match &p.network {
                        Some(v) => v.len() > 0,
                        None => false,
                    }
                } else if str_eq(feature, "clipboard") {
                    match &p.clipboard {
                        Some(v) => v.len() > 0,
                        None => false,
                    }
                } else if str_eq(feature, "filesystem") {
                    p.filesystem.is_some()
                } else {
                    false
                }
            },
        }
    }
}

/// Deny by default: a manifest without a `[permissions]` section grants
/// no feature at all.
pub proof fn lemma_no_permissions_section_denies_all(m: AppManifestView, feature: Seq<char>)
    requires
        m.permissions is None,
    ensures
        !spec_has_permission(m, feature),
{
}

/// Only the three known features can ever be granted.
pub proof fn lemma_unknown_feature_denied(m: AppManifestView, feature: Seq<char>)
    requires
        feature != "network"@,
        feature != "clipboard"@,
        feature != "filesystem"@,
    ensures
        !spec_has_permission(m, feature),
{
}

/// A manifest rejects every top-level key other than `app`, `window`,
/// `permissions` and `build`.
pub proof fn lemma_unknown_top_level_key_rejected(t: Seq<(Seq<char>, TomlData)>, i: int)
    requires
        0 <= i < t.len(),
        t[i].0 != "app"@,
        t[i].0 != "window"@,
        t[i].0 != "permissions"@,
        t[i].0 != "build"@,
    ensures
        dec_manifest(t) is None,
{
    let allowed = seq!["app", "window", "permissions", "build"];
    if key_allowed(t[i].0, allowed) {
        let j = choose|j: int| 0 <= j < allowed.len() && (#[trigger] allowed[j])@ == t[i].0;
        assert(j == 0 || j == 1 || j == 2 || j == 3);
    }
}

/// What each permission needs: the network and the clipboard are granted by
/// a `[permissions]` entry listing at least one item, the file system by a
/// `filesystem` table in it.
pub proof fn lemma_permission_rules(m: AppManifestView)
    ensures
        spec_has_permission(m, "network"@) <==> (m.permissions matches Some(p) && (p.network matches Some(v)
            && v.len() > 0)),
        spec_has_permission(m, "clipboard"@) <==> (m.permissions matches Some(p) && (p.clipboard matches Some(v)
            && v.len() > 0)),
        spec_has_permission(m, "filesystem"@) <==> (m.permissions matches Some(p) && p.filesystem is Some),
{
    reveal_strlit("network");
    reveal_strlit("clipboard");
    reveal_strlit("filesystem");
    assert("network"@.len() != "clipboard"@.len());
    assert("network"@.len() != "filesystem"@.len());
    assert("clipboard"@.len() != "filesystem"@.len());
}

} // verus!
