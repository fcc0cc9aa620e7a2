//! The app-private directories (data, configuration, cache) and the test
//! of whether a path lies inside them.
use vstd::prelude::*;
use crate::path::{path_join, path_starts_with, path_within, normalized, join, lexically_within};

verus! {

/// The three directories of an app, by their paths.
pub struct AppScopeView {
    pub data: Seq<char>,
    pub config: Seq<char>,
    pub cache: Seq<char>,
}

/// Which of the platform's base directories a directory is.
#[derive(PartialEq, Eq, Structural, Clone, Copy, Debug)]
pub enum DirKind {
    Data,
    Config,
    Cache,
}

/// A base directory as the platform reports it (`None` when it names
/// none), with which of the platform's directories it is.
pub struct PlatformDir {
    pub path: Option<String>,
    pub kind: Ghost<DirKind>,
}

/// The platform base directories that a scope was made from, each with
/// which of the platform's directories it is.
pub struct ScopeOrigin {
    pub data: (DirKind, Option<Seq<char>>),
    pub config: (DirKind, Option<Seq<char>>),
    pub cache: (DirKind, Option<Seq<char>>),
}

/// The app-private directories: `<data>/<app>`, `<config>/<app>` and `<cache>/<app>`.
pub struct AppScope {
    data_dir: String,
    config_dir: String,
    cache_dir: String,
    origin: Ghost<Option<ScopeOrigin>>,
}

/// Where the data directory goes when the platform names none.
pub open spec fn fallback_data_base() -> Seq<char> {
    seq!['~', '/', '.', 'l', 'o', 'c', 'a', 'l', '/', 's', 'h', 'a', 'r', 'e']
}

/// Where the configuration directory goes when the platform names none.
pub open spec fn fallback_config_base() -> Seq<char> {
    seq!['~', '/', '.', 'c', 'o', 'n', 'f', 'i', 'g']
}

/// Where the cache directory goes when the platform names none.
pub open spec fn fallback_cache_base() -> Seq<char> {
    seq!['~', '/', '.', 'c', 'a', 'c', 'h', 'e']
}

/// The base directory chosen: the platform's when there is one, else the fallback.
pub open spec fn base_or(platform: Option<Seq<char>>, fallback: Seq<char>) -> Seq<char> {
    match platform {
        Some(b) => b,
        None => fallback,
    }
}

/// A path lies in the scope when, with `.` and `..` resolved, one of the
/// three directories is a component-wise prefix of where it leads. A path
/// whose `..` climbs above the root lies nowhere.
pub open spec fn spec_within_scope(scope: AppScopeView, p: Seq<char>) -> bool {
    path_within(p, scope.data) || path_within(p, scope.config) || path_within(p, scope.cache)
}

/// The platform's data directory (`dirs::data_dir`), as text, marked as the
/// data directory. Where it is depends on the platform and the environment,
/// so nothing is claimed of the path.
#[verifier::external_body]
fn platform_data_dir() -> (r: PlatformDir)
    ensures
        r.kind@ == DirKind::Data,
{
    let path = match dirs::data_dir() {
        Some(p) => Some(p.to_string_lossy().into_owned()),
        None => None,
    };
    PlatformDir { path, kind: Ghost(DirKind::Data) }
}

/// The platform's configuration directory (`dirs::config_dir`), as text,
/// marked as the configuration directory. Where it is depends on the
/// platform and the environment, so nothing is claimed of the path.
#[verifier::external_body]
fn platform_config_dir() -> (r: PlatformDir)
    ensures
        r.kind@ == DirKind::Config,
{
    let path = match dirs::config_dir() {
        Some(p) => Some(p.to_string_lossy().into_owned()),
        None => None,
    };
    PlatformDir { path, kind: Ghost(DirKind::Config) }
}

/// The platform's cache directory (`dirs::cache_dir`), as text, marked as
/// the cache directory. Where it is depends on the platform and the
/// environment, so nothing is claimed of the path.
#[verifier::external_body]
fn platform_cache_dir() -> (r: PlatformDir)
    ensures
        r.kind@ == DirKind::Cache,
{
    let path = match dirs::cache_dir() {
        Some(p) => Some(p.to_string_lossy().into_owned()),
        None => None,
    };
    PlatformDir { path, kind: Ghost(DirKind::Cache) }
}

/// The text of a base directory, when there is one.
pub open spec fn base_view(path: Option<String>) -> Option<Seq<char>> {
    match path {
        Some(b) => Some(b@),
        None => None,
    }
}

fn fallback_or(platform: Option<String>, fallback: &str) -> (r: String)
    ensures
        r@ == base_or(
            match platform {
                Some(b) => Some(b@),
                None => None,
            },
            fallback@,
        ),
{
    match platform {
        Some(b) => b,
        None => fallback.to_owned(),
    }
}

impl AppScope {
    pub closed spec fn view(&self) -> AppScopeView {
        AppScopeView { data: self.data_dir@, config: self.config_dir@, cache: self.cache_dir@ }
    }

    /// The platform base directories the scope was made from, with which
    /// is which; `None` for a scope made from given base directories.
    pub closed spec fn origin(&self) -> Option<ScopeOrigin> {
        self.origin@
    }

    /// The scope of `app_name` under the given base directories; a missing
    /// base falls back to `~/.local/share`, `~/.config` or `~/.cache`.
    pub fn from_base_dirs(
        app_name: &str,
        data_base: Option<String>,
        config_base: Option<String>,
        cache_base: Option<String>,
    ) -> (r: AppScope)
        ensures
            r.view().data == path_join(
                base_or(
                    match data_base {
                        Some(b) => Some(b@),
                        None => None,
                    },
                    fallback_data_base(),
                ),
                app_name@,
            ),
            r.view().config == path_join(
                base_or(
                    match config_base {
                        Some(b) => Some(b@),
                        None => None,
                    },
                    fallback_config_base(),
                ),
                app_name@,
            ),
            r.view().cache == path_join(
                base_or(
                    match cache_base {
                        Some(b) => Some(b@),
                        None => None,
                    },
                    fallback_cache_base(),
                ),
                app_name@,
            ),
            r.origin() is None,
    {
        proof {
            reveal_strlit("~/.local/share");
            reveal_strlit("~/.config");
            reveal_strlit("~/.cache");
        }
        let d = fallback_or(data_base, "~/.local/share");
        let c = fallback_or(config_base, "~/.config");
        let k = fallback_or(cache_base, "~/.cache");
        assert("~/.local/share"@ =~= fallback_data_base());
        assert("~/.config"@ =~= fallback_config_base());
        assert("~/.cache"@ =~= fallback_cache_base());
        AppScope {
            data_dir: join(d.as_str(), app_name),
            config_dir: join(c.as_str(), app_name),
            cache_dir: join(k.as_str(), app_name),
            origin: Ghost(None),
        }
    }

    /// The scope of `app_name` under the platform's directories: the data
    /// directory is `app_name` joined onto the platform's data directory,
    /// the configuration directory onto its configuration directory and the
    /// cache directory onto its cache directory, each falling back to
    /// `~/.local/share`, `~/.config` or `~/.cache` where the platform names
    /// none. The bases read are recorded, each with which directory it is.
    pub fn new(app_name: &str) -> (r: AppScope)
        ensures
            exists|b: Seq<char>| r.view().data == path_join(b, app_name@),
            exists|b: Seq<char>| r.view().config == path_join(b, app_name@),
            exists|b: Seq<char>| r.view().cache == path_join(b, app_name@),
            r.origin() matches Some(o) && o.data.0 == DirKind::Data && o.config.0 == DirKind::Config
                && o.cache.0 == DirKind::Cache,
            r.view().data == path_join(base_or(r.origin()->Some_0.data.1, fallback_data_base()), app_name@),
            r.view().config == path_join(
                base_or(r.origin()->Some_0.config.1, fallback_config_base()),
                app_name@,
            ),
            r.view().cache == path_join(base_or(r.origin()->Some_0.cache.1, fallback_cache_base()), app_name@),
    {
        let d = platform_data_dir();
        let c = platform_config_dir();
        let k = platform_cache_dir();
        let ghost origin = ScopeOrigin {
            data: (d.kind@, base_view(d.path)),
            config: (c.kind@, base_view(c.path)),
            cache: (k.kind@, base_view(k.path)),
        };
        let s = Self::from_base_dirs(app_name, d.path, c.path, k.path);
        AppScope { origin: Ghost(Some(origin)), ..s }
    }

    /// The data directory.
    pub fn data_dir(&self) -> (r: &str)
        ensures
            r@ == self.view().data,
    {
        self.data_dir.as_str()
    }

    /// The configuration directory.
    pub fn config_dir(&self) -> (r: &str)
        ensures
            r@ == self.view().config,
    {
        self.config_dir.as_str()
    }

    /// The cache directory.
    pub fn cache_dir(&self) -> (r: &str)
        ensures
            r@ == self.view().cache,
    {
        self.cache_dir.as_str()
    }

    /// `true` when `path`, with `.` and `..` resolved, leads inside one of
    /// the three directories, comparing whole components.
    pub fn is_within_scope(&self, path: &str) -> (r: bool)
        ensures
            r == spec_within_scope(self.view(), path@),
    {
        lexically_within(path, self.data_dir.as_str()) || lexically_within(path, self.config_dir.as_str())
            || lexically_within(path, self.cache_dir.as_str())
    }
}

/// Where the platform names no directory, the data, configuration and
/// cache directories go under `~/.local/share`, `~/.config` and `~/.cache`.
pub proof fn lemma_fallback_bases()
    ensures
        fallback_data_base() == "~/.local/share"@,
        fallback_config_base() == "~/.config"@,
        fallback_cache_base() == "~/.cache"@,
{
    reveal_strlit("~/.local/share");
    reveal_strlit("~/.config");
    reveal_strlit("~/.cache");
    assert(fallback_data_base() =~= "~/.local/share"@);
    assert(fallback_config_base() =~= "~/.config"@);
    assert(fallback_cache_base() =~= "~/.cache"@);
}

/// Every path is a component-wise prefix of itself.
pub proof fn lemma_starts_with_self(p: Seq<char>)
    ensures
        path_starts_with(p, p),
{
    let c = crate::path::components(p);
    assert(c.subrange(0, c.len() as int) =~= c);
}

/// Each of the app's own directories lies inside its scope (when it does
/// not itself climb above its start).
pub proof fn lemma_own_dirs_within_scope(scope: AppScopeView)
    requires
        normalized(scope.data) is Some,
        normalized(scope.config) is Some,
        normalized(scope.cache) is Some,
    ensures
        spec_within_scope(scope, scope.data),
        spec_within_scope(scope, scope.config),
        spec_within_scope(scope, scope.cache),
{
    let d = normalized(scope.data)->Some_0;
    let c = normalized(scope.config)->Some_0;
    let k = normalized(scope.cache)->Some_0;
    assert(d.subrange(0, d.len() as int) =~= d);
    assert(c.subrange(0, c.len() as int) =~= c);
    assert(k.subrange(0, k.len() as int) =~= k);
}

/// A path is judged by where it leads: two paths that resolve alike are
/// both in the scope or both out of it.
pub proof fn lemma_scope_judges_where_a_path_leads(scope: AppScopeView, p: Seq<char>, q: Seq<char>)
    requires
        normalized(p) == normalized(q),
    ensures
        spec_within_scope(scope, p) == spec_within_scope(scope, q),
{
}

/// A path below a path in scope is in scope too: scope is closed under
/// descending into subdirectories (comparing where the paths lead).
pub proof fn lemma_scope_closed_downward(scope: AppScopeView, p: Seq<char>, q: Seq<char>)
    requires
        spec_within_scope(scope, p),
        normalized(q) is Some,
        normalized(p)->Some_0.len() <= normalized(q)->Some_0.len(),
        normalized(q)->Some_0.subrange(0, normalized(p)->Some_0.len() as int) == normalized(p)->Some_0,
    ensures
        spec_within_scope(scope, q),
{
    let np = normalized(p)->Some_0;
    let nq = normalized(q)->Some_0;
    assert forall|b: Seq<char>| path_within(p, b) implies path_within(q, b) by {
        let nb = normalized(b)->Some_0;
        assert(nq.subrange(0, nb.len() as int) =~= nb) by {
            assert forall|i: int| 0 <= i < nb.len() implies nq.subrange(0, nb.len() as int)[i] == nb[i] by {
                assert(np.subrange(0, nb.len() as int)[i] == nb[i]);
                assert(nq.subrange(0, np.len() as int)[i] == np[i]);
            }
        }
    }
}

/// Component-wise prefix is transitive.
pub proof fn lemma_starts_with_trans(a: Seq<char>, b: Seq<char>, c: Seq<char>)
    requires
        path_starts_with(a, b),
    ensures
        path_starts_with(b, c) ==> path_starts_with(a, c),
{
    let ca = crate::path::components(a);
    let cb = crate::path::components(b);
    let cc = crate::path::components(c);
    if path_starts_with(b, c) {
        assert(ca.subrange(0, cc.len() as int) =~= cc) by {
            assert forall|i: int| 0 <= i < cc.len() implies ca.subrange(0, cc.len() as int)[i] == cc[i] by {
                assert(ca.subrange(0, cb.len() as int)[i] == cb[i]);
                assert(cb.subrange(0, cc.len() as int)[i] == cc[i]);
            }
        }
    }
}

} // verus!
