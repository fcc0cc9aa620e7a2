//! File access confined to one root directory. What is on disk (canonical
//! forms of paths, resolved symbolic links) is looked up by the caller and
//! handed in as a [`PathProbe`]; this module decides, from the requested
//! path and that probe, which canonical path may be touched, if any.
use vstd::prelude::*;
use crate::path::{path_join, path_starts_with, path_file_name, join, starts_with, file_name};

verus! {

/// Why a path was refused.
pub enum FsError {
    /// The path lies outside the root; it holds the path as requested.
    OutOfScope(String),
    /// An I/O failure, with its message.
    Io(String),
}

/// The model of an [`FsError`].
pub enum FsErrorView {
    OutOfScope(Seq<char>),
    Io(Seq<char>),
}

impl FsError {
    pub open spec fn view(&self) -> FsErrorView {
        match self {
            FsError::OutOfScope(p) => FsErrorView::OutOfScope(p@),
            FsError::Io(m) => FsErrorView::Io(m@),
        }
    }

    /// The message of the error: an out-of-scope path is named; an I/O
    /// failure is its own message.
    pub fn message(&self) -> (r: String)
        ensures
            match self {
                FsError::OutOfScope(p) => r@ == "path is outside the allowed scope: "@ + p@,
                FsError::Io(m) => r@ == m@,
            },
    {
        match self {
            FsError::OutOfScope(p) => crate::text::concat("path is outside the allowed scope: ", p.as_str()),
            FsError::Io(m) => m.clone(),
        }
    }
}

/// What the file system says about a requested path: the canonical form of
/// the candidate path (when it exists), whether the candidate itself is a
/// symbolic link (whether or not its target exists), the canonical form of
/// the root (or the error that canonicalizing it gave), and the canonical
/// form of the candidate's parent directory (when it has one and it exists).
pub struct PathProbe {
    pub canonical_candidate: Option<String>,
    pub candidate_is_link: bool,
    pub canonical_root: Result<String, String>,
    pub canonical_parent: Option<String>,
}

/// The model of a [`PathProbe`].
pub struct PathProbeView {
    pub candidate: Option<Seq<char>>,
    pub is_link: bool,
    pub root: Result<Seq<char>, Seq<char>>,
    pub parent: Option<Seq<char>>,
}

impl PathProbe {
    pub open spec fn view(&self) -> PathProbeView {
        PathProbeView {
            candidate: match self.canonical_candidate {
                Some(c) => Some(c@),
                None => None,
            },
            is_link: self.candidate_is_link,
            root: match self.canonical_root {
                Ok(r) => Ok(r@),
                Err(e) => Err(e@),
            },
            parent: match self.canonical_parent {
                Some(p) => Some(p@),
                None => None,
            },
        }
    }
}

/// The path that a request names: relative paths are taken from the root,
/// absolute ones stand as they are.
pub open spec fn spec_candidate(root: Seq<char>, path: Seq<char>) -> Seq<char> {
    path_join(root, path)
}

/// The decision on a requested path.
///
/// When the candidate exists, its canonical form is accepted if it lies
/// under the canonical root. When it does not (a file about to be written),
/// it is refused if it is a symbolic link (a dangling link could lead
/// anywhere); otherwise its parent's canonical form joined with its file
/// name is accepted if that lies under the canonical root. Everything else
/// is out of scope; a root that cannot be canonicalized is an I/O error
/// where it is consulted.
pub open spec fn spec_validate(root: Seq<char>, path: Seq<char>, probe: PathProbeView) -> Result<
    Seq<char>,
    FsErrorView,
> {
    match probe.candidate {
        Some(c) => match probe.root {
            Err(e) => Err(FsErrorView::Io(e)),
            Ok(r) => if path_starts_with(c, r) {
                Ok(c)
            } else {
                Err(FsErrorView::OutOfScope(path))
            },
        },
        None => if probe.is_link {
            Err(FsErrorView::OutOfScope(path))
        } else {
            match probe.parent {
                None => Err(FsErrorView::OutOfScope(path)),
                Some(par) => match probe.root {
                    Err(e) => Err(FsErrorView::Io(e)),
                    Ok(r) => match path_file_name(spec_candidate(root, path)) {
                        None => Err(FsErrorView::OutOfScope(path)),
                        Some(f) => {
                            let full = path_join(par, f);
                            if path_starts_with(full, r) {
                                Ok(full)
                            } else {
                                Err(FsErrorView::OutOfScope(path))
                            }
                        },
                    },
                },
            }
        },
    }
}

/// File access rooted at one directory.
pub struct ScopedFs {
    root: String,
}

impl ScopedFs {
    pub closed spec fn view(&self) -> Seq<char> {
        self.root@
    }

    /// File access rooted at `root`.
    pub fn new_with_root(root: String) -> (r: ScopedFs)
        ensures
            r.view() == root@,
    {
        ScopedFs { root }
    }

    /// The root directory.
    pub fn root(&self) -> (r: &str)
        ensures
            r@ == self.view(),
    {
        self.root.as_str()
    }

    /// The path that a request names: `path` itself when absolute, else
    /// `path` under the root.
    pub fn candidate_path(&self, path: &str) -> (r: String)
        ensures
            r@ == spec_candidate(self.view(), path@),
    {
        join(self.root.as_str(), path)
    }

    /// Decides whether `path` may be touched, given what the file system
    /// says about it; on success, the canonical path to use.
    pub fn validate_path(&self, path: &str, probe: &PathProbe) -> (r: Result<String, FsError>)
        ensures
            match r {
                Ok(p) => spec_validate(self.view(), path@, probe.view()) == Ok::<Seq<char>, FsErrorView>(p@),
                Err(e) => spec_validate(self.view(), path@, probe.view()) == Err::<Seq<char>, FsErrorView>(e.view()),
            },
            r matches Ok(p) ==> probe.view().root matches Ok(root) && path_starts_with(p@, root),
    {
        match &probe.canonical_candidate {
            Some(c) => match &probe.canonical_root {
                Err(e) => Err(FsError::Io(e.clone())),
                Ok(root) => if starts_with(c.as_str(), root.as_str()) {
                    Ok(c.clone())
                } else {
                    Err(FsError::OutOfScope(path.to_owned()))
                },
            },
            None => if probe.candidate_is_link {
                Err(FsError::OutOfScope(path.to_owned()))
            } else {
                match &probe.canonical_parent {
                    None => Err(FsError::OutOfScope(path.to_owned())),
                    Some(par) => match &probe.canonical_root {
                        Err(e) => Err(FsError::Io(e.clone())),
                        Ok(root) => {
                            let candidate = self.candidate_path(path);
                            match file_name(candidate.as_str()) {
                                None => Err(FsError::OutOfScope(path.to_owned())),
                                Some(f) => {
                                    let full = join(par.as_str(), f.as_str());
                                    if starts_with(full.as_str(), root.as_str()) {
                                        Ok(full)
                                    } else {
                                        Err(FsError::OutOfScope(path.to_owned()))
                                    }
                                },
                            }
                        },
                    },
                }
            },
        }
    }
}

/// The sandbox holds: whatever the file system reports, a path that the
/// scoped file access accepts lies under the canonical root.
pub proof fn lemma_validated_path_within_root(root: Seq<char>, path: Seq<char>, probe: PathProbeView)
    requires
        spec_validate(root, path, probe) is Ok,
    ensures
        probe.root is Ok,
        path_starts_with(spec_validate(root, path, probe)->Ok_0, probe.root->Ok_0),
{
}

/// A missing target behind a symbolic link is never accepted: writing
/// through a dangling link cannot create a file outside the root.
pub proof fn lemma_dangling_link_refused(root: Seq<char>, path: Seq<char>, probe: PathProbeView)
    requires
        probe.candidate is None,
        probe.is_link,
    ensures
        spec_validate(root, path, probe) is Err,
{
}

/// A root that cannot be canonicalized never lets a path through.
pub proof fn lemma_unreadable_root_refuses(root: Seq<char>, path: Seq<char>, probe: PathProbeView)
    requires
        probe.root is Err,
    ensures
        spec_validate(root, path, probe) is Err,
{
}

} // verus!
