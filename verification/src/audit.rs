//! The permission audit of a project: which features its manifest declares,
//! which its sources use, and the difference both ways.
use vstd::prelude::*;
use crate::manifest::{AppManifest, ManifestError, spec_has_permission, spec_manifest_message};
use crate::strset::{strs_view, sorted_unique, seq_minus, lemma_minus_contains, insert_sorted, minus};
use crate::text::{contains_seq, contains_str, concat};

verus! {

/// Why an audit could not run.
pub enum CheckError {
    /// The manifest could not be read.
    Manifest(ManifestError),
    /// A file could not be read; the I/O error's message.
    Io(String),
    /// The project has no `app.toml`.
    NoManifest,
}

impl CheckError {
    /// The message of the error.
    pub fn message(&self) -> (r: String)
        ensures
            match self {
                CheckError::Manifest(e) => r@ == "manifest error: "@ + spec_manifest_message(*e),
                CheckError::Io(m) => r@ == "io error: "@ + m@,
                CheckError::NoManifest => r@ == "no app.toml found"@,
            },
    {
        match self {
            CheckError::Manifest(e) => {
                let m = e.message();
                concat("manifest error: ", m.as_str())
            },
            CheckError::Io(m) => concat("io error: ", m.as_str()),
            CheckError::NoManifest => "no app.toml found".to_string(),
        }
    }
}

/// The features that the manifest declares and those that the sources use,
/// each as a strictly increasing list (a set in order).
pub struct CheckResult {
    pub declared: Vec<String>,
    pub used: Vec<String>,
}

/// Which source text reveals the use of which feature.
pub open spec fn spec_api_patterns() -> Seq<(&'static str, &'static str)> {
    seq![
        ("runtime_api::filesystem", "filesystem"),
        ("runtime_api::network", "network"),
        ("runtime_api::clipboard", "clipboard"),
        ("runtime_api::dialog", "filesystem"),
        ("runtime_api::shell", "shell"),
        ("ScopedFs", "filesystem"),
        ("NetworkApi", "network"),
        ("ClipboardApi", "clipboard"),
        ("DialogApi", "filesystem"),
        ("ShellApi", "shell"),
    ]
}

/// The features that the audit asks the manifest about.
pub open spec fn audited_feature(f: Seq<char>) -> bool {
    f == "network"@ || f == "filesystem"@ || f == "clipboard"@
}

/// A feature is used when some source contains some pattern that reveals it.
pub open spec fn spec_used(sources: Seq<String>, f: Seq<char>) -> bool {
    exists|i: int, j: int|
        0 <= i < sources.len() && 0 <= j < spec_api_patterns().len() && contains_seq(
            #[trigger] sources[i]@,
            (#[trigger] spec_api_patterns()[j]).0@,
        ) && spec_api_patterns()[j].1@ == f
}

/// The patterns, in order.
pub fn api_patterns() -> (r: Vec<(&'static str, &'static str)>)
    ensures
        r@ == spec_api_patterns(),
{
    let r = vec![
        ("runtime_api::filesystem", "filesystem"),
        ("runtime_api::network", "network"),
        ("runtime_api::clipboard", "clipboard"),
        ("runtime_api::dialog", "filesystem"),
        ("runtime_api::shell", "shell"),
        ("ScopedFs", "filesystem"),
        ("NetworkApi", "network"),
        ("ClipboardApi", "clipboard"),
        ("DialogApi", "filesystem"),
        ("ShellApi", "shell"),
    ];
    assert(r@ =~= spec_api_patterns());
    r
}

impl CheckResult {
    /// Audits a project: `declared` holds each of `network`, `filesystem`
    /// and `clipboard` that the manifest grants; `used` holds each feature
    /// that some source file reveals by containing one of the patterns.
    pub fn from_manifest_and_sources(manifest: &AppManifest, sources: &Vec<String>) -> (r: CheckResult)
        ensures
            sorted_unique(strs_view(r.declared@)),
            sorted_unique(strs_view(r.used@)),
            forall|f: Seq<char>|
                #[trigger] strs_view(r.declared@).contains(f) <==> (audited_feature(f) && spec_has_permission(
                    manifest.view(),
                    f,
                )),
            forall|f: Seq<char>| #[trigger] strs_view(r.used@).contains(f) <==> spec_used(sources@, f),
    {
        let mut declared: Vec<String> = Vec::new();
        assert(strs_view(declared@) =~= Seq::empty());
        let features: [&str; 3] = ["network", "filesystem", "clipboard"];
        assert(features@ =~= seq!["network", "filesystem", "clipboard"]);
        let mut k: usize = 0;
        while k < 3
            invariant
                features@ == seq!["network", "filesystem", "clipboard"],
                k <= 3,
                sorted_unique(strs_view(declared@)),
                forall|f: Seq<char>|
                    strs_view(declared@).contains(f) <==> (exists|m: int|
                        0 <= m < k && (#[trigger] features@[m])@ == f && spec_has_permission(manifest.view(), f)),
            decreases 3 - k,
        {
            if manifest.has_permission(features[k]) {
                insert_sorted(&mut declared, features[k].to_owned());
            }
            proof {
                assert forall|f: Seq<char>|
                    strs_view(declared@).contains(f) <==> (exists|m: int|
                        0 <= m < k + 1 && (#[trigger] features@[m])@ == f && spec_has_permission(
                            manifest.view(),
                            f,
                        )) by {
                    if exists|m: int|
                        0 <= m < k + 1 && (#[trigger] features@[m])@ == f && spec_has_permission(
                            manifest.view(),
                            f,
                        ) {
                        let m = choose|m: int|
                            0 <= m < k + 1 && (#[trigger] features@[m])@ == f && spec_has_permission(
                                manifest.view(),
                                f,
                            );
                        if m < k {
                        }
                    }
                }
            }
            k = k + 1;
        }
        assert forall|f: Seq<char>|
            strs_view(declared@).contains(f) <==> (audited_feature(f) && spec_has_permission(
                manifest.view(),
                f,
            )) by {
            if audited_feature(f) && spec_has_permission(manifest.view(), f) {
                if f == "network"@ {
                    assert(features@[0]@ == f);
                } else if f == "filesystem"@ {
                    assert(features@[1]@ == f);
                } else {
                    assert(features@[2]@ == f);
                }
            }
        }
        let patterns = api_patterns();
        let mut used: Vec<String> = Vec::new();
        assert(strs_view(used@) =~= Seq::empty());
        let mut i: usize = 0;
        while i < sources.len()
            invariant
                patterns@ == spec_api_patterns(),
                i <= sources@.len(),
                sorted_unique(strs_view(used@)),
                forall|f: Seq<char>|
                    strs_view(used@).contains(f) <==> (exists|a: int, b: int|
                        0 <= a < i && 0 <= b < spec_api_patterns().len() && contains_seq(
                            #[trigger] sources@[a]@,
                            (#[trigger] spec_api_patterns()[b]).0@,
                        ) && spec_api_patterns()[b].1@ == f),
            decreases sources@.len() - i,
        {
            let mut j: usize = 0;
            while j < patterns.len()
                invariant
                    patterns@ == spec_api_patterns(),
                    i < sources@.len(),
                    j <= patterns@.len(),
                    sorted_unique(strs_view(used@)),
                    forall|f: Seq<char>|
                        strs_view(used@).contains(f) <==> ((exists|a: int, b: int|
                            0 <= a < i && 0 <= b < spec_api_patterns().len() && contains_seq(
                                #[trigger] sources@[a]@,
                                (#[trigger] spec_api_patterns()[b]).0@,
                            ) && spec_api_patterns()[b].1@ == f) || (exists|b: int|
                            0 <= b < j && contains_seq(
                                sources@[i as int]@,
                                (#[trigger] spec_api_patterns()[b]).0@,
                            ) && spec_api_patterns()[b].1@ == f)),
                decreases patterns@.len() - j,
            {
                let (pattern, feature) = patterns[j];
                if contains_str(sources[i].as_str(), pattern) {
                    insert_sorted(&mut used, feature.to_owned());
                }
                proof {
                    assert(spec_api_patterns()[j as int] == (pattern, feature));
                    assert forall|f: Seq<char>|
                        strs_view(used@).contains(f) <==> ((exists|a: int, b: int|
                            0 <= a < i && 0 <= b < spec_api_patterns().len() && contains_seq(
                                #[trigger] sources@[a]@,
                                (#[trigger] spec_api_patterns()[b]).0@,
                            ) && spec_api_patterns()[b].1@ == f) || (exists|b: int|
                            0 <= b < j + 1 && contains_seq(
                                sources@[i as int]@,
                                (#[trigger] spec_api_patterns()[b]).0@,
                            ) && spec_api_patterns()[b].1@ == f)) by {
                        if exists|b: int|
                            0 <= b < j + 1 && contains_seq(
                                sources@[i as int]@,
                                (#[trigger] spec_api_patterns()[b]).0@,
                            ) && spec_api_patterns()[b].1@ == f {
                            let b = choose|b: int|
                                0 <= b < j + 1 && contains_seq(
                                    sources@[i as int]@,
                                    (#[trigger] spec_api_patterns()[b]).0@,
                                ) && spec_api_patterns()[b].1@ == f;
                            if b < j {
                            }
                        }
                    }
                }
                j = j + 1;
            }
            proof {
                assert forall|f: Seq<char>|
                    strs_view(used@).contains(f) <==> (exists|a: int, b: int|
                        0 <= a < i + 1 && 0 <= b < spec_api_patterns().len() && contains_seq(
                            #[trigger] sources@[a]@,
                            (#[trigger] spec_api_patterns()[b]).0@,
                        ) && spec_api_patterns()[b].1@ == f) by {
                    if exists|a: int, b: int|
                        0 <= a < i + 1 && 0 <= b < spec_api_patterns().len() && contains_seq(
                            #[trigger] sources@[a]@,
                            (#[trigger] spec_api_patterns()[b]).0@,
                        ) && spec_api_patterns()[b].1@ == f {
                        let (a, b) = choose|a: int, b: int|
                            0 <= a < i + 1 && 0 <= b < spec_api_patterns().len() && contains_seq(
                                #[trigger] sources@[a]@,
                                (#[trigger] spec_api_patterns()[b]).0@,
                            ) && spec_api_patterns()[b].1@ == f;
                        if a < i {
                        } else {
                            assert(0 <= b < patterns@.len());
                        }
                    }
                }
            }
            i = i + 1;
        }
        CheckResult { declared, used }
    }

    /// The declared features that no source uses, in order.
    pub fn over_permissioned(&self) -> (r: Vec<String>)
        ensures
            strs_view(r@) == seq_minus(strs_view(self.declared@), strs_view(self.used@)),
    {
        minus(&self.declared, &self.used)
    }

    /// The used features that the manifest does not declare, in order.
    pub fn under_permissioned(&self) -> (r: Vec<String>)
        ensures
            strs_view(r@) == seq_minus(strs_view(self.used@), strs_view(self.declared@)),
    {
        minus(&self.used, &self.declared)
    }

    /// The audit passes when every used feature is declared.
    pub fn is_ok(&self) -> (r: bool)
        ensures
            r <==> forall|f: Seq<char>|
                strs_view(self.used@).contains(f) ==> strs_view(self.declared@).contains(f),
    {
        let under = self.under_permissioned();
        let ghost u = strs_view(self.used@);
        let ghost d = strs_view(self.declared@);
        proof {
            if under.len() == 0 {
                assert forall|f: Seq<char>| u.contains(f) implies d.contains(f) by {
                    lemma_minus_contains(u, d, f);
                    assert(strs_view(under@).len() == 0);
                }
            } else {
                let f = strs_view(under@)[0];
                lemma_minus_contains(u, d, f);
                assert(strs_view(under@).contains(f));
            }
        }
        under.len() == 0
    }
}

/// The audit reports each feature exactly where it belongs: a declared
/// feature is reported as over-permissioned exactly when no source uses it,
/// and a used feature is reported as under-permissioned exactly when the
/// manifest does not declare it.
pub proof fn lemma_audit_partition(declared: Seq<Seq<char>>, used: Seq<Seq<char>>, f: Seq<char>)
    ensures
        seq_minus(declared, used).contains(f) <==> (declared.contains(f) && !used.contains(f)),
        seq_minus(used, declared).contains(f) <==> (used.contains(f) && !declared.contains(f)),
        !(seq_minus(declared, used).contains(f) && seq_minus(used, declared).contains(f)),
{
    lemma_minus_contains(declared, used, f);
    lemma_minus_contains(used, declared, f);
}


/// A project uses the file system exactly when one of its sources mentions
/// the filesystem or dialog module, `ScopedFs` or `DialogApi`.
pub proof fn lemma_filesystem_use(sources: Seq<String>)
    ensures
        spec_used(sources, "filesystem"@) <==> exists|i: int| 0 <= i < sources.len() && (contains_seq(sources[i]@, "runtime_api::filesystem"@) || contains_seq(sources[i]@, "runtime_api::dialog"@) || contains_seq(sources[i]@, "ScopedFs"@) || contains_seq(sources[i]@, "DialogApi"@)),
{
    if spec_used(sources, "filesystem"@) {
        let (i, j) = choose|i: int, j: int|
            0 <= i < sources.len() && 0 <= j < spec_api_patterns().len() && contains_seq(
                #[trigger] sources[i]@,
                (#[trigger] spec_api_patterns()[j]).0@,
            ) && spec_api_patterns()[j].1@ == "filesystem"@;
            if j == 0 {
                assert(spec_api_patterns()[0].0@ == "runtime_api::filesystem"@);
                assert(contains_seq(sources[i]@, "runtime_api::filesystem"@));
            } else if j == 1 {
                assert(spec_api_patterns()[1].1@ == "network"@);
                reveal_strlit("network");
                reveal_strlit("filesystem");
                assert("network"@.len() != "filesystem"@.len());
            } else if j == 2 {
                assert(spec_api_patterns()[2].1@ == "clipboard"@);
                reveal_strlit("clipboard");
                reveal_strlit("filesystem");
                assert("clipboard"@.len() != "filesystem"@.len());
            } else if j == 3 {
                assert(spec_api_patterns()[3].0@ == "runtime_api::dialog"@);
                assert(contains_seq(sources[i]@, "runtime_api::dialog"@));
            } else if j == 4 {
                assert(spec_api_patterns()[4].1@ == "shell"@);
                reveal_strlit("shell");
                reveal_strlit("filesystem");
                assert("shell"@.len() != "filesystem"@.len());
            } else if j == 5 {
                assert(spec_api_patterns()[5].0@ == "ScopedFs"@);
                assert(contains_seq(sources[i]@, "ScopedFs"@));
            } else if j == 6 {
                assert(spec_api_patterns()[6].1@ == "network"@);
                reveal_strlit("network");
                reveal_strlit("filesystem");
                assert("network"@.len() != "filesystem"@.len());
            } else if j == 7 {
                assert(spec_api_patterns()[7].1@ == "clipboard"@);
                reveal_strlit("clipboard");
                reveal_strlit("filesystem");
                assert("clipboard"@.len() != "filesystem"@.len());
            } else if j == 8 {
                assert(spec_api_patterns()[8].0@ == "DialogApi"@);
                assert(contains_seq(sources[i]@, "DialogApi"@));
            } else if j == 9 {
                assert(spec_api_patterns()[9].1@ == "shell"@);
                reveal_strlit("shell");
                reveal_strlit("filesystem");
                assert("shell"@.len() != "filesystem"@.len());
            }
    }
    if exists|i: int| 0 <= i < sources.len() && (contains_seq(sources[i]@, "runtime_api::filesystem"@) || contains_seq(sources[i]@, "runtime_api::dialog"@) || contains_seq(sources[i]@, "ScopedFs"@) || contains_seq(sources[i]@, "DialogApi"@)) {
        let i = choose|i: int| 0 <= i < sources.len() && (contains_seq(sources[i]@, "runtime_api::filesystem"@) || contains_seq(sources[i]@, "runtime_api::dialog"@) || contains_seq(sources[i]@, "ScopedFs"@) || contains_seq(sources[i]@, "DialogApi"@));
            if contains_seq(sources[i]@, "runtime_api::filesystem"@) {
                assert(spec_api_patterns()[0].0@ == "runtime_api::filesystem"@ && spec_api_patterns()[0].1@ == "filesystem"@);
                assert(contains_seq(sources[i]@, spec_api_patterns()[0].0@));
            } else if contains_seq(sources[i]@, "runtime_api::dialog"@) {
                assert(spec_api_patterns()[3].0@ == "runtime_api::dialog"@ && spec_api_patterns()[3].1@ == "filesystem"@);
                assert(contains_seq(sources[i]@, spec_api_patterns()[3].0@));
            } else if contains_seq(sources[i]@, "ScopedFs"@) {
                assert(spec_api_patterns()[5].0@ == "ScopedFs"@ && spec_api_patterns()[5].1@ == "filesystem"@);
                assert(contains_seq(sources[i]@, spec_api_patterns()[5].0@));
            } else if contains_seq(sources[i]@, "DialogApi"@) {
                assert(spec_api_patterns()[8].0@ == "DialogApi"@ && spec_api_patterns()[8].1@ == "filesystem"@);
                assert(contains_seq(sources[i]@, spec_api_patterns()[8].0@));
            }
    }
}

/// A project uses the network exactly when one of its sources mentions the
/// network module or `NetworkApi`.
pub proof fn lemma_network_use(sources: Seq<String>)
    ensures
        spec_used(sources, "network"@) <==> exists|i: int| 0 <= i < sources.len() && (contains_seq(sources[i]@, "runtime_api::network"@) || contains_seq(sources[i]@, "NetworkApi"@)),
{
    if spec_used(sources, "network"@) {
        let (i, j) = choose|i: int, j: int|
            0 <= i < sources.len() && 0 <= j < spec_api_patterns().len() && contains_seq(
                #[trigger] sources[i]@,
                (#[trigger] spec_api_patterns()[j]).0@,
            ) && spec_api_patterns()[j].1@ == "network"@;
            if j == 0 {
                assert(spec_api_patterns()[0].1@ == "filesystem"@);
                reveal_strlit("filesystem");
                reveal_strlit("network");
                assert("filesystem"@.len() != "network"@.len());
            } else if j == 1 {
                assert(spec_api_patterns()[1].0@ == "runtime_api::network"@);
                assert(contains_seq(sources[i]@, "runtime_api::network"@));
            } else if j == 2 {
                assert(spec_api_patterns()[2].1@ == "clipboard"@);
                reveal_strlit("clipboard");
                reveal_strlit("network");
                assert("clipboard"@.len() != "network"@.len());
            } else if j == 3 {
                assert(spec_api_patterns()[3].1@ == "filesystem"@);
                reveal_strlit("filesystem");
                reveal_strlit("network");
                assert("filesystem"@.len() != "network"@.len());
            } else if j == 4 {
                assert(spec_api_patterns()[4].1@ == "shell"@);
                reveal_strlit("shell");
                reveal_strlit("network");
                assert("shell"@.len() != "network"@.len());
            } else if j == 5 {
                assert(spec_api_patterns()[5].1@ == "filesystem"@);
                reveal_strlit("filesystem");
                reveal_strlit("network");
                assert("filesystem"@.len() != "network"@.len());
            } else if j == 6 {
                assert(spec_api_patterns()[6].0@ == "NetworkApi"@);
                assert(contains_seq(sources[i]@, "NetworkApi"@));
            } else if j == 7 {
                assert(spec_api_patterns()[7].1@ == "clipboard"@);
                reveal_strlit("clipboard");
                reveal_strlit("network");
                assert("clipboard"@.len() != "network"@.len());
            } else if j == 8 {
                assert(spec_api_patterns()[8].1@ == "filesystem"@);
                reveal_strlit("filesystem");
                reveal_strlit("network");
                assert("filesystem"@.len() != "network"@.len());
            } else if j == 9 {
                assert(spec_api_patterns()[9].1@ == "shell"@);
                reveal_strlit("shell");
                reveal_strlit("network");
                assert("shell"@.len() != "network"@.len());
            }
    }
    if exists|i: int| 0 <= i < sources.len() && (contains_seq(sources[i]@, "runtime_api::network"@) || contains_seq(sources[i]@, "NetworkApi"@)) {
        let i = choose|i: int| 0 <= i < sources.len() && (contains_seq(sources[i]@, "runtime_api::network"@) || contains_seq(sources[i]@, "NetworkApi"@));
            if contains_seq(sources[i]@, "runtime_api::network"@) {
                assert(spec_api_patterns()[1].0@ == "runtime_api::network"@ && spec_api_patterns()[1].1@ == "network"@);
                assert(contains_seq(sources[i]@, spec_api_patterns()[1].0@));
            } else if contains_seq(sources[i]@, "NetworkApi"@) {
                assert(spec_api_patterns()[6].0@ == "NetworkApi"@ && spec_api_patterns()[6].1@ == "network"@);
                assert(contains_seq(sources[i]@, spec_api_patterns()[6].0@));
            }
    }
}

/// A project uses the clipboard exactly when one of its sources mentions the
/// clipboard module or `ClipboardApi`.
pub proof fn lemma_clipboard_use(sources: Seq<String>)
    ensures
        spec_used(sources, "clipboard"@) <==> exists|i: int| 0 <= i < sources.len() && (contains_seq(sources[i]@, "runtime_api::clipboard"@) || contains_seq(sources[i]@, "ClipboardApi"@)),
{
    if spec_used(sources, "clipboard"@) {
        let (i, j) = choose|i: int, j: int|
            0 <= i < sources.len() && 0 <= j < spec_api_patterns().len() && contains_seq(
                #[trigger] sources[i]@,
                (#[trigger] spec_api_patterns()[j]).0@,
            ) && spec_api_patterns()[j].1@ == "clipboard"@;
            if j == 0 {
                assert(spec_api_patterns()[0].1@ == "filesystem"@);
                reveal_strlit("filesystem");
                reveal_strlit("clipboard");
                assert("filesystem"@.len() != "clipboard"@.len());
            } else if j == 1 {
                assert(spec_api_patterns()[1].1@ == "network"@);
                reveal_strlit("network");
                reveal_strlit("clipboard");
                assert("network"@.len() != "clipboard"@.len());
            } else if j == 2 {
                assert(spec_api_patterns()[2].0@ == "runtime_api::clipboard"@);
                assert(contains_seq(sources[i]@, "runtime_api::clipboard"@));
            } else if j == 3 {
                assert(spec_api_patterns()[3].1@ == "filesystem"@);
                reveal_strlit("filesystem");
                reveal_strlit("clipboard");
                assert("filesystem"@.len() != "clipboard"@.len());
            } else if j == 4 {
                assert(spec_api_patterns()[4].1@ == "shell"@);
                reveal_strlit("shell");
                reveal_strlit("clipboard");
                assert("shell"@.len() != "clipboard"@.len());
            } else if j == 5 {
                assert(spec_api_patterns()[5].1@ == "filesystem"@);
                reveal_strlit("filesystem");
                reveal_strlit("clipboard");
                assert("filesystem"@.len() != "clipboard"@.len());
            } else if j == 6 {
                assert(spec_api_patterns()[6].1@ == "network"@);
                reveal_strlit("network");
                reveal_strlit("clipboard");
                assert("network"@.len() != "clipboard"@.len());
            } else if j == 7 {
                assert(spec_api_patterns()[7].0@ == "ClipboardApi"@);
                assert(contains_seq(sources[i]@, "ClipboardApi"@));
            } else if j == 8 {
                assert(spec_api_patterns()[8].1@ == "filesystem"@);
                reveal_strlit("filesystem");
                reveal_strlit("clipboard");
                assert("filesystem"@.len() != "clipboard"@.len());
            } else if j == 9 {
                assert(spec_api_patterns()[9].1@ == "shell"@);
                reveal_strlit("shell");
                reveal_strlit("clipboard");
                assert("shell"@.len() != "clipboard"@.len());
            }
    }
    if exists|i: int| 0 <= i < sources.len() && (contains_seq(sources[i]@, "runtime_api::clipboard"@) || contains_seq(sources[i]@, "ClipboardApi"@)) {
        let i = choose|i: int| 0 <= i < sources.len() && (contains_seq(sources[i]@, "runtime_api::clipboard"@) || contains_seq(sources[i]@, "ClipboardApi"@));
            if contains_seq(sources[i]@, "runtime_api::clipboard"@) {
                assert(spec_api_patterns()[2].0@ == "runtime_api::clipboard"@ && spec_api_patterns()[2].1@ == "clipboard"@);
                assert(contains_seq(sources[i]@, spec_api_patterns()[2].0@));
            } else if contains_seq(sources[i]@, "ClipboardApi"@) {
                assert(spec_api_patterns()[7].0@ == "ClipboardApi"@ && spec_api_patterns()[7].1@ == "clipboard"@);
                assert(contains_seq(sources[i]@, spec_api_patterns()[7].0@));
            }
    }
}

/// A project uses the shell exactly when one of its sources mentions the
/// shell module or `ShellApi`.
pub proof fn lemma_shell_use(sources: Seq<String>)
    ensures
        spec_used(sources, "shell"@) <==> exists|i: int| 0 <= i < sources.len() && (contains_seq(sources[i]@, "runtime_api::shell"@) || contains_seq(sources[i]@, "ShellApi"@)),
{
    if spec_used(sources, "shell"@) {
        let (i, j) = choose|i: int, j: int|
            0 <= i < sources.len() && 0 <= j < spec_api_patterns().len() && contains_seq(
                #[trigger] sources[i]@,
                (#[trigger] spec_api_patterns()[j]).0@,
            ) && spec_api_patterns()[j].1@ == "shell"@;
            if j == 0 {
                assert(spec_api_patterns()[0].1@ == "filesystem"@);
                reveal_strlit("filesystem");
                reveal_strlit("shell");
                assert("filesystem"@.len() != "shell"@.len());
            } else if j == 1 {
                assert(spec_api_patterns()[1].1@ == "network"@);
                reveal_strlit("network");
                reveal_strlit("shell");
                assert("network"@.len() != "shell"@.len());
            } else if j == 2 {
                assert(spec_api_patterns()[2].1@ == "clipboard"@);
                reveal_strlit("clipboard");
                reveal_strlit("shell");
                assert("clipboard"@.len() != "shell"@.len());
            } else if j == 3 {
                assert(spec_api_patterns()[3].1@ == "filesystem"@);
                reveal_strlit("filesystem");
                reveal_strlit("shell");
                assert("filesystem"@.len() != "shell"@.len());
            } else if j == 4 {
                assert(spec_api_patterns()[4].0@ == "runtime_api::shell"@);
                assert(contains_seq(sources[i]@, "runtime_api::shell"@));
            } else if j == 5 {
                assert(spec_api_patterns()[5].1@ == "filesystem"@);
                reveal_strlit("filesystem");
                reveal_strlit("shell");
                assert("filesystem"@.len() != "shell"@.len());
            } else if j == 6 {
                assert(spec_api_patterns()[6].1@ == "network"@);
                reveal_strlit("network");
                reveal_strlit("shell");
                assert("network"@.len() != "shell"@.len());
            } else if j == 7 {
                assert(spec_api_patterns()[7].1@ == "clipboard"@);
                reveal_strlit("clipboard");
                reveal_strlit("shell");
                assert("clipboard"@.len() != "shell"@.len());
            } else if j == 8 {
                assert(spec_api_patterns()[8].1@ == "filesystem"@);
                reveal_strlit("filesystem");
                reveal_strlit("shell");
                assert("filesystem"@.len() != "shell"@.len());
            } else if j == 9 {
                assert(spec_api_patterns()[9].0@ == "ShellApi"@);
                assert(contains_seq(sources[i]@, "ShellApi"@));
            }
    }
    if exists|i: int| 0 <= i < sources.len() && (contains_seq(sources[i]@, "runtime_api::shell"@) || contains_seq(sources[i]@, "ShellApi"@)) {
        let i = choose|i: int| 0 <= i < sources.len() && (contains_seq(sources[i]@, "runtime_api::shell"@) || contains_seq(sources[i]@, "ShellApi"@));
            if contains_seq(sources[i]@, "runtime_api::shell"@) {
                assert(spec_api_patterns()[4].0@ == "runtime_api::shell"@ && spec_api_patterns()[4].1@ == "shell"@);
                assert(contains_seq(sources[i]@, spec_api_patterns()[4].0@));
            } else if contains_seq(sources[i]@, "ShellApi"@) {
                assert(spec_api_patterns()[9].0@ == "ShellApi"@ && spec_api_patterns()[9].1@ == "shell"@);
                assert(contains_seq(sources[i]@, spec_api_patterns()[9].0@));
            }
    }
}

/// No source reveals any feature but the file system, the network, the
/// clipboard and the shell.
pub proof fn lemma_only_known_features_used(sources: Seq<String>, f: Seq<char>)
    requires
        f != "filesystem"@,
        f != "network"@,
        f != "clipboard"@,
        f != "shell"@,
    ensures
        !spec_used(sources, f),
{
    if spec_used(sources, f) {
        let (i, j) = choose|i: int, j: int|
            0 <= i < sources.len() && 0 <= j < spec_api_patterns().len() && contains_seq(
                #[trigger] sources[i]@,
                (#[trigger] spec_api_patterns()[j]).0@,
            ) && spec_api_patterns()[j].1@ == f;
        if j == 0 {
            assert(spec_api_patterns()[0].1@ == "filesystem"@);
        } else if j == 1 {
            assert(spec_api_patterns()[1].1@ == "network"@);
        } else if j == 2 {
            assert(spec_api_patterns()[2].1@ == "clipboard"@);
        } else if j == 3 {
            assert(spec_api_patterns()[3].1@ == "filesystem"@);
        } else if j == 4 {
            assert(spec_api_patterns()[4].1@ == "shell"@);
        } else if j == 5 {
            assert(spec_api_patterns()[5].1@ == "filesystem"@);
        } else if j == 6 {
            assert(spec_api_patterns()[6].1@ == "network"@);
        } else if j == 7 {
            assert(spec_api_patterns()[7].1@ == "clipboard"@);
        } else if j == 8 {
            assert(spec_api_patterns()[8].1@ == "filesystem"@);
        } else if j == 9 {
            assert(spec_api_patterns()[9].1@ == "shell"@);
        }
    }
}

/// The audit reads the network, file-system and clipboard declarations of
/// the manifest, and no other: a feature counts as declared exactly when it
/// is one of these three and the manifest grants it.
pub proof fn lemma_declared_features(m: crate::manifest::AppManifestView, f: Seq<char>)
    ensures
        (audited_feature(f) && spec_has_permission(m, f)) <==> ((f == "network"@ || f == "filesystem"@
            || f == "clipboard"@) && spec_has_permission(m, f)),
{
}

} // verus!
