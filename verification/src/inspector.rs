//! Read-only project inspection: the project's display name, its engine
//! version from the line-oriented settings file, and the list of installed
//! packages derived from the manifest together with each local checkout's
//! own metadata file.

use vstd::prelude::*;
use vstd::string::StrSliceExecFns;
use vstd::string::StringExecFns;
use crate::installer::{version_or_unknown, PackageManager};
use crate::models::{opt_str_view, opt_text_view};
use crate::jsonio::{
    entry_views, manifest_deps_of, metadata_repo_url_field, metadata_repo_url_of,
    metadata_version_field, metadata_version_of,
};
use crate::manifest::Manifest;
use crate::models::{InstalledPackage, PmError, ProjectInfo};
use crate::reference::{classify, classify_spec, DependencyReference, RefView};
use crate::strutil::{matches_at, trim, trim_spec};

verus! {

/// A path separator.
pub open spec fn is_sep(c: char) -> bool {
    c == '/' || c == '\\'
}

/// `s` without trailing path separators.
pub open spec fn rstrip_seps(s: Seq<char>) -> Seq<char>
    decreases s.len(),
{
    if s.len() > 0 && is_sep(s.last()) {
        rstrip_seps(s.drop_last())
    } else {
        s
    }
}

/// The characters after the last path separator of `s`.
pub open spec fn after_last_sep(s: Seq<char>) -> Seq<char>
    decreases s.len(),
{
    if s.len() == 0 {
        s
    } else if is_sep(s.last()) {
        Seq::empty()
    } else {
        after_last_sep(s.drop_last()).push(s.last())
    }
}

/// The display name derived from a project path: its final segment, with
/// trailing separators ignored; a fallback name when there is none.
pub open spec fn project_name_spec(path: Seq<char>) -> Seq<char> {
    let name = after_last_sep(rstrip_seps(path));
    if name.len() == 0 {
        "Unknown Project"@
    } else {
        name
    }
}

proof fn lemma_rstrip_take(s: Seq<char>, e: int)
    requires
        0 <= e <= s.len(),
        forall|j: int| e <= j < s.len() ==> is_sep(s[j]),
        e > 0 ==> !is_sep(s[e - 1]),
    ensures
        rstrip_seps(s) == s.take(e),
    decreases s.len() - e,
{
    if e == s.len() {
        if s.len() > 0 {
            assert(!is_sep(s.last()));
        }
        assert(s.take(s.len() as int) =~= s);
    } else {
        assert(is_sep(s.last()));
        lemma_rstrip_take(s.drop_last(), e);
        assert(s.drop_last().take(e) =~= s.take(e));
    }
}

proof fn lemma_after_last_sep_skip(s: Seq<char>, k: int)
    requires
        0 <= k <= s.len(),
        forall|j: int| k <= j < s.len() ==> !is_sep(s[j]),
        k == 0 || is_sep(s[k - 1]),
    ensures
        after_last_sep(s) == s.skip(k),
    decreases s.len() - k,
{
    if k == s.len() {
        if k > 0 {
            assert(is_sep(s.last()));
        }
        assert(s.skip(k) =~= Seq::<char>::empty());
    } else {
        assert(!is_sep(s.last()));
        lemma_after_last_sep_skip(s.drop_last(), k);
        assert(after_last_sep(s.drop_last()).push(s.last()) =~= s.skip(k));
    }
}

/// Whether `c` is a path separator.
fn is_sep_exec(c: char) -> (r: bool)
    ensures
        r == is_sep(c),
{
    c == '/' || c == '\\'
}

/// The project display name derived from its path.
pub fn project_name(path: &str) -> (r: String)
    ensures
        r@ == project_name_spec(path@),
{
    let n = path.unicode_len();
    let mut end = n;
    while end > 0 && is_sep_exec(path.get_char(end - 1))
        invariant
            end <= n,
            n == path@.len(),
            forall|j: int| end <= j < n ==> is_sep(path@[j]),
        decreases end,
    {
        end -= 1;
    }
    proof {
        lemma_rstrip_take(path@, end as int);
    }
    if end == 0 {
        proof {
            assert(path@.take(0) =~= Seq::<char>::empty());
        }
        return String::from_str("Unknown Project");
    }
    let mut start = end;
    while start > 0 && !is_sep_exec(path.get_char(start - 1))
        invariant
            start <= end <= n,
            n == path@.len(),
            !is_sep(path@[end - 1]),
            forall|j: int| start <= j < end ==> !is_sep(path@[j]),
        decreases start,
    {
        start -= 1;
    }
    proof {
        let core = path@.take(end as int);
        lemma_after_last_sep_skip(core, start as int);
        assert(core.skip(start as int) =~= path@.subrange(start as int, end as int));
        assert(start < end);
    }
    crate::strutil::substring_owned(path, start, end)
}

/// The settings key whose line carries the engine version.
pub open spec fn version_key() -> Seq<char> {
    "m_EditorVersion:"@
}

/// The first position at or after `i` holding a newline; the length when
/// there is none.
pub open spec fn first_nl_at(s: Seq<char>, i: int) -> int
    decreases s.len() - i,
{
    if !(0 <= i < s.len()) {
        s.len() as int
    } else if s[i] == '\n' {
        i
    } else {
        first_nl_at(s, i + 1)
    }
}

/// A position beginning a line of `s`.
pub open spec fn line_start(s: Seq<char>, i: int) -> bool {
    i == 0 || s[i - 1] == '\n'
}

/// The first position at or after `i` where a line starts with the version
/// key.
pub open spec fn first_key_from(s: Seq<char>, i: int) -> Option<int>
    decreases s.len() - i,
{
    if !(0 <= i < s.len()) {
        None
    } else if line_start(s, i) && matches_at(s, version_key(), i) {
        Some(i)
    } else {
        first_key_from(s, i + 1)
    }
}

/// The engine version read from the settings text: the remainder of the
/// first line starting with the version key, trimmed; `None` when no line
/// starts with it.
pub open spec fn unity_version_spec(s: Seq<char>) -> Option<Seq<char>> {
    match first_key_from(s, 0) {
        Some(i) => Some(
            trim_spec(s.subrange(i + version_key().len(), first_nl_at(s, i + version_key().len()))),
        ),
        None => None,
    }
}

proof fn lemma_first_nl_props(s: Seq<char>, i: int)
    requires
        0 <= i <= s.len(),
    ensures
        i <= first_nl_at(s, i) <= s.len(),
        first_nl_at(s, i) < s.len() ==> s[first_nl_at(s, i)] == '\n',
        forall|j: int| i <= j < first_nl_at(s, i) ==> s[j] != '\n',
    decreases s.len() - i,
{
    if i < s.len() && s[i] != '\n' {
        lemma_first_nl_props(s, i + 1);
    }
}

/// Extract the engine version from the settings file text.
pub fn extract_unity_version(settings_text: &str) -> (r: Option<String>)
    ensures
        opt_str_view(r) == unity_version_spec(settings_text@),
{
    proof {
        reveal_strlit("m_EditorVersion:");
    }
    let n = settings_text.unicode_len();
    let mut i: usize = 0;
    while i < n
        invariant
            i <= n,
            n == settings_text@.len(),
            version_key().len() == 16,
            first_key_from(settings_text@, 0) == first_key_from(settings_text@, i as int),
        decreases n - i,
    {
        let at_line_start = i == 0 || settings_text.get_char(i - 1) == '\n';
        let key_here = if at_line_start && n - i >= 16 {
            crate::strutil::matches_at_exec(settings_text, "m_EditorVersion:", i)
        } else {
            false
        };
        if key_here {
            assert(first_key_from(settings_text@, i as int) == Some(i as int));
            let mut e = i + 16;
            proof {
                lemma_first_nl_props(settings_text@, i + 16);
            }
            while e < n && settings_text.get_char(e) != '\n'
                invariant
                    i + 16 <= e <= n,
                    n == settings_text@.len(),
                    first_nl_at(settings_text@, i + 16) == first_nl_at(settings_text@, e as int),
                decreases n - e,
            {
                e += 1;
            }
            assert(first_nl_at(settings_text@, e as int) == e as int);
            let line_rest = settings_text.substring_char(i + 16, e);
            return Some(trim(line_rest));
        }
        proof {
            if !(line_start(settings_text@, i as int) && matches_at(
                settings_text@,
                version_key(),
                i as int,
            )) {
                assert(first_key_from(settings_text@, i as int) == first_key_from(
                    settings_text@,
                    i + 1,
                ));
            }
        }
        i += 1;
    }
    assert(first_key_from(settings_text@, n as int) is None);
    None
}

/// The version and origin URL reported for one installed entry: a local
/// checkout answers from its metadata file (with sentinels when it is
/// missing or unreadable), a git reference reports the reference itself as
/// its URL, a registry reference reports its version string.
pub open spec fn installed_entry_spec(refstr: Seq<char>, meta: Option<Seq<char>>) -> (
    Seq<char>,
    Seq<char>,
) {
    match classify_spec(refstr) {
        RefView::Local { dir: _ } => (
            version_or_unknown(
                match meta {
                    Some(t) => metadata_version_of(t),
                    None => None,
                },
            ),
            match meta {
                Some(t) => match metadata_repo_url_of(t) {
                    Some(u) => u,
                    None => Seq::empty(),
                },
                None => Seq::empty(),
            },
        ),
        RefView::GitUrl { url: _, fragment_version: _ } => ("git"@, refstr),
        RefView::RegistryVersion { version: _ } => (refstr, Seq::empty()),
    }
}

/// Build the installed-package records for the manifest entries.
/// `metadata[i]` is the content of the i-th entry's own metadata file, for
/// local entries whose file could be read; entries beyond the vector's
/// length count as having none.
pub fn build_installed_packages(
    entries: &Vec<(String, String)>,
    metadata: &Vec<Option<String>>,
) -> (r: Vec<InstalledPackage>)
    ensures
        r@.len() == entries@.len(),
        forall|i: int|
            0 <= i < r@.len() ==> {
                let meta = if i < metadata@.len() {
                    opt_str_view(metadata@[i])
                } else {
                    None
                };
                &&& (#[trigger] r@[i]).name@ == entry_views(entries@)[i].0
                &&& (r@[i].version@, r@[i].git_url@) == installed_entry_spec(
                    entry_views(entries@)[i].1,
                    meta,
                )
                &&& r@[i].installed_from_registry is None
            },
{
    let n = entries.len();
    let mut r: Vec<InstalledPackage> = Vec::new();
    let mut i: usize = 0;
    while i < n
        invariant
            i <= n,
            n == entries@.len(),
            r@.len() == i,
            forall|k: int|
                0 <= k < i ==> {
                    let meta = if k < metadata@.len() {
                        opt_str_view(metadata@[k])
                    } else {
                        None
                    };
                    &&& (#[trigger] r@[k]).name@ == entry_views(entries@)[k].0
                    &&& (r@[k].version@, r@[k].git_url@) == installed_entry_spec(
                        entry_views(entries@)[k].1,
                        meta,
                    )
                    &&& r@[k].installed_from_registry is None
                },
        decreases n - i,
    {
        let name = entries[i].0.clone();
        let ref_str = &entries[i].1;
        let meta: Option<&String> = if i < metadata.len() {
            match &metadata[i] {
                Some(m) => Some(m),
                None => None,
            }
        } else {
            None
        };
        let ghost meta_v: Option<Seq<char>> = if (i as int) < metadata@.len() {
            opt_str_view(metadata@[i as int])
        } else {
            None
        };
        let (version, git_url) = match classify(ref_str.as_str()) {
            DependencyReference::Local { directory_name: _ } => {
                let version = match meta {
                    Some(m) => match metadata_version_field(m.as_str()) {
                        Some(v) => v,
                        None => String::from_str("unknown"),
                    },
                    None => String::from_str("unknown"),
                };
                let url = match meta {
                    Some(m) => match metadata_repo_url_field(m.as_str()) {
                        Some(u) => u,
                        None => String::new(),
                    },
                    None => String::new(),
                };
                (version, url)
            },
            DependencyReference::GitUrl { url: _, fragment_version: _ } => (
                String::from_str("git"),
                ref_str.clone(),
            ),
            DependencyReference::RegistryVersion { version: _ } => (
                ref_str.clone(),
                String::new(),
            ),
        };
        proof {
            assert((version@, git_url@) =~= installed_entry_spec(
                entry_views(entries@)[i as int].1,
                meta_v,
            ));
        }
        r.push(InstalledPackage { name, version, git_url, installed_from_registry: None });
        i += 1;
    }
    r
}

impl PackageManager {
    /// Derive a project's identity and contents. `settings_text` is the
    /// content of the engine settings file and `manifest_text` that of the
    /// dependency manifest, each `None` when the file is absent;
    /// `metadata[i]` is the content of the i-th manifest entry's own
    /// metadata file, where it exists and could be read. A missing
    /// manifest, or a valid one holding no dependency object, yields an
    /// empty package list; a missing or unreadable per-package metadata
    /// file degrades only that entry's fields.
    pub fn get_project_info(
        project_path: &str,
        settings_text: Option<&str>,
        manifest_text: Option<&str>,
        metadata: &Vec<Option<String>>,
    ) -> (r: Result<ProjectInfo, PmError>)
        ensures
            match r {
                Ok(info) => {
                    &&& info.path@ == project_path@
                    &&& info.name@ == project_name_spec(project_path@)
                    &&& opt_str_view(info.unity_version) == (match opt_text_view(settings_text) {
                        Some(t) => unity_version_spec(t),
                        None => None,
                    })
                    &&& match opt_text_view(manifest_text) {
                        None => info.packages@.len() == 0,
                        Some(t) => {
                            &&& manifest_deps_of(t) is Some
                            &&& {
                                let entries = manifest_deps_of(t)->Some_0;
                                &&& info.packages@.len() == entries.len()
                                &&& forall|i: int|
                                    0 <= i < entries.len() ==> {
                                        let meta = if i < metadata@.len() {
                                            opt_str_view(metadata@[i])
                                        } else {
                                            None
                                        };
                                        &&& (#[trigger] info.packages@[i]).name@ == entries[i].0
                                        &&& (
                                            info.packages@[i].version@,
                                            info.packages@[i].git_url@,
                                        ) == installed_entry_spec(entries[i].1, meta)
                                        &&& info.packages@[i].installed_from_registry is None
                                    }
                            }
                        },
                    }
                },
                Err(e) => {
                    &&& e == PmError::ManifestParseError
                    &&& manifest_text is Some
                    &&& manifest_deps_of(manifest_text->0@) is None
                },
            },
    {
        let name = project_name(project_path);
        let unity_version = match settings_text {
            Some(t) => extract_unity_version(t),
            None => None,
        };
        let packages = match manifest_text {
            Some(t) => match Manifest::parse(t) {
                Ok(Some(m)) => {
                    let entries = m.entries_cloned();
                    build_installed_packages(&entries, metadata)
                },
                Ok(None) => Vec::new(),
                Err(e) => {
                    return Err(e);
                },
            },
            None => Vec::new(),
        };
        Ok(
            ProjectInfo {
                path: String::from_str(project_path),
                name,
                unity_version,
                packages,
            },
        )
    }
}

} // verus!
