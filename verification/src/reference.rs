//! Classification of manifest dependency reference strings.
//!
//! A Unity dependency manifest maps package names to reference strings. A
//! reference string encodes one of three kinds: a local checkout
//! (`file:<directory>`), a git URL (an `https://` or `git+` URL, or any
//! string containing `.git`, with an optional trailing `#<version>`
//! fragment), or a registry version (any other string). Classification is
//! purely syntactic and total.

use vstd::prelude::*;
use vstd::string::StrSliceExecFns;
use crate::strutil::{contains_seq, contains_substr, concat2, find_char, has_prefix, substring_owned};

verus! {

/// A classified dependency reference.
#[derive(Debug)]
pub enum DependencyReference {
    /// `file:<directory_name>`: a checkout owned by this manager.
    Local { directory_name: String },
    /// A git URL managed by Unity itself; the fragment, when present, is a
    /// pinned version label.
    GitUrl { url: String, fragment_version: Option<String> },
    /// A semantic version resolved by Unity's own registry mechanism.
    RegistryVersion { version: String },
}

/// The mathematical form of a classified reference.
pub ghost enum RefView {
    Local { dir: Seq<char> },
    GitUrl { url: Seq<char>, fragment_version: Option<Seq<char>> },
    RegistryVersion { version: Seq<char> },
}

impl View for DependencyReference {
    type V = RefView;

    open spec fn view(&self) -> RefView {
        match self {
            DependencyReference::Local { directory_name } => RefView::Local {
                dir: directory_name@,
            },
            DependencyReference::GitUrl { url, fragment_version } => RefView::GitUrl {
                url: url@,
                fragment_version: match fragment_version {
                    Some(f) => Some(f@),
                    None => None,
                },
            },
            DependencyReference::RegistryVersion { version } => RefView::RegistryVersion {
                version: version@,
            },
        }
    }
}

/// A reference string of the local kind: it begins with `file:`.
pub open spec fn is_local_ref(s: Seq<char>) -> bool {
    "file:"@.is_prefix_of(s)
}

/// A reference string of the git kind (when not local): an `https://` or
/// `git+` URL, or any string containing `.git`.
pub open spec fn is_git_ref(s: Seq<char>) -> bool {
    ||| "https://"@.is_prefix_of(s)
    ||| "git+"@.is_prefix_of(s)
    ||| contains_seq(s, ".git"@)
}

/// Total classification of a reference string: local wins over git, git
/// over registry; every string falls in exactly one class.
pub open spec fn classify_spec(s: Seq<char>) -> RefView {
    if is_local_ref(s) {
        RefView::Local { dir: s.skip("file:"@.len() as int) }
    } else if is_git_ref(s) {
        match s.index_of_first('#') {
            Some(i) => RefView::GitUrl {
                url: s.take(i),
                fragment_version: Some(s.skip(i + 1)),
            },
            None => RefView::GitUrl { url: s, fragment_version: None },
        }
    } else {
        RefView::RegistryVersion { version: s }
    }
}

/// The canonical string form of a classified reference.
pub open spec fn canonical_spec(r: RefView) -> Seq<char> {
    match r {
        RefView::Local { dir } => "file:"@ + dir,
        RefView::GitUrl { url, fragment_version } => match fragment_version {
            Some(f) => url + "#"@ + f,
            None => url,
        },
        RefView::RegistryVersion { version } => version,
    }
}

/// The canonical local reference string for a directory name.
pub open spec fn local_ref_spec(dir: Seq<char>) -> Seq<char> {
    "file:"@ + dir
}

/// Classify a manifest reference string.
pub fn classify(s: &str) -> (r: DependencyReference)
    ensures
        r@ == classify_spec(s@),
{
    proof {
        reveal_strlit("file:");
    }
    let n = s.unicode_len();
    if has_prefix(s, "file:") {
        let dir = substring_owned(s, 5, n);
        return DependencyReference::Local { directory_name: dir };
    }
    if has_prefix(s, "https://") || has_prefix(s, "git+") || contains_substr(s, ".git") {
        match find_char(s, '#') {
            Some(i) => {
                proof {
                    s@.index_of_first_ensures('#');
                    let fi = s@.index_of_first('#');
                    assert(fi is Some);
                    assert(s@[fi->Some_0] == '#');
                    assert(fi->Some_0 == i as int);
                }
                let url = substring_owned(s, 0, i);
                let frag = substring_owned(s, i + 1, n);
                DependencyReference::GitUrl { url, fragment_version: Some(frag) }
            },
            None => {
                proof {
                    s@.index_of_first_ensures('#');
                    assert(s@.index_of_first('#') is None) by {
                        if s@.index_of_first('#') is Some {
                            let fi = s@.index_of_first('#')->Some_0;
                            assert(s@[fi] == '#');
                        }
                    }
                }
                DependencyReference::GitUrl {
                    url: String::from_str(s),
                    fragment_version: None,
                }
            },
        }
    } else {
        DependencyReference::RegistryVersion { version: String::from_str(s) }
    }
}

/// The canonical string form of a reference.
pub fn canonical_string(r: &DependencyReference) -> (s: String)
    ensures
        s@ == canonical_spec(r@),
{
    match r {
        DependencyReference::Local { directory_name } => concat2("file:", directory_name.as_str()),
        DependencyReference::GitUrl { url, fragment_version } => match fragment_version {
            Some(f) => {
                let head = concat2(url.as_str(), "#");
                concat2(head.as_str(), f.as_str())
            },
            None => String::from_str(url.as_str()),
        },
        DependencyReference::RegistryVersion { version } => String::from_str(version.as_str()),
    }
}

/// Classification is total and exact: every string falls in exactly the one
/// class that its syntax selects, local taking precedence over git and git
/// over registry.
pub proof fn lemma_classify_exact(s: Seq<char>)
    ensures
        classify_spec(s) is Local <==> is_local_ref(s),
        classify_spec(s) is GitUrl <==> (!is_local_ref(s) && is_git_ref(s)),
        classify_spec(s) is RegistryVersion <==> (!is_local_ref(s) && !is_git_ref(s)),
{
}

/// Round trip for the local kind: a string classified as local re-renders
/// to itself.
pub proof fn lemma_roundtrip_local(s: Seq<char>)
    requires
        classify_spec(s) is Local,
    ensures
        canonical_spec(classify_spec(s)) == s,
{
    reveal_strlit("file:");
    assert("file:"@ + s.skip(5) =~= s);
}

/// Round trip for the registry kind: a string classified as a registry
/// version re-renders to itself.
pub proof fn lemma_roundtrip_registry(s: Seq<char>)
    requires
        classify_spec(s) is RegistryVersion,
    ensures
        canonical_spec(classify_spec(s)) == s,
{
}

/// A canonical local reference classifies back to the same directory name.
pub proof fn lemma_local_ref_classifies(dir: Seq<char>)
    ensures
        classify_spec(local_ref_spec(dir)) == (RefView::Local { dir }),
{
    reveal_strlit("file:");
    let s = local_ref_spec(dir);
    assert("file:"@ =~= s.subrange(0, 5));
    assert(is_local_ref(s));
    assert(s.skip(5) =~= dir);
}

} // verus!
