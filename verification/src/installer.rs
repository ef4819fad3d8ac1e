//! The package reconciliation engine: deciding installs, removals, conflict
//! lookups and installed-package queries against the dependency manifest.
//!
//! Every operation here is a pure decision over the manifest text and the
//! package descriptor. An install or removal returns a plan; the caller
//! executes its side effects in order — delete the listed directories if
//! they exist on disk, clone and check out, and write the new manifest text
//! last, so that a failure part-way leaves at worst an orphaned,
//! unreferenced directory that a later install deletes again.

use vstd::prelude::*;
use vstd::string::StrSliceExecFns;
use vstd::string::StringExecFns;
use crate::jsonio::{
    keys_unique, manifest_deps_of, manifest_rest_of, manifest_writable, metadata_version_of,
    metadata_version_field, pairs_map,
};
use crate::manifest::Manifest;
use crate::models::{opt_str_view, opt_text_view, Package, PmError};
use crate::reference::{
    classify, classify_spec, lemma_local_ref_classifies, local_ref_spec, DependencyReference,
    RefView,
};
use crate::strutil::{concat2, push_char};

verus! {

/// How a sanitized directory name treats one character: path separators and
/// dots become underscores.
pub open spec fn sanitize_char(c: char) -> char {
    if c == '/' || c == '\\' || c == '.' {
        '_'
    } else {
        c
    }
}

/// The checkout directory name derived from a package name.
pub open spec fn sanitize_spec(s: Seq<char>) -> Seq<char> {
    s.map_values(|c: char| sanitize_char(c))
}

/// The directory slot used for a package's checkout: stable, derived only
/// from the package name, so repeated installs reuse the same slot.
pub fn sanitize_directory_name(name: &str) -> (r: String)
    ensures
        r@ == sanitize_spec(name@),
{
    let n = name.unicode_len();
    let mut r = String::new();
    let mut i: usize = 0;
    while i < n
        invariant
            i <= n,
            n == name@.len(),
            r@.len() == i,
            r@ =~= sanitize_spec(name@).take(i as int),
        decreases n - i,
    {
        let c = name.get_char(i);
        let sc = if c == '/' || c == '\\' || c == '.' {
            '_'
        } else {
            c
        };
        push_char(&mut r, sc);
        proof {
            assert(r@ =~= sanitize_spec(name@).take(i + 1));
        }
        i += 1;
    }
    proof {
        assert(sanitize_spec(name@).take(n as int) =~= sanitize_spec(name@));
    }
    r
}

/// What to check out after cloning. A tag takes precedence over a branch;
/// with neither, the clone stays at its default branch tip.
#[derive(Debug)]
pub enum CheckoutSelector {
    Tag(String),
    Branch(String),
    DefaultBranch,
}

/// The mathematical form of a checkout selector.
pub ghost enum SelectorView {
    Tag(Seq<char>),
    Branch(Seq<char>),
    DefaultBranch,
}

impl View for CheckoutSelector {
    type V = SelectorView;

    open spec fn view(&self) -> SelectorView {
        match self {
            CheckoutSelector::Tag(t) => SelectorView::Tag(t@),
            CheckoutSelector::Branch(b) => SelectorView::Branch(b@),
            CheckoutSelector::DefaultBranch => SelectorView::DefaultBranch,
        }
    }
}

/// The view of an optional classified reference.
pub open spec fn opt_ref_view(o: Option<DependencyReference>) -> Option<RefView> {
    match o {
        Some(r) => Some(r@),
        None => None,
    }
}

/// The selector chosen for a descriptor's pins.
pub open spec fn selector_spec(tag: Option<Seq<char>>, branch: Option<Seq<char>>) -> SelectorView {
    if tag is Some {
        SelectorView::Tag(tag->0)
    } else if branch is Some {
        SelectorView::Branch(branch->0)
    } else {
        SelectorView::DefaultBranch
    }
}

/// The classified reference a manifest holds for a name, if any.
pub open spec fn prior_ref_spec(dm: Map<Seq<char>, Seq<char>>, name: Seq<char>) -> Option<
    RefView,
> {
    if dm.contains_key(name) {
        Some(classify_spec(dm[name]))
    } else {
        None
    }
}

/// The directory an operation must delete for a prior reference: only a
/// local reference owns a directory.
pub open spec fn dir_to_delete_spec(prior: Option<RefView>) -> Option<Seq<char>> {
    match prior {
        Some(RefView::Local { dir }) => Some(dir),
        _ => None,
    }
}

/// The dependency map after installing `name`: its entry becomes the local
/// reference to the sanitized directory slot.
pub open spec fn install_deps_spec(
    dm: Map<Seq<char>, Seq<char>>,
    name: Seq<char>,
) -> Map<Seq<char>, Seq<char>> {
    dm.insert(name, local_ref_spec(sanitize_spec(name)))
}

/// An installation decided. The caller executes, in order: delete
/// `remove_dir_first` if it exists on disk, delete `target_dir` if it
/// exists (a stale leftover), clone `git_url` into `target_dir`, check out
/// per `selector`, then write `new_manifest_text`.
#[derive(Debug)]
pub struct InstallPlan {
    /// What the manifest held for the package before, classified.
    pub prior: Option<DependencyReference>,
    /// The prior local checkout directory to delete, when the prior
    /// reference was local.
    pub remove_dir_first: Option<String>,
    /// The directory slot to clone into, inside the packages directory.
    pub target_dir: String,
    /// The repository to clone.
    pub git_url: String,
    /// What to check out after cloning.
    pub selector: CheckoutSelector,
    /// The manifest to persist once the checkout succeeded.
    pub new_manifest_text: String,
}

/// A removal decided. The caller deletes `dir_to_delete` if it exists on
/// disk (reporting, but not aborting on, a failure there) and writes
/// `new_manifest_text`.
#[derive(Debug)]
pub struct RemovePlan {
    /// What the manifest held for the package, classified.
    pub removed: Option<DependencyReference>,
    /// The local checkout directory to delete, when the reference was local.
    pub dir_to_delete: Option<String>,
    /// The manifest to persist.
    pub new_manifest_text: String,
}

/// The reconciliation engine over one project's manifest.
pub struct PackageManager;

impl PackageManager {
    /// Decide the installation of `package`. `manifest_text` is the content
    /// of the project's manifest file, `None` when the file is absent —
    /// installation never creates a project, so that is an error. A
    /// document into which no entry can be written (valid JSON whose top
    /// level, or whose `dependencies` member, is not an object) is an
    /// error too: the local reference could not be recorded in it.
    ///
    /// An update is the same decision: a full reinstall under the new
    /// descriptor's pin.
    pub fn install_package(manifest_text: Option<&str>, package: &Package) -> (r: Result<
        InstallPlan,
        PmError,
    >)
        ensures
            match r {
                Ok(plan) => {
                    &&& manifest_text is Some
                    &&& manifest_writable(manifest_text->0@)
                    &&& manifest_deps_of(manifest_text->0@) is Some
                    &&& {
                        let dm = pairs_map(manifest_deps_of(manifest_text->0@)->Some_0);
                        &&& opt_ref_view(plan.prior) == prior_ref_spec(dm, package.name@)
                        &&& opt_str_view(plan.remove_dir_first) == dir_to_delete_spec(
                            prior_ref_spec(dm, package.name@),
                        )
                        &&& plan.target_dir@ == sanitize_spec(package.name@)
                        &&& plan.git_url@ == package.git_url@
                        &&& plan.selector@ == selector_spec(
                            opt_str_view(package.git_tag),
                            opt_str_view(package.git_branch),
                        )
                        &&& manifest_deps_of(plan.new_manifest_text@) is Some
                        &&& keys_unique(manifest_deps_of(plan.new_manifest_text@)->Some_0)
                        &&& pairs_map(manifest_deps_of(plan.new_manifest_text@)->Some_0)
                            == install_deps_spec(dm, package.name@)
                        &&& manifest_rest_of(plan.new_manifest_text@) == manifest_rest_of(
                            manifest_text->0@,
                        )
                    }
                },
                Err(e) => {
                    &&& (e == PmError::ProjectNotInitialized <==> manifest_text is None)
                    &&& (e == PmError::ManifestParseError <==> (manifest_text is Some && (
                    manifest_deps_of(manifest_text->0@) is None || !manifest_writable(
                        manifest_text->0@,
                    ))))
                    &&& (e == PmError::ProjectNotInitialized || e == PmError::ManifestParseError)
                },
            },
    {
        let text = match manifest_text {
            Some(t) => t,
            None => {
                return Err(PmError::ProjectNotInitialized);
            },
        };
        let mut m = match Manifest::parse(text) {
            Ok(Some(m)) => m,
            Ok(None) => {
                return Err(PmError::ManifestParseError);
            },
            Err(e) => {
                return Err(e);
            },
        };
        let prior_str = m.lookup(package.name.as_str());
        let prior = match &prior_str {
            Some(s) => Some(classify(s.as_str())),
            None => None,
        };
        let remove_dir_first = match &prior {
            Some(DependencyReference::Local { directory_name }) => Some(directory_name.clone()),
            _ => None,
        };
        let target_dir = sanitize_directory_name(package.name.as_str());
        let local_ref = concat2("file:", target_dir.as_str());
        m.upsert(package.name.as_str(), local_ref.as_str());
        let new_manifest_text = m.render();
        let selector = match &package.git_tag {
            Some(t) => CheckoutSelector::Tag(t.clone()),
            None => match &package.git_branch {
                Some(b) => CheckoutSelector::Branch(b.clone()),
                None => CheckoutSelector::DefaultBranch,
            },
        };
        Ok(
            InstallPlan {
                prior,
                remove_dir_first,
                target_dir,
                git_url: package.git_url.clone(),
                selector,
                new_manifest_text,
            },
        )
    }

    /// Decide the removal of `package_name`: drop its manifest entry and,
    /// when the entry was a local reference, name its directory for
    /// deletion. Removing an absent entry is not an error, and a valid
    /// document into which no entry could have been written carries no
    /// entries: the plan then leaves the manifest text as it stands.
    pub fn remove_package(manifest_text: Option<&str>, package_name: &str) -> (r: Result<
        RemovePlan,
        PmError,
    >)
        ensures
            match r {
                Ok(plan) => {
                    &&& manifest_text is Some
                    &&& manifest_deps_of(manifest_text->0@) is Some
                    &&& {
                        let dm = pairs_map(manifest_deps_of(manifest_text->0@)->Some_0);
                        &&& opt_ref_view(plan.removed) == prior_ref_spec(dm, package_name@)
                        &&& opt_str_view(plan.dir_to_delete) == dir_to_delete_spec(
                            prior_ref_spec(dm, package_name@),
                        )
                        &&& manifest_deps_of(plan.new_manifest_text@) is Some
                        &&& keys_unique(manifest_deps_of(plan.new_manifest_text@)->Some_0)
                        &&& pairs_map(manifest_deps_of(plan.new_manifest_text@)->Some_0)
                            == dm.remove(package_name@)
                        &&& manifest_rest_of(plan.new_manifest_text@) == manifest_rest_of(
                            manifest_text->0@,
                        )
                        &&& !manifest_writable(manifest_text->0@)
                            ==> plan.new_manifest_text@ == manifest_text->0@
                    }
                },
                Err(e) => {
                    &&& (e == PmError::ProjectNotInitialized <==> manifest_text is None)
                    &&& (e == PmError::ManifestParseError <==> (manifest_text is Some
                        && manifest_deps_of(manifest_text->0@) is None))
                    &&& (e == PmError::ProjectNotInitialized || e == PmError::ManifestParseError)
                },
            },
    {
        let text = match manifest_text {
            Some(t) => t,
            None => {
                return Err(PmError::ProjectNotInitialized);
            },
        };
        let mut m = match Manifest::parse(text) {
            Ok(Some(m)) => m,
            Ok(None) => {
                proof {
                    assert(pairs_map(Seq::<(Seq<char>, Seq<char>)>::empty()).remove(package_name@)
                        =~= pairs_map(Seq::<(Seq<char>, Seq<char>)>::empty()));
                }
                return Ok(
                    RemovePlan {
                        removed: None,
                        dir_to_delete: None,
                        new_manifest_text: String::from_str(text),
                    },
                );
            },
            Err(e) => {
                return Err(e);
            },
        };
        let prior_str = m.remove(package_name);
        let removed = match &prior_str {
            Some(s) => Some(classify(s.as_str())),
            None => None,
        };
        let dir_to_delete = match &removed {
            Some(DependencyReference::Local { directory_name }) => Some(directory_name.clone()),
            _ => None,
        };
        let new_manifest_text = m.render();
        Ok(RemovePlan { removed, dir_to_delete, new_manifest_text })
    }

    /// The raw reference string the manifest holds for `package_name`.
    /// Returns `None` both when the manifest file is absent and when the
    /// name has no entry: to the caller, either way there is no conflict.
    pub fn check_package_conflicts(manifest_text: Option<&str>, package_name: &str) -> (r: Result<
        Option<String>,
        PmError,
    >)
        ensures
            match r {
                Ok(conflict) => match conflict {
                    Some(v) => {
                        &&& manifest_text is Some
                        &&& manifest_deps_of(manifest_text->0@) is Some
                        &&& pairs_map(manifest_deps_of(manifest_text->0@)->Some_0).contains_key(
                            package_name@,
                        )
                        &&& v@ == pairs_map(
                            manifest_deps_of(manifest_text->0@)->Some_0,
                        )[package_name@]
                    },
                    None => manifest_text is None || (manifest_deps_of(manifest_text->0@) is Some
                        && !pairs_map(manifest_deps_of(manifest_text->0@)->Some_0).contains_key(
                        package_name@,
                    )),
                },
                Err(e) => {
                    &&& e == PmError::ManifestParseError
                    &&& manifest_text is Some
                    &&& manifest_deps_of(manifest_text->0@) is None
                },
            },
    {
        let text = match manifest_text {
            Some(t) => t,
            None => {
                return Ok(None);
            },
        };
        let m = match Manifest::parse(text) {
            Ok(Some(m)) => m,
            Ok(None) => {
                return Ok(None);
            },
            Err(e) => {
                return Err(e);
            },
        };
        Ok(m.lookup(package_name))
    }

    /// The directory a local reference points at; `None` for the other
    /// kinds. Callers use it to find the metadata file of a local checkout.
    pub fn local_directory_of(ref_str: &str) -> (r: Option<String>)
        ensures
            match r {
                Some(d) => classify_spec(ref_str@) == (RefView::Local { dir: d@ }),
                None => !(classify_spec(ref_str@) is Local),
            },
    {
        match classify(ref_str) {
            DependencyReference::Local { directory_name } => Some(directory_name),
            _ => None,
        }
    }

    /// The version and origin kind reported for an installed package.
    ///
    /// `local_metadata` is the content of the checkout's own metadata file
    /// for a local reference (`None` when absent or unreadable); the other
    /// kinds answer from the reference string alone: a git reference reports
    /// its pinned `#` fragment or `latest`, a registry reference reports its
    /// version string verbatim.
    pub fn get_installed_package_info(
        manifest_text: Option<&str>,
        package_name: &str,
        local_metadata: Option<&str>,
    ) -> (r: Result<Option<(String, String)>, PmError>)
        ensures
            match r {
                Ok(info) => match info {
                    Some(pair) => {
                        &&& manifest_text is Some
                        &&& manifest_deps_of(manifest_text->0@) is Some
                        &&& pairs_map(manifest_deps_of(manifest_text->0@)->Some_0).contains_key(
                            package_name@,
                        )
                        &&& (pair.0@, pair.1@) == package_info_spec(
                            pairs_map(manifest_deps_of(manifest_text->0@)->Some_0)[package_name@],
                            opt_text_view(local_metadata),
                        )
                    },
                    None => manifest_text is None || (manifest_deps_of(manifest_text->0@) is Some
                        && !pairs_map(manifest_deps_of(manifest_text->0@)->Some_0).contains_key(
                        package_name@,
                    )),
                },
                Err(e) => {
                    &&& e == PmError::ManifestParseError
                    &&& manifest_text is Some
                    &&& manifest_deps_of(manifest_text->0@) is None
                },
            },
    {
        let text = match manifest_text {
            Some(t) => t,
            None => {
                return Ok(None);
            },
        };
        let m = match Manifest::parse(text) {
            Ok(Some(m)) => m,
            Ok(None) => {
                return Ok(None);
            },
            Err(e) => {
                return Err(e);
            },
        };
        let ref_str = match m.lookup(package_name) {
            Some(v) => v,
            None => {
                return Ok(None);
            },
        };
        match classify(ref_str.as_str()) {
            DependencyReference::Local { directory_name: _ } => {
                let version = match local_metadata {
                    Some(meta) => match metadata_version_field(meta) {
                        Some(v) => v,
                        None => String::from_str("unknown"),
                    },
                    None => String::from_str("unknown"),
                };
                Ok(Some((version, String::from_str("local"))))
            },
            DependencyReference::GitUrl { url: _, fragment_version } => {
                let version = match fragment_version {
                    Some(f) => f,
                    None => String::from_str("latest"),
                };
                Ok(Some((version, String::from_str("git"))))
            },
            DependencyReference::RegistryVersion { version } => {
                Ok(Some((version, String::from_str("registry"))))
            },
        }
    }
}

/// The metadata version reported for a local checkout, with the `unknown`
/// sentinel for an absent or unreadable field.
pub open spec fn version_or_unknown(v: Option<Seq<char>>) -> Seq<char> {
    match v {
        Some(s) => s,
        None => "unknown"@,
    }
}

/// The version and origin kind derived from a reference string and, for a
/// local reference, the checkout's metadata text.
pub open spec fn package_info_spec(refstr: Seq<char>, meta: Option<Seq<char>>) -> (
    Seq<char>,
    Seq<char>,
) {
    match classify_spec(refstr) {
        RefView::Local { dir: _ } => (
            version_or_unknown(
                match meta {
                    Some(t) => metadata_version_of(t),
                    None => None,
                },
            ),
            "local"@,
        ),
        RefView::GitUrl { url: _, fragment_version } => (
            match fragment_version {
                Some(f) => f,
                None => "latest"@,
            },
            "git"@,
        ),
        RefView::RegistryVersion { version } => (version, "registry"@),
    }
}

/// Installing the same descriptor twice yields the dependency map of a
/// single installation; the second installation finds the first's local
/// reference in the manifest, so it names exactly the shared target
/// directory for deletion and recreates it — one manifest entry, one
/// directory slot, no duplication.
pub proof fn lemma_reinstall_same_slot(dm: Map<Seq<char>, Seq<char>>, name: Seq<char>)
    ensures
        install_deps_spec(install_deps_spec(dm, name), name) == install_deps_spec(dm, name),
        prior_ref_spec(install_deps_spec(dm, name), name) == Some(
            RefView::Local { dir: sanitize_spec(name) },
        ),
        dir_to_delete_spec(prior_ref_spec(install_deps_spec(dm, name), name)) == Some(
            sanitize_spec(name),
        ),
{
    lemma_local_ref_classifies(sanitize_spec(name));
    assert(install_deps_spec(install_deps_spec(dm, name), name) =~= install_deps_spec(dm, name));
}

/// Installing over a git-URL or registry reference overwrites that entry
/// with the local reference and names no prior directory for deletion.
pub proof fn lemma_install_over_nonlocal(dm: Map<Seq<char>, Seq<char>>, name: Seq<char>)
    requires
        dm.contains_key(name),
        !(classify_spec(dm[name]) is Local),
    ensures
        dir_to_delete_spec(prior_ref_spec(dm, name)) is None,
        install_deps_spec(dm, name)[name] == local_ref_spec(sanitize_spec(name)),
        classify_spec(install_deps_spec(dm, name)[name]) == (RefView::Local {
            dir: sanitize_spec(name),
        }),
{
    lemma_local_ref_classifies(sanitize_spec(name));
}

/// Removal drops exactly the named entry; a local reference names its
/// directory for deletion, a git-URL or registry reference names none.
pub proof fn lemma_remove_kinds(dm: Map<Seq<char>, Seq<char>>, name: Seq<char>)
    requires
        dm.contains_key(name),
    ensures
        !dm.remove(name).contains_key(name),
        forall|k: Seq<char>| k != name && dm.contains_key(k) ==> dm.remove(name).contains_key(k)
            && dm.remove(name)[k] == dm[k],
        classify_spec(dm[name]) matches RefView::Local { dir } ==> dir_to_delete_spec(
            prior_ref_spec(dm, name),
        ) == Some(dir),
        !(classify_spec(dm[name]) is Local) ==> dir_to_delete_spec(prior_ref_spec(dm, name))
            is None,
{
}

} // verus!
