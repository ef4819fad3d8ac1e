//! Data records exchanged with callers, and the operation error taxonomy.

use vstd::prelude::*;
use vstd::string::StringExecFns;
use crate::jsonio::entry_views;
use crate::strutil::str_views;

verus! {

/// The view of an optional owned string.
pub open spec fn opt_str_view(o: Option<String>) -> Option<Seq<char>> {
    match o {
        Some(s) => Some(s@),
        None => None,
    }
}

/// The view of optional borrowed text.
pub open spec fn opt_text_view(o: Option<&str>) -> Option<Seq<char>> {
    match o {
        Some(s) => Some(s@),
        None => None,
    }
}

/// The view of an optional vector of strings.
pub open spec fn opt_strs_view(o: Option<Vec<String>>) -> Option<Seq<Seq<char>>> {
    match o {
        Some(v) => Some(str_views(v@)),
        None => None,
    }
}

/// The view of an optional vector of string pairs.
pub open spec fn opt_entries_view(o: Option<Vec<(String, String)>>) -> Option<
    Seq<(Seq<char>, Seq<char>)>,
> {
    match o {
        Some(v) => Some(entry_views(v@)),
        None => None,
    }
}

/// Why an operation could not proceed.
///
/// `ProjectNotInitialized` and `ManifestParseError` arise while reading the
/// manifest; the remaining kinds describe failures of the filesystem and
/// git actions that a caller performs when executing a plan.
#[derive(Clone, Copy, Debug, PartialEq, Eq, Structural)]
pub enum PmError {
    /// The project has no dependency manifest file.
    ProjectNotInitialized,
    /// The manifest file is not valid JSON. Installation also reports it
    /// for a valid document whose top level, or whose `dependencies`
    /// member, is not an object, since no entry could be written into it;
    /// read paths treat such a document as holding no dependencies.
    ManifestParseError,
    /// A clone or fetch failed in transport.
    VcsError,
    /// A requested tag is absent even after refetching every ref.
    TagNotFound,
    /// A requested branch is absent even after refetching every ref.
    BranchNotFound,
    /// A create/remove/read/write on the project tree failed.
    FilesystemError,
}

/// A configured package registry.
#[derive(Clone, Debug)]
pub struct Registry {
    pub id: String,
    pub name: String,
    pub url: String,
    pub enabled: bool,
}

/// The user-facing application configuration.
#[derive(Clone, Debug)]
pub struct AppConfig {
    pub registries: Vec<Registry>,
    pub project_paths: Vec<String>,
    pub selected_project_path: Option<String>,
    pub theme: String,
}

impl Default for AppConfig {
    /// An empty configuration with the dark theme selected.
    fn default() -> (c: AppConfig)
        ensures
            c.registries@.len() == 0,
            c.project_paths@.len() == 0,
            c.selected_project_path is None,
            c.theme@ == "dark"@,
    {
        AppConfig {
            registries: Vec::new(),
            project_paths: Vec::new(),
            selected_project_path: None,
            theme: String::from_str("dark"),
        }
    }
}

/// One selectable version of a catalog package.
#[derive(Clone, Debug)]
pub struct PackageVersion {
    pub version: String,
    pub git_tag: Option<String>,
    pub git_branch: Option<String>,
    pub is_prerelease: bool,
    pub unity_version: Option<String>,
    pub dependencies: Option<Vec<(String, String)>>,
}

/// A package as described by a registry catalog; installation input.
#[derive(Clone, Debug)]
pub struct Package {
    pub name: String,
    pub display_name: String,
    pub description: String,
    pub git_url: String,
    pub author: Option<String>,
    pub keywords: Option<Vec<String>>,
    pub category: Option<String>,
    pub license: Option<String>,
    pub versions: Option<Vec<PackageVersion>>,
    pub version: Option<String>,
    pub git_branch: Option<String>,
    pub git_tag: Option<String>,
    pub dependencies: Option<Vec<(String, String)>>,
    pub unity_version: Option<String>,
    pub is_prerelease: bool,
}

fn clone_strings(v: &Vec<String>) -> (r: Vec<String>)
    ensures
        str_views(r@) == str_views(v@),
{
    let n = v.len();
    let mut r: Vec<String> = Vec::new();
    let mut i: usize = 0;
    while i < n
        invariant
            i <= n,
            n == v@.len(),
            r@.len() == i,
            str_views(r@) =~= str_views(v@).take(i as int),
        decreases n - i,
    {
        r.push(v[i].clone());
        proof {
            assert(str_views(r@) =~= str_views(v@).take(i + 1));
        }
        i += 1;
    }
    proof {
        assert(str_views(v@).take(n as int) =~= str_views(v@));
    }
    r
}

fn clone_string_pairs(v: &Vec<(String, String)>) -> (r: Vec<(String, String)>)
    ensures
        entry_views(r@) == entry_views(v@),
{
    let n = v.len();
    let mut r: Vec<(String, String)> = Vec::new();
    let mut i: usize = 0;
    while i < n
        invariant
            i <= n,
            n == v@.len(),
            r@.len() == i,
            entry_views(r@) =~= entry_views(v@).take(i as int),
        decreases n - i,
    {
        let a = v[i].0.clone();
        let b = v[i].1.clone();
        r.push((a, b));
        proof {
            assert(r@[i as int] =~= v@[i as int]);
            assert(entry_views(r@) =~= entry_views(v@).take(i + 1));
        }
        i += 1;
    }
    proof {
        assert(entry_views(v@).take(n as int) =~= entry_views(v@));
    }
    r
}

impl Package {
    /// The single-version package entry derived from this catalog package
    /// and one of its versions: the shared display fields kept, the
    /// version's own pin and metadata substituted, and the version list
    /// cleared. A caller expands a multi-version catalog package into one
    /// such entry per version.
    pub fn expanded_with(&self, v: &PackageVersion) -> (r: Package)
        ensures
            r.name@ == self.name@,
            r.display_name@ == self.display_name@,
            r.description@ == self.description@,
            r.git_url@ == self.git_url@,
            opt_str_view(r.author) == opt_str_view(self.author),
            opt_strs_view(r.keywords) == opt_strs_view(self.keywords),
            opt_str_view(r.category) == opt_str_view(self.category),
            opt_str_view(r.license) == opt_str_view(self.license),
            r.versions is None,
            opt_str_view(r.version) == Some(v.version@),
            opt_str_view(r.git_tag) == opt_str_view(v.git_tag),
            opt_str_view(r.git_branch) == opt_str_view(v.git_branch),
            opt_entries_view(r.dependencies) == opt_entries_view(v.dependencies),
            opt_str_view(r.unity_version) == opt_str_view(v.unity_version),
            r.is_prerelease == v.is_prerelease,
    {
        Package {
            name: self.name.clone(),
            display_name: self.display_name.clone(),
            description: self.description.clone(),
            git_url: self.git_url.clone(),
            author: match &self.author {
                Some(a) => Some(a.clone()),
                None => None,
            },
            keywords: match &self.keywords {
                Some(k) => Some(clone_strings(k)),
                None => None,
            },
            category: match &self.category {
                Some(c) => Some(c.clone()),
                None => None,
            },
            license: match &self.license {
                Some(l) => Some(l.clone()),
                None => None,
            },
            versions: None,
            version: Some(v.version.clone()),
            git_tag: match &v.git_tag {
                Some(t) => Some(t.clone()),
                None => None,
            },
            git_branch: match &v.git_branch {
                Some(b) => Some(b.clone()),
                None => None,
            },
            dependencies: match &v.dependencies {
                Some(d) => Some(clone_string_pairs(d)),
                None => None,
            },
            unity_version: match &v.unity_version {
                Some(u) => Some(u.clone()),
                None => None,
            },
            is_prerelease: v.is_prerelease,
        }
    }
}

/// A catalog of packages served by one registry.
#[derive(Clone, Debug)]
pub struct PackageRegistry {
    pub name: String,
    pub description: Option<String>,
    pub packages: Vec<Package>,
}

/// A package currently present in the project manifest, with fields derived
/// from the manifest entry and the package's own metadata file.
#[derive(Clone, Debug)]
pub struct InstalledPackage {
    pub name: String,
    pub version: String,
    pub git_url: String,
    pub installed_from_registry: Option<String>,
}

/// Identity and contents of one project.
#[derive(Clone, Debug)]
pub struct ProjectInfo {
    pub path: String,
    pub name: String,
    pub unity_version: Option<String>,
    pub packages: Vec<InstalledPackage>,
}

} // verus!
