//! Trusted boundary to `serde_json` for the two JSON documents the engine
//! works with: the project dependency manifest and the per-package
//! `package.json` metadata file.
//!
//! A well-shaped manifest is a JSON object whose `dependencies` member
//! (when present) is itself an object; its string-valued entries are the
//! dependency map, and everything else in the document is carried through
//! opaquely and reproduced on re-serialization. Any other valid JSON
//! document carries an empty dependency map: readers degrade, and only an
//! operation that must write an entry into the document treats the shape
//! as an error.

use vstd::prelude::*;

verus! {

#[verifier::external_type_specification]
#[verifier::external_body]
pub struct ExValue(serde_json::Value);

#[verifier::external_type_specification]
#[verifier::external_body]
#[verifier::reject_recursive_types(K)]
#[verifier::reject_recursive_types(V)]
pub struct ExMap<K, V>(serde_json::Map<K, V>);

/// The dependency entries of the JSON document written in `text`: `None`
/// when the text is not valid JSON; otherwise the string-valued entries of
/// the document's `dependencies` object as name/reference pairs in the
/// order `serde_json` yields them, the empty sequence when the top level
/// is not an object or the `dependencies` member is not an object.
pub uninterp spec fn manifest_deps_of(text: Seq<char>) -> Option<Seq<(Seq<char>, Seq<char>)>>;

/// The document written in `text` is a JSON object whose `dependencies`
/// member, when present, is an object — the shape into which a dependency
/// entry can be written.
pub uninterp spec fn manifest_writable(text: Seq<char>) -> bool;

/// The canonical text of the document written in `text` outside its
/// `dependencies` member. Meaningful only when `manifest_deps_of(text)` is
/// `Some`.
pub uninterp spec fn manifest_rest_of(text: Seq<char>) -> Seq<char>;

/// The canonical text of a parsed top-level document, its `dependencies`
/// member excluded.
pub uninterp spec fn doc_repr(doc: serde_json::Map<String, serde_json::Value>) -> Seq<char>;

/// The string `version` field of the JSON document written in `text`;
/// `None` when the text does not parse or the field is absent or not a
/// string.
pub uninterp spec fn metadata_version_of(text: Seq<char>) -> Option<Seq<char>>;

/// The string `repository.url` field of the JSON document written in
/// `text`; `None` when the text does not parse or the field is absent or
/// not a string.
pub uninterp spec fn metadata_repo_url_of(text: Seq<char>) -> Option<Seq<char>>;

/// The character-sequence views of a vector of name/reference pairs.
pub open spec fn entry_views(deps: Seq<(String, String)>) -> Seq<(Seq<char>, Seq<char>)> {
    deps.map_values(|p: (String, String)| (p.0@, p.1@))
}

/// No two entries share a name.
pub open spec fn keys_unique(s: Seq<(Seq<char>, Seq<char>)>) -> bool {
    forall|i: int, j: int| 0 <= i < j < s.len() ==> s[i].0 != s[j].0
}

/// The name-to-reference map held by a sequence of entries; on duplicate
/// names the later entry wins.
pub open spec fn pairs_map(s: Seq<(Seq<char>, Seq<char>)>) -> Map<Seq<char>, Seq<char>>
    decreases s.len(),
{
    if s.len() == 0 {
        Map::empty()
    } else {
        pairs_map(s.drop_last()).insert(s.last().0, s.last().1)
    }
}

/// The string-valued entries of the `dependencies` object held by a parsed
/// top-level document, as name/reference pairs in the order `serde_json`
/// yields them.
pub uninterp spec fn doc_deps(doc: serde_json::Map<String, serde_json::Value>) -> Seq<
    (Seq<char>, Seq<char>),
>;

/// Relies on `serde_json::from_str`: parses the manifest document.
/// Parsing is a pure function of the text. It fails exactly when the text
/// is not valid JSON; a valid document of the wrong shape (non-object top
/// level, or a non-object `dependencies` member) comes back as `Ok(None)`,
/// carrying an empty dependency map; a well-shaped document comes back as
/// its top-level object.
#[verifier::external_body]
pub fn parse_doc(text: &str) -> (r: Result<
    Option<serde_json::Map<String, serde_json::Value>>,
    (),
>)
    ensures
        match r {
            Ok(parsed) => match parsed {
                Some(doc) => {
                    &&& manifest_writable(text@)
                    &&& manifest_deps_of(text@) == Some(doc_deps(doc))
                    &&& keys_unique(doc_deps(doc))
                    &&& doc_repr(doc) == manifest_rest_of(text@)
                },
                None => {
                    &&& !manifest_writable(text@)
                    &&& manifest_deps_of(text@) == Some(
                        Seq::<(Seq<char>, Seq<char>)>::empty(),
                    )
                },
            },
            Err(_) => manifest_deps_of(text@) is None,
        },
{
    let doc: serde_json::Value = match serde_json::from_str(text) {
        Ok(v) => v,
        Err(_) => return Err(()),
    };
    let top = match doc {
        serde_json::Value::Object(m) => m,
        _ => return Ok(None),
    };
    match top.get("dependencies") {
        None | Some(serde_json::Value::Object(_)) => Ok(Some(top)),
        Some(_) => Ok(None),
    }
}

/// Relies on `serde_json::Map::remove`: moves the string-valued entries of
/// the document's `dependencies` object out as pairs, in map order. The
/// map holds each key once, so the names are distinct; the rest of the
/// document is untouched.
#[verifier::external_body]
pub fn take_string_deps(doc: &mut serde_json::Map<String, serde_json::Value>) -> (r: Vec<
    (String, String),
>)
    ensures
        entry_views(r@) == doc_deps(*old(doc)),
        keys_unique(entry_views(r@)),
        doc_repr(*final(doc)) == doc_repr(*old(doc)),
        doc_deps(*final(doc)) == Seq::<(Seq<char>, Seq<char>)>::empty(),
{
    let mut deps: Vec<(String, String)> = Vec::new();
    if let Some(serde_json::Value::Object(obj)) = doc.get_mut("dependencies") {
        let names: Vec<String> = obj.iter().filter(|kv| kv.1.is_string()).map(
            |kv| kv.0.clone(),
        ).collect();
        for name in names {
            if let Some(serde_json::Value::String(s)) = obj.remove(&name) {
                deps.push((name, s));
            }
        }
    }
    deps
}

/// Relies on `serde_json::to_string_pretty` and `serde_json::Map`:
/// serializes the carried document with its `dependencies` object rebuilt
/// to hold exactly the given pairs as its string-valued entries, keeping
/// any non-string entries the container already had. `serde_json` re-parses
/// its own output to an equal document, so the output's dependency map is
/// exactly the given pairs and the rest of the document is unchanged.
#[verifier::external_body]
pub fn manifest_render(
    rest: &serde_json::Map<String, serde_json::Value>,
    deps: &Vec<(String, String)>,
) -> (r: String)
    requires
        keys_unique(entry_views(deps@)),
    ensures
        manifest_writable(r@),
        manifest_deps_of(r@) is Some,
        keys_unique(manifest_deps_of(r@)->Some_0),
        pairs_map(manifest_deps_of(r@)->Some_0) == pairs_map(entry_views(deps@)),
        manifest_rest_of(r@) == doc_repr(*rest),
{
    let mut doc = rest.clone();
    let mut container = match doc.remove("dependencies") {
        Some(serde_json::Value::Object(obj)) => obj,
        _ => serde_json::Map::new(),
    };
    container.retain(|_, v| !v.is_string());
    for kv in deps.iter() {
        container.insert(kv.0.clone(), serde_json::Value::String(kv.1.clone()));
    }
    doc.insert("dependencies".to_string(), serde_json::Value::Object(container));
    serde_json::to_string_pretty(&serde_json::Value::Object(doc)).unwrap()
}

/// Relies on `serde_json::from_str` and `serde_json::Value::get`/`as_str`:
/// reads the string `version` field of a metadata document.
#[verifier::external_body]
pub fn metadata_version_field(text: &str) -> (r: Option<String>)
    ensures
        match r {
            Some(v) => metadata_version_of(text@) == Some(v@),
            None => metadata_version_of(text@) is None,
        },
{
    let doc: serde_json::Value = serde_json::from_str(text).ok()?;
    doc.get("version").and_then(|v| v.as_str()).map(|s| s.to_string())
}

/// Relies on `serde_json::from_str` and `serde_json::Value::get`/`as_str`:
/// reads the string `repository.url` field of a metadata document.
#[verifier::external_body]
pub fn metadata_repo_url_field(text: &str) -> (r: Option<String>)
    ensures
        match r {
            Some(u) => metadata_repo_url_of(text@) == Some(u@),
            None => metadata_repo_url_of(text@) is None,
        },
{
    let doc: serde_json::Value = serde_json::from_str(text).ok()?;
    doc.get("repository").and_then(|rep| rep.get("url")).and_then(|u| u.as_str()).map(
        |s| s.to_string(),
    )
}

} // verus!
