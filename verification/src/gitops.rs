//! Decision logic for the version-control driver: which refs to look up,
//! which refspecs to fetch, the try-locally / fetch-everything / retry-once
//! checkout policy, and the tag listing.
//!
//! The caller owns the git repository handle and performs the lookups,
//! fetches, checkouts and hard resets that these decisions name.

use vstd::prelude::*;
use vstd::string::StrSliceExecFns;
use vstd::string::StringExecFns;
use crate::installer::version_or_unknown;
use crate::models::opt_text_view;
use crate::jsonio::{metadata_version_field, metadata_version_of};
use crate::strutil::{
    concat2, has_prefix, lemma_lex_total, lemma_lex_trans, lex_leq, lex_sorted, str_lex_leq,
    str_views, substring_owned,
};

verus! {

/// Whether a ref lookup in the local repository succeeded.
#[derive(Clone, Copy, Debug, PartialEq, Eq, Structural)]
pub enum RefLookup {
    Found,
    Missing,
}

/// Where a checkout stands: before or after the one full refetch it is
/// allowed.
#[derive(Clone, Copy, Debug, PartialEq, Eq, Structural)]
pub enum CheckoutPhase {
    FirstAttempt,
    AfterFetch,
}

/// What a checkout does next.
#[derive(Clone, Copy, Debug, PartialEq, Eq, Structural)]
pub enum CheckoutStep {
    /// Detach the head at the ref's commit and hard-reset the working tree.
    ResetToRef,
    /// Fetch every ref from `origin`, then look the ref up once more.
    FetchAllAndRetry,
    /// The ref is absent even after the refetch: fail, touching nothing.
    GiveUp,
}

/// The checkout policy: a found ref is reset to; a miss earns one full
/// refetch; a miss after the refetch gives up.
pub open spec fn checkout_step_spec(phase: CheckoutPhase, lookup: RefLookup) -> CheckoutStep {
    match lookup {
        RefLookup::Found => CheckoutStep::ResetToRef,
        RefLookup::Missing => match phase {
            CheckoutPhase::FirstAttempt => CheckoutStep::FetchAllAndRetry,
            CheckoutPhase::AfterFetch => CheckoutStep::GiveUp,
        },
    }
}

/// Decide the next step of a tag or branch checkout.
pub fn checkout_step(phase: CheckoutPhase, lookup: RefLookup) -> (r: CheckoutStep)
    ensures
        r == checkout_step_spec(phase, lookup),
{
    match lookup {
        RefLookup::Found => CheckoutStep::ResetToRef,
        RefLookup::Missing => match phase {
            CheckoutPhase::FirstAttempt => CheckoutStep::FetchAllAndRetry,
            CheckoutPhase::AfterFetch => CheckoutStep::GiveUp,
        },
    }
}

/// The working tree is reset exactly when the ref was found — a missing
/// ref never causes a partial reset — and the checkout gives up exactly
/// when the ref is still missing after the full refetch.
pub proof fn lemma_checkout_touches_nothing_on_miss(phase: CheckoutPhase, lookup: RefLookup)
    ensures
        (checkout_step_spec(phase, lookup) == CheckoutStep::ResetToRef) <==> lookup
            == RefLookup::Found,
        (checkout_step_spec(phase, lookup) == CheckoutStep::GiveUp) <==> (phase
            == CheckoutPhase::AfterFetch && lookup == RefLookup::Missing),
{
}

/// The prefix of local tag refs.
pub open spec fn tag_ref_prefix() -> Seq<char> {
    "refs/tags/"@
}

/// The tag names among a repository's ref names, in their given order.
pub open spec fn tag_names_spec(refs: Seq<Seq<char>>) -> Seq<Seq<char>>
    decreases refs.len(),
{
    if refs.len() == 0 {
        Seq::empty()
    } else {
        let rest = tag_names_spec(refs.drop_last());
        if tag_ref_prefix().is_prefix_of(refs.last()) {
            rest.push(refs.last().skip(tag_ref_prefix().len() as int))
        } else {
            rest
        }
    }
}

/// Wraps the git driver decisions; it holds no state of its own.
pub struct GitOperations;

impl GitOperations {
    /// The refspec fetched right after a clone, so that every tag is
    /// present locally even when the clone did not retrieve them eagerly.
    pub fn clone_tags_refspec() -> (r: &'static str)
        ensures
            r@ == "+refs/tags/*:refs/tags/*"@,
    {
        "+refs/tags/*:refs/tags/*"
    }

    /// The refspec of the one full refetch a failing tag checkout earns.
    pub fn all_refs_refspec() -> (r: &'static str)
        ensures
            r@ == "+refs/*:refs/*"@,
    {
        "+refs/*:refs/*"
    }

    /// The refspec of the refetch a failing branch checkout earns.
    pub fn branches_refspec() -> (r: &'static str)
        ensures
            r@ == "+refs/heads/*:refs/remotes/origin/*"@,
    {
        "+refs/heads/*:refs/remotes/origin/*"
    }

    /// The local ref looked up for a tag.
    pub fn tag_ref_name(tag: &str) -> (r: String)
        ensures
            r@ == "refs/tags/"@ + tag@,
    {
        concat2("refs/tags/", tag)
    }

    /// The remote-tracking ref looked up for a branch.
    pub fn branch_ref_name(branch: &str) -> (r: String)
        ensures
            r@ == "refs/remotes/origin/"@ + branch@,
    {
        concat2("refs/remotes/origin/", branch)
    }

    /// The version a checkout reports, read from its own metadata file:
    /// the string `version` field, or the `unknown` sentinel when the file
    /// is absent or unreadable or the field is missing. Never an error: a
    /// broken metadata file must not fail the caller.
    pub fn get_current_version_from_package_json(metadata_text: Option<&str>) -> (r: String)
        ensures
            r@ == version_or_unknown(
                match opt_text_view(metadata_text) {
                    Some(t) => metadata_version_of(t),
                    None => None,
                },
            ),
    {
        match metadata_text {
            Some(t) => match metadata_version_field(t) {
                Some(v) => v,
                None => String::from_str("unknown"),
            },
            None => String::from_str("unknown"),
        }
    }

    /// The tag names found among the given ref names, in ascending
    /// lexicographic order.
    pub fn list_available_tags(ref_names: &Vec<String>) -> (r: Vec<String>)
        ensures
            lex_sorted(str_views(r@)),
            str_views(r@).to_multiset() == tag_names_spec(str_views(ref_names@)).to_multiset(),
    {
        proof {
            reveal_strlit("refs/tags/");
        }
        let n = ref_names.len();
        let mut found: Vec<String> = Vec::new();
        let mut i: usize = 0;
        while i < n
            invariant
                i <= n,
                n == ref_names@.len(),
                tag_ref_prefix().len() == 10,
                str_views(found@) =~= tag_names_spec(str_views(ref_names@).take(i as int)),
            decreases n - i,
        {
            let ghost pre = str_views(found@);
            let name = &ref_names[i];
            if has_prefix(name.as_str(), "refs/tags/") {
                let len = name.as_str().unicode_len();
                let tag = substring_owned(name.as_str(), 10, len);
                found.push(tag);
                proof {
                    assert(name@.skip(10) =~= name@.subrange(10, name@.len() as int));
                    assert(str_views(found@) =~= pre.push(name@.skip(10)));
                }
            }
            proof {
                let refs = str_views(ref_names@);
                assert(refs.take(i + 1).drop_last() =~= refs.take(i as int));
                assert(refs.take(i + 1).last() == ref_names@[i as int]@);
                assert(str_views(found@) =~= tag_names_spec(refs.take(i + 1)));
            }
            i += 1;
        }
        proof {
            assert(str_views(ref_names@).take(n as int) =~= str_views(ref_names@));
        }
        let m = found.len();
        let mut sorted: Vec<String> = Vec::new();
        proof {
            assert(str_views(sorted@) =~= str_views(found@.take(0)));
        }
        let mut j: usize = 0;
        while j < m
            invariant
                j <= m,
                m == found@.len(),
                lex_sorted(str_views(sorted@)),
                str_views(sorted@).to_multiset() == str_views(found@.take(j as int)).to_multiset(),
            decreases m - j,
        {
            let ghost pre = str_views(found@.take(j as int));
            insert_sorted(&mut sorted, found[j].clone());
            proof {
                assert(str_views(found@.take(j + 1)) =~= pre.push(found@[j as int]@));
                vstd::seq_lib::to_multiset_build(pre, found@[j as int]@);
            }
            j += 1;
        }
        proof {
            assert(found@.take(m as int) =~= found@);
        }
        sorted
    }
}

/// The first position of `v` whose entry is not at most `x`.
fn lower_position(v: &Vec<String>, x: &str) -> (p: usize)
    requires
        lex_sorted(str_views(v@)),
    ensures
        p <= v@.len(),
        forall|k: int| 0 <= k < p ==> lex_leq(v@[k]@, x@),
        p < v@.len() ==> !lex_leq(v@[p as int]@, x@),
{
    let n = v.len();
    let mut p: usize = 0;
    while p < n
        invariant
            p <= n,
            n == v@.len(),
            forall|k: int| 0 <= k < p ==> lex_leq(v@[k]@, x@),
        decreases n - p,
    {
        if !str_lex_leq(v[p].as_str(), x) {
            return p;
        }
        p += 1;
    }
    p
}

/// Insert `x` into a sorted vector, keeping it sorted.
fn insert_sorted(v: &mut Vec<String>, x: String)
    requires
        lex_sorted(str_views(old(v)@)),
    ensures
        lex_sorted(str_views(final(v)@)),
        str_views(final(v)@).to_multiset() == str_views(old(v)@).to_multiset().insert(x@),
{
    let ghost s0 = str_views(v@);
    let p = lower_position(v, x.as_str());
    proof {
        if (p as int) < s0.len() {
            lemma_lex_total(s0[p as int], x@);
        }
        assert forall|k: int| p <= k < s0.len() implies lex_leq(x@, s0[k]) by {
            lemma_lex_total(s0[p as int], x@);
            if k > p {
                lemma_lex_trans(x@, s0[p as int], s0[k]);
            }
        }
    }
    v.insert(p, x);
    proof {
        let s1 = str_views(v@);
        assert(s1 =~= s0.insert(p as int, x@));
        vstd::seq_lib::to_multiset_insert(s0, p as int, x@);
        assert forall|a: int, b: int| 0 <= a < b < s1.len() implies lex_leq(s1[a], s1[b]) by {
            if b < p {
                assert(s1[a] == s0[a] && s1[b] == s0[b]);
            } else if a < p && b == p {
                assert(s1[a] == s0[a] && s1[b] == x@);
            } else if a < p && b > p {
                assert(s1[a] == s0[a] && s1[b] == s0[b - 1]);
            } else if a == p {
                assert(s1[a] == x@ && s1[b] == s0[b - 1]);
            } else {
                assert(s1[a] == s0[a - 1] && s1[b] == s0[b - 1]);
            }
        }
    }
}

} // verus!
