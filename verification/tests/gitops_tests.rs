use unity_package_manager::gitops::{
    checkout_step, CheckoutPhase, CheckoutStep, GitOperations, RefLookup,
};

#[test]
fn checkout_resets_when_the_ref_is_found() {
    assert_eq!(
        checkout_step(CheckoutPhase::FirstAttempt, RefLookup::Found),
        CheckoutStep::ResetToRef
    );
    assert_eq!(
        checkout_step(CheckoutPhase::AfterFetch, RefLookup::Found),
        CheckoutStep::ResetToRef
    );
}

#[test]
fn checkout_misses_earn_one_refetch_then_fail() {
    assert_eq!(
        checkout_step(CheckoutPhase::FirstAttempt, RefLookup::Missing),
        CheckoutStep::FetchAllAndRetry
    );
    assert_eq!(
        checkout_step(CheckoutPhase::AfterFetch, RefLookup::Missing),
        CheckoutStep::GiveUp
    );
}

#[test]
fn ref_names_and_refspecs() {
    assert_eq!(GitOperations::tag_ref_name("1.2.0"), "refs/tags/1.2.0");
    assert_eq!(GitOperations::branch_ref_name("main"), "refs/remotes/origin/main");
    assert_eq!(GitOperations::clone_tags_refspec(), "+refs/tags/*:refs/tags/*");
    assert_eq!(GitOperations::all_refs_refspec(), "+refs/*:refs/*");
    assert_eq!(GitOperations::branches_refspec(), "+refs/heads/*:refs/remotes/origin/*");
}

#[test]
fn list_available_tags_filters_and_sorts() {
    let refs = vec![
        "refs/heads/main".to_string(),
        "refs/tags/2.0.0".to_string(),
        "refs/tags/1.0.0".to_string(),
        "refs/remotes/origin/dev".to_string(),
        "refs/tags/1.10.0".to_string(),
    ];
    let tags = GitOperations::list_available_tags(&refs);
    assert_eq!(tags, vec!["1.0.0", "1.10.0", "2.0.0"]);
}

#[test]
fn list_available_tags_of_nothing() {
    let tags = GitOperations::list_available_tags(&Vec::new());
    assert!(tags.is_empty());
}

#[test]
fn version_from_metadata_text() {
    assert_eq!(
        GitOperations::get_current_version_from_package_json(Some(r#"{"version": "1.2.3"}"#)),
        "1.2.3"
    );
}

#[test]
fn version_sentinel_when_metadata_is_missing() {
    assert_eq!(GitOperations::get_current_version_from_package_json(None), "unknown");
}

#[test]
fn version_sentinel_when_metadata_is_malformed() {
    assert_eq!(GitOperations::get_current_version_from_package_json(Some("not json")), "unknown");
}

#[test]
fn version_sentinel_when_the_field_is_absent() {
    assert_eq!(
        GitOperations::get_current_version_from_package_json(Some(r#"{"name": "p"}"#)),
        "unknown"
    );
}
