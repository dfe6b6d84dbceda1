use docsort::instance::check_single_instance;

#[test]
fn only_the_first_claim_is_single() {
    let first = check_single_instance().expect("the check can be made");
    assert!(first.is_some());
    let second = check_single_instance().expect("the check can be made");
    assert!(second.is_none());
    drop(first);
    let third = check_single_instance().expect("the check can be made");
    assert!(third.is_some());
}
