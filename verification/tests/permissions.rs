use ctf_bot::perm::has_admin_role;

#[test]
fn admin_role_present_allows() {
    assert!(has_admin_role(&Some(vec![5, 42, 7]), 42));
    assert!(has_admin_role(&Some(vec![42]), 42));
}

#[test]
fn role_set_without_admin_role_denies() {
    assert!(!has_admin_role(&Some(vec![5, 7, 9]), 42));
    assert!(!has_admin_role(&Some(vec![]), 42));
    assert!(!has_admin_role(&Some(vec![41, 43]), 42));
}

#[test]
fn absent_member_context_denies_for_any_role_id() {
    assert!(!has_admin_role(&None, 0));
    assert!(!has_admin_role(&None, 42));
    assert!(!has_admin_role(&None, u64::MAX));
}
