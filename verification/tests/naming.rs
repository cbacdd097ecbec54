use fem_ui::names::next_contact_name;

#[test]
fn contact_names_skip_existing_numbers_ignoring_case() {
    assert_eq!(next_contact_name(&vec![]), "CONTACT_1");
    let existing = vec!["contact_2".to_string(), "Other".to_string()];
    assert_eq!(next_contact_name(&existing), "CONTACT_3");
    let existing = vec!["A".to_string(), "CONTACT_3".to_string(), "b".to_string()];
    assert_eq!(next_contact_name(&existing), "CONTACT_4");
}
