use entity_cache::attr::{UnacceptableForm, ValueKind, is_form_acceptable, validate};

#[test]
fn exact_form_is_accepted() {
    let expect = vec![ValueKind::Equals, ValueKind::SingleList];
    assert!(is_form_acceptable(&expect, ValueKind::Equals));
    assert!(is_form_acceptable(&expect, ValueKind::SingleList));
}

#[test]
fn single_list_passes_where_a_list_is_expected() {
    let expect = vec![ValueKind::List];
    assert!(is_form_acceptable(&expect, ValueKind::SingleList));
    assert!(is_form_acceptable(&expect, ValueKind::List));
}

#[test]
fn unlisted_forms_are_rejected() {
    let expect = vec![ValueKind::Name];
    assert!(!is_form_acceptable(&expect, ValueKind::Equals));
    assert!(!is_form_acceptable(&expect, ValueKind::List));
}

#[test]
fn a_list_never_passes_as_a_single_value() {
    let expect = vec![ValueKind::SingleList];
    assert!(!is_form_acceptable(&expect, ValueKind::List));
}

#[test]
fn validate_accepts_exactly_the_acceptable_forms() {
    let forms = vec![ValueKind::Name, ValueKind::List];
    assert_eq!(validate(ValueKind::Name, &forms), Ok(()));
    assert_eq!(validate(ValueKind::SingleList, &forms), Ok(()));
    assert_eq!(validate(ValueKind::Equals, &forms), Err(UnacceptableForm));
}
