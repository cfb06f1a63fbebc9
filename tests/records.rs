use user_management::entity::Entity;
use user_management::errors::{ErrorMap, Field, FieldError};
use user_management::job::Job;
use user_management::organization::Organization;
use user_management::user::User;
use user_management::validation::{check_name, check_name_given, check_selection};

fn user_named(name: &str) -> User {
    let mut u = User::new();
    u.set_name(name.to_string());
    u
}

#[test]
fn blank_name_is_required() {
    assert_eq!(check_name(""), Some(FieldError::NameRequired));
    assert_eq!(check_name("   "), Some(FieldError::NameRequired));
    assert_eq!(check_name("\t\n "), Some(FieldError::NameRequired));
}

#[test]
fn one_or_two_characters_are_too_short() {
    assert_eq!(check_name("A"), Some(FieldError::NameTooShort));
    assert_eq!(check_name("Al"), Some(FieldError::NameTooShort));
}

#[test]
fn surrounding_whitespace_does_not_count_toward_the_minimum() {
    assert_eq!(check_name("  ab  "), Some(FieldError::NameTooShort));
    assert_eq!(check_name(" abc "), None);
}

#[test]
fn three_to_fifty_characters_pass() {
    assert_eq!(check_name("Bob"), None);
    assert_eq!(check_name(&"x".repeat(50)), None);
}

#[test]
fn more_than_fifty_characters_are_too_long() {
    assert_eq!(check_name(&"x".repeat(51)), Some(FieldError::NameTooLong));
}

#[test]
fn name_rule_given_lengths() {
    assert_eq!(check_name_given("  ", ""), Some(FieldError::NameRequired));
    assert_eq!(check_name_given(" ab ", "ab"), Some(FieldError::NameTooShort));
    assert_eq!(check_name_given("abc", "abc"), None);
}

#[test]
fn zero_selection_is_missing() {
    assert_eq!(check_selection(0, FieldError::JobRequired), Some(FieldError::JobRequired));
    assert_eq!(check_selection(5, FieldError::JobRequired), None);
}

#[test]
fn user_validation_collects_every_failure() {
    let mut u = user_named("Al");
    let errors = u.validate().unwrap_err();
    assert_eq!(errors.get(Field::Name), Some(FieldError::NameTooShort));
    assert_eq!(errors.get(Field::JobId), Some(FieldError::JobRequired));
    assert_eq!(errors.get(Field::OrganizationId), Some(FieldError::OrganizationRequired));
    assert_eq!(u.errors(), errors);
}

#[test]
fn user_validation_replaces_stale_errors() {
    let mut u = user_named("Al");
    let _ = u.validate();
    u.set_name("Alice".to_string());
    u.set_job_id(5);
    u.set_organization_id(7);
    assert!(u.validate().is_ok());
    assert!(u.errors().is_empty());
}

#[test]
fn validate_property_touches_one_entry() {
    let mut u = user_named("Al");
    let _ = u.validate();
    u.set_job_id(3);
    u.validate_property(Field::JobId);
    let errors = u.errors();
    assert_eq!(errors.get(Field::JobId), None);
    assert_eq!(errors.get(Field::Name), Some(FieldError::NameTooShort));
    assert_eq!(errors.get(Field::OrganizationId), Some(FieldError::OrganizationRequired));
}

#[test]
fn job_and_organization_check_the_name_only() {
    let mut j = Job::new();
    j.set_name("Engineer".to_string());
    assert!(j.validate().is_ok());
    let mut o = Organization::new();
    o.set_name("  ".to_string());
    let errors = o.validate().unwrap_err();
    assert_eq!(errors.get(Field::Name), Some(FieldError::NameRequired));
    assert_eq!(errors.get(Field::JobId), None);
}

#[test]
fn clear_errors_empties_the_map() {
    let mut u = user_named("");
    let _ = u.validate();
    assert!(!u.errors().is_empty());
    u.clear_errors();
    assert!(u.errors().is_empty());
}

#[test]
fn error_map_operations() {
    let mut m = ErrorMap::new();
    assert!(m.is_empty());
    m.insert(Field::Name, FieldError::NameTooLong);
    assert_eq!(m.get(Field::Name), Some(FieldError::NameTooLong));
    m.set(Field::JobId, Some(FieldError::JobRequired));
    m.set(Field::Name, None);
    assert_eq!(m.get(Field::Name), None);
    assert_eq!(m.get(Field::JobId), Some(FieldError::JobRequired));
    m.remove(Field::JobId);
    assert!(m.is_empty());
    m.insert(Field::OrganizationId, FieldError::OrganizationRequired);
    m.clear();
    assert!(m.is_empty());
}

#[test]
fn field_error_messages() {
    assert_eq!(FieldError::NameRequired.message(), "Name is required");
    assert_eq!(FieldError::NameTooShort.message(), "Name must be at least 3 characters");
    assert_eq!(FieldError::NameTooLong.message(), "Name must be under 50 characters");
    assert_eq!(FieldError::JobRequired.message(), "Job selection is required");
    assert_eq!(
        FieldError::OrganizationRequired.message(),
        "Organization selection is required"
    );
}

#[test]
fn user_accessors() {
    let mut u = User::new();
    assert_eq!(u.id(), 0);
    assert_eq!(u.name(), "");
    u.set_id(4);
    u.set_job_id(2);
    u.set_organization_id(9);
    assert_eq!(u.id(), 4);
    assert_eq!(u.job_id(), 2);
    assert_eq!(u.organization_id(), 9);
    let copy = u.duplicate();
    assert_eq!(copy.id(), 4);
    assert_eq!(copy.job_id(), 2);
    assert_eq!(copy.organization_id(), 9);
}

#[test]
fn unicode_whitespace_is_trimmed() {
    assert_eq!(check_name("\u{3000}\u{a0}"), Some(FieldError::NameRequired));
    assert_eq!(check_name("\u{2003}ab\u{2003}"), Some(FieldError::NameTooShort));
    assert_eq!(check_name("\u{2003}abc\u{85}"), None);
}
