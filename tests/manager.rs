use user_management::entity::Entity;
use user_management::entity_manager::{find_index, largest_id, EntityManager, ManagerError};
use user_management::entity_state::EntityState;
use user_management::errors::{Field, FieldError};
use user_management::job::Job;
use user_management::user::User;

fn job_manager_with(names: &[&str]) -> EntityManager<Job> {
    let mut m: EntityManager<Job> = EntityManager::new();
    for n in names {
        m.name_changed(n.to_string());
        m.create().unwrap();
    }
    m
}

fn ids(m: &EntityManager<Job>) -> Vec<usize> {
    m.list.iter().map(|j| j.id()).collect()
}

fn names(m: &EntityManager<Job>) -> Vec<String> {
    m.list.iter().map(|j| j.name().to_string()).collect()
}

#[test]
fn create_appends_one_with_next_id() {
    let mut m = job_manager_with(&["Engineer", "Designer"]);
    m.name_changed("Manager".to_string());
    let saved = m.create().unwrap();
    assert_eq!(saved.id(), 3);
    assert_eq!(saved.name(), "Manager");
    assert_eq!(ids(&m), vec![1, 2, 3]);
    assert!(!m.is_edit);
    assert_eq!(m.current.id(), 0);
    assert_eq!(m.current.name(), "");
}

#[test]
fn create_after_delete_stays_above_the_largest_id() {
    let mut m = job_manager_with(&["Engineer", "Designer", "Manager"]);
    m.delete(1).unwrap();
    m.name_changed("Tester".to_string());
    let saved = m.create().unwrap();
    assert_eq!(saved.id(), 4);
    assert_eq!(ids(&m), vec![2, 3, 4]);
}

#[test]
fn invalid_create_is_repeatable_and_appends_nothing() {
    let mut m = job_manager_with(&["Engineer"]);
    m.name_changed("X".to_string());
    let first = m.create();
    let second = m.create();
    let first = first.err();
    let second = second.err();
    match first {
        Some(ManagerError::Validation(e)) => {
            assert_eq!(e.get(Field::Name), Some(FieldError::NameTooShort))
        }
        _ => panic!("a one-character name must be refused"),
    }
    assert_eq!(first, second);
    assert_eq!(ids(&m), vec![1]);
    assert_eq!(m.current.name(), "X");
}

#[test]
fn create_while_editing_saves_a_new_record() {
    let mut m = job_manager_with(&["Engineer", "Designer"]);
    m.load(1).unwrap();
    m.name_changed("Architect".to_string());
    let saved = m.create().unwrap();
    assert_eq!(saved.id(), 3);
    assert_eq!(saved.name(), "Architect");
    assert_eq!(ids(&m), vec![1, 2, 3]);
    assert_eq!(names(&m), vec!["Engineer", "Designer", "Architect"]);
    assert!(!m.is_edit);
    assert_eq!(m.current.id(), 0);
}

#[test]
fn invalid_create_while_editing_recomputes_errors() {
    let mut m = job_manager_with(&["Engineer"]);
    m.load(1).unwrap();
    m.name_changed("".to_string());
    let r = m.create();
    match r.err() {
        Some(ManagerError::Validation(e)) => {
            assert_eq!(e.get(Field::Name), Some(FieldError::NameRequired))
        }
        _ => panic!("a blank name must be refused"),
    }
    assert_eq!(m.current.errors().get(Field::Name), Some(FieldError::NameRequired));
    assert!(m.is_edit);
    assert_eq!(ids(&m), vec![1]);
}

#[test]
fn load_then_cancel_leaves_list_unchanged() {
    let mut m = job_manager_with(&["Engineer", "Designer"]);
    let before = names(&m);
    m.load(2).unwrap();
    assert!(m.is_edit);
    assert_eq!(m.current.id(), 2);
    assert_eq!(m.current.name(), "Designer");
    m.cancel_edit();
    assert_eq!(names(&m), before);
    assert_eq!(ids(&m), vec![1, 2]);
    assert!(!m.is_edit);
    assert_eq!(m.current.id(), 0);
    assert_eq!(m.current.name(), "");
    assert!(m.current.errors().is_empty());
}

#[test]
fn cancel_is_idempotent() {
    let mut m = job_manager_with(&["Engineer"]);
    m.name_changed("Dr".to_string());
    m.cancel_edit();
    m.cancel_edit();
    assert_eq!(m.current.name(), "");
    assert!(!m.is_edit);
    assert_eq!(ids(&m), vec![1]);
}

#[test]
fn load_of_unknown_id_is_not_found() {
    let mut m = job_manager_with(&["Engineer"]);
    assert_eq!(m.load(9), Err(ManagerError::NotFound));
    assert!(!m.is_edit);
}

#[test]
fn update_while_composing_is_refused() {
    let mut m = job_manager_with(&["Engineer"]);
    m.name_changed("Architect".to_string());
    assert_eq!(m.update(), Err(ManagerError::WrongMode));
    assert_eq!(names(&m), vec!["Engineer".to_string()]);
}

#[test]
fn update_replaces_only_the_loaded_record() {
    let mut m = job_manager_with(&["Engineer", "Designer", "Manager"]);
    m.load(2).unwrap();
    m.name_changed("Illustrator".to_string());
    m.update().unwrap();
    assert_eq!(ids(&m), vec![1, 2, 3]);
    assert_eq!(names(&m), vec!["Engineer", "Illustrator", "Manager"]);
    assert!(!m.is_edit);
    assert_eq!(m.current.id(), 0);
}

#[test]
fn update_with_invalid_draft_keeps_list() {
    let mut m = job_manager_with(&["Engineer"]);
    m.load(1).unwrap();
    m.name_changed("".to_string());
    let r = m.update();
    assert!(matches!(r, Err(ManagerError::Validation(_))));
    assert_eq!(names(&m), vec!["Engineer"]);
    assert!(m.is_edit);
}

#[test]
fn update_of_deleted_record_is_not_found() {
    let mut m = job_manager_with(&["Engineer", "Designer"]);
    m.load(1).unwrap();
    m.delete(1).unwrap();
    assert_eq!(m.update(), Err(ManagerError::NotFound));
    assert_eq!(ids(&m), vec![2]);
}

#[test]
fn delete_removes_exactly_one() {
    let mut m = job_manager_with(&["Engineer", "Designer", "Manager"]);
    m.delete(2).unwrap();
    assert_eq!(ids(&m), vec![1, 3]);
    assert_eq!(names(&m), vec!["Engineer", "Manager"]);
}

#[test]
fn delete_of_unknown_id_is_not_found() {
    let mut m = job_manager_with(&["Engineer"]);
    assert_eq!(m.delete(7), Err(ManagerError::NotFound));
    assert_eq!(ids(&m), vec![1]);
}

#[test]
fn name_changed_gives_live_feedback() {
    let mut m: EntityManager<Job> = EntityManager::new();
    m.name_changed("ab".to_string());
    assert_eq!(m.current.errors().get(Field::Name), Some(FieldError::NameTooShort));
    m.name_changed("abc".to_string());
    assert_eq!(m.current.errors().get(Field::Name), None);
}

#[test]
fn field_selected_sets_and_checks_one_key() {
    let mut m: EntityManager<User> = EntityManager::new();
    m.field_selected(Field::JobId, 0);
    assert_eq!(m.current.errors().get(Field::JobId), Some(FieldError::JobRequired));
    assert_eq!(m.current.errors().get(Field::OrganizationId), None);
    m.field_selected(Field::JobId, 4);
    assert_eq!(m.current.job_id(), 4);
    assert_eq!(m.current.errors().get(Field::JobId), None);
    m.field_selected(Field::OrganizationId, 6);
    assert_eq!(m.current.organization_id(), 6);
}

#[test]
fn helpers_find_and_maximum() {
    let m = job_manager_with(&["Engineer", "Designer"]);
    assert_eq!(find_index(&m.list, 2), Some(1));
    assert_eq!(find_index(&m.list, 5), None);
    assert_eq!(largest_id(&m.list), 2);
    let empty: Vec<Job> = Vec::new();
    assert_eq!(largest_id(&empty), 0);
}

#[test]
fn entity_state_starts_blank_and_cancels() {
    let mut s: EntityState<Job> = EntityState::new();
    assert!(!s.is_edit);
    assert!(s.list.is_empty());
    s.current.set_name("Pilot".to_string());
    s.is_edit = true;
    s.cancel_edit();
    assert_eq!(s.current.name(), "");
    assert!(!s.is_edit);
}

#[test]
fn manager_error_messages() {
    assert_eq!(ManagerError::NotFound.message(), "Entity not found");
    assert_eq!(ManagerError::WrongMode.message(), "Not available in the current mode");
    assert_eq!(ManagerError::IdsExhausted.message(), "No identifiers are left");
    let mut j = Job::new();
    let e = j.validate().unwrap_err();
    assert_eq!(
        ManagerError::Validation(e).message(),
        "Please correct the highlighted fields"
    );
}
