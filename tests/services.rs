use user_management::repositories::{rows_changed, RepositoryError};
use user_management::services::{
    JobServiceError, OrganizationServiceError, SaveAction, SaveEvent, SaveStage, UserSave,
    UserServiceError,
};

fn awaiting_job() -> UserSave {
    UserSave { stage: SaveStage::AwaitJob, job_id: 5, organization_id: 7 }
}

#[test]
fn missing_job_stops_the_save() {
    let mut s = awaiting_job();
    assert_eq!(
        s.step(SaveEvent::Found(Ok(false))),
        SaveAction::Finish(Err(UserServiceError::JobNotFound))
    );
    assert_eq!(s.stage, SaveStage::Finished);
}

#[test]
fn missing_organization_stops_the_save() {
    let mut s = awaiting_job();
    s.step(SaveEvent::Found(Ok(true)));
    assert_eq!(
        s.step(SaveEvent::Found(Ok(false))),
        SaveAction::Finish(Err(UserServiceError::OrganizationNotFound))
    );
}

#[test]
fn lookup_failure_is_a_repository_error() {
    let mut s = awaiting_job();
    let e = RepositoryError::DatabaseError("disk full".to_string());
    assert_eq!(
        s.step(SaveEvent::Found(Err(e.clone()))),
        SaveAction::Finish(Err(UserServiceError::RepositoryError(e)))
    );
}

#[test]
fn store_failure_is_a_repository_error() {
    let mut s = awaiting_job();
    s.step(SaveEvent::Found(Ok(true)));
    s.step(SaveEvent::Found(Ok(true)));
    assert_eq!(
        s.step(SaveEvent::Stored(Err(RepositoryError::NotFound))),
        SaveAction::Finish(Err(UserServiceError::RepositoryError(RepositoryError::NotFound)))
    );
}

#[test]
fn out_of_place_events_are_ignored() {
    let mut s = awaiting_job();
    assert_eq!(s.step(SaveEvent::Stored(Ok(()))), SaveAction::Ignore);
    assert_eq!(s.stage, SaveStage::AwaitJob);
    let mut done = UserSave { stage: SaveStage::Finished, job_id: 1, organization_id: 1 };
    assert_eq!(done.step(SaveEvent::Found(Ok(true))), SaveAction::Ignore);
    assert_eq!(done.stage, SaveStage::Finished);
}

#[test]
fn error_messages() {
    assert_eq!(RepositoryError::NotFound.message(), "Entity not found");
    assert_eq!(
        RepositoryError::DatabaseError("locked".to_string()).message(),
        "Database error: locked"
    );
    assert_eq!(
        RepositoryError::ConstraintViolation("unique".to_string()).message(),
        "Constraint violation: unique"
    );
    assert_eq!(UserServiceError::ValidationError.message(), "User validation failed");
    assert_eq!(UserServiceError::JobNotFound.message(), "Job not found");
    assert_eq!(UserServiceError::OrganizationNotFound.message(), "Organization not found");
    assert_eq!(UserServiceError::UserNotFound.message(), "User not found");
    assert_eq!(
        UserServiceError::RepositoryError(RepositoryError::NotFound).message(),
        "Database error: Entity not found"
    );
}

#[test]
fn repository_errors_convert() {
    assert_eq!(
        UserServiceError::from(RepositoryError::NotFound),
        UserServiceError::RepositoryError(RepositoryError::NotFound)
    );
    assert_eq!(
        JobServiceError::from(RepositoryError::NotFound),
        JobServiceError::RepositoryError(RepositoryError::NotFound)
    );
    assert_eq!(
        OrganizationServiceError::from(RepositoryError::NotFound),
        OrganizationServiceError::RepositoryError(RepositoryError::NotFound)
    );
}

#[test]
fn zero_rows_changed_is_not_found() {
    assert_eq!(rows_changed(0), Err(RepositoryError::NotFound));
    assert_eq!(rows_changed(1), Ok(()));
    assert_eq!(rows_changed(3), Ok(()));
}
