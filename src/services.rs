use vstd::prelude::*;
use vstd::string::StringExecFns;
use crate::entity::{Entity, is_valid, rule_errors};
use crate::repositories::RepositoryError;
use crate::user::User;

verus! {

/// Why saving a user failed.
#[derive(Clone, Debug, PartialEq, Eq)]
pub enum UserServiceError {
    ValidationError,
    JobNotFound,
    OrganizationNotFound,
    UserNotFound,
    RepositoryError(RepositoryError),
}

impl From<RepositoryError> for UserServiceError {
    fn from(e: RepositoryError) -> (r: UserServiceError) {
        UserServiceError::RepositoryError(e)
    }
}

impl vstd::std_specs::convert::FromSpecImpl<RepositoryError> for UserServiceError {
    open spec fn obeys_from_spec() -> bool {
        true
    }

    open spec fn from_spec(e: RepositoryError) -> UserServiceError {
        UserServiceError::RepositoryError(e)
    }
}

impl UserServiceError {
    /// The message shown for the error.
    pub fn message(&self) -> (r: String)
        ensures
            r@ == match self {
                UserServiceError::ValidationError => "User validation failed"@,
                UserServiceError::JobNotFound => "Job not found"@,
                UserServiceError::OrganizationNotFound => "Organization not found"@,
                UserServiceError::UserNotFound => "User not found"@,
                UserServiceError::RepositoryError(e) => "Database error: "@ + e.message_view(),
            },
    {
        match self {
            UserServiceError::ValidationError => "User validation failed".to_owned(),
            UserServiceError::JobNotFound => "Job not found".to_owned(),
            UserServiceError::OrganizationNotFound => "Organization not found".to_owned(),
            UserServiceError::UserNotFound => "User not found".to_owned(),
            UserServiceError::RepositoryError(e) => {
                let m = e.message();
                "Database error: ".to_owned().concat(m.as_str())
            },
        }
    }
}

/// Why saving a job failed.
#[derive(Clone, Debug, PartialEq, Eq)]
pub enum JobServiceError {
    ValidationError,
    RepositoryError(RepositoryError),
}

impl From<RepositoryError> for JobServiceError {
    fn from(e: RepositoryError) -> (r: JobServiceError) {
        JobServiceError::RepositoryError(e)
    }
}

impl vstd::std_specs::convert::FromSpecImpl<RepositoryError> for JobServiceError {
    open spec fn obeys_from_spec() -> bool {
        true
    }

    open spec fn from_spec(e: RepositoryError) -> JobServiceError {
        JobServiceError::RepositoryError(e)
    }
}

/// Why saving an organization failed.
#[derive(Clone, Debug, PartialEq, Eq)]
pub enum OrganizationServiceError {
    ValidationError,
    RepositoryError(RepositoryError),
}

impl From<RepositoryError> for OrganizationServiceError {
    fn from(e: RepositoryError) -> (r: OrganizationServiceError) {
        OrganizationServiceError::RepositoryError(e)
    }
}

impl vstd::std_specs::convert::FromSpecImpl<RepositoryError> for OrganizationServiceError {
    open spec fn obeys_from_spec() -> bool {
        true
    }

    open spec fn from_spec(e: RepositoryError) -> OrganizationServiceError {
        OrganizationServiceError::RepositoryError(e)
    }
}

/// Where the save of a user stands. Before a user is stored, its job and
/// its organization are looked up in the store itself, one after the other.
#[derive(Clone, Copy, Debug, PartialEq, Eq, Structural)]
pub enum SaveStage {
    AwaitJob,
    AwaitOrganization,
    AwaitStore,
    Finished,
}

/// What the store reported to a save in progress.
#[derive(Debug, PartialEq, Eq)]
pub enum SaveEvent {
    /// A lookup by identity: whether the row exists.
    Found(Result<bool, RepositoryError>),
    /// The insert or update of the user.
    Stored(Result<(), RepositoryError>),
}

/// What the caller is to do next for a save in progress.
#[derive(Debug, PartialEq, Eq)]
pub enum SaveAction {
    FindJob(usize),
    FindOrganization(usize),
    Store,
    Finish(Result<(), UserServiceError>),
    /// The event does not belong to the current stage and was dropped.
    Ignore,
}

/// The decisions of saving (creating or updating) a user: validate, check
/// that the job exists, check that the organization exists, then store.
#[derive(Clone, Copy, Debug, PartialEq, Eq, Structural)]
pub struct UserSave {
    pub stage: SaveStage,
    pub job_id: usize,
    pub organization_id: usize,
}

impl UserSave {
    /// What `step(event)` does, from `self` to `post`, returning `r`.
    pub open spec fn step_outcome(&self, post: &Self, event: SaveEvent, r: SaveAction) -> bool {
        &&& post.job_id == self.job_id
        &&& post.organization_id == self.organization_id
        &&& match (self.stage, event) {
            (SaveStage::AwaitJob, SaveEvent::Found(Err(e))) => post.stage == SaveStage::Finished
                && r == SaveAction::Finish(Err(UserServiceError::RepositoryError(e))),
            (SaveStage::AwaitJob, SaveEvent::Found(Ok(false))) => post.stage
                == SaveStage::Finished && r == SaveAction::Finish(
                Err(UserServiceError::JobNotFound),
            ),
            (SaveStage::AwaitJob, SaveEvent::Found(Ok(true))) => post.stage
                == SaveStage::AwaitOrganization && r == SaveAction::FindOrganization(
                self.organization_id,
            ),
            (SaveStage::AwaitOrganization, SaveEvent::Found(Err(e))) => post.stage
                == SaveStage::Finished && r == SaveAction::Finish(
                Err(UserServiceError::RepositoryError(e)),
            ),
            (SaveStage::AwaitOrganization, SaveEvent::Found(Ok(false))) => post.stage
                == SaveStage::Finished && r == SaveAction::Finish(
                Err(UserServiceError::OrganizationNotFound),
            ),
            (SaveStage::AwaitOrganization, SaveEvent::Found(Ok(true))) => post.stage
                == SaveStage::AwaitStore && r == SaveAction::Store,
            (SaveStage::AwaitStore, SaveEvent::Stored(Err(e))) => post.stage
                == SaveStage::Finished && r == SaveAction::Finish(
                Err(UserServiceError::RepositoryError(e)),
            ),
            (SaveStage::AwaitStore, SaveEvent::Stored(Ok(()))) => post.stage
                == SaveStage::Finished && r == SaveAction::Finish(Ok(())),
            _ => post.stage == self.stage && r == SaveAction::Ignore,
        }
    }

    /// Validates `user` and starts its save: a user that fails validation
    /// finishes at once with `ValidationError`; otherwise its job is looked up.
    pub fn start(user: &mut User) -> (r: (UserSave, SaveAction))
        ensures
            final(user)@ == old(user)@,
            final(user).errors_view() == rule_errors::<User>(old(user)@),
            r.0.job_id == old(user)@.job_id,
            r.0.organization_id == old(user)@.organization_id,
            is_valid::<User>(old(user)@) ==> r.0.stage == SaveStage::AwaitJob && r.1
                == SaveAction::FindJob(old(user)@.job_id),
            !is_valid::<User>(old(user)@) ==> r.0.stage == SaveStage::Finished && r.1
                == SaveAction::Finish(Err(UserServiceError::ValidationError)),
    {
        let valid = user.validate();
        let job_id = user.job_id();
        let organization_id = user.organization_id();
        match valid {
            Ok(()) => (
                UserSave { stage: SaveStage::AwaitJob, job_id, organization_id },
                SaveAction::FindJob(job_id),
            ),
            Err(_) => (
                UserSave { stage: SaveStage::Finished, job_id, organization_id },
                SaveAction::Finish(Err(UserServiceError::ValidationError)),
            ),
        }
    }

    /// Takes what the store reported and says what to do next. An event
    /// that does not belong to the current stage (a late or repeated reply)
    /// is dropped.
    pub fn step(&mut self, event: SaveEvent) -> (r: SaveAction)
        ensures
            old(self).step_outcome(final(self), event, r),
    {
        match (self.stage, event) {
            (SaveStage::AwaitJob, SaveEvent::Found(Err(e))) => {
                self.stage = SaveStage::Finished;
                SaveAction::Finish(Err(UserServiceError::RepositoryError(e)))
            },
            (SaveStage::AwaitJob, SaveEvent::Found(Ok(false))) => {
                self.stage = SaveStage::Finished;
                SaveAction::Finish(Err(UserServiceError::JobNotFound))
            },
            (SaveStage::AwaitJob, SaveEvent::Found(Ok(true))) => {
                self.stage = SaveStage::AwaitOrganization;
                SaveAction::FindOrganization(self.organization_id)
            },
            (SaveStage::AwaitOrganization, SaveEvent::Found(Err(e))) => {
                self.stage = SaveStage::Finished;
                SaveAction::Finish(Err(UserServiceError::RepositoryError(e)))
            },
            (SaveStage::AwaitOrganization, SaveEvent::Found(Ok(false))) => {
                self.stage = SaveStage::Finished;
                SaveAction::Finish(Err(UserServiceError::OrganizationNotFound))
            },
            (SaveStage::AwaitOrganization, SaveEvent::Found(Ok(true))) => {
                self.stage = SaveStage::AwaitStore;
                SaveAction::Store
            },
            (SaveStage::AwaitStore, SaveEvent::Stored(Err(e))) => {
                self.stage = SaveStage::Finished;
                SaveAction::Finish(Err(UserServiceError::RepositoryError(e)))
            },
            (SaveStage::AwaitStore, SaveEvent::Stored(Ok(()))) => {
                self.stage = SaveStage::Finished;
                SaveAction::Finish(Ok(()))
            },
            _ => SaveAction::Ignore,
        }
    }
}

/// A valid user whose job and organization are both found is stored, and a
/// successful store finishes the save with success; the lookups ask for the
/// user's own job and organization.
pub proof fn lemma_save_succeeds(
    s0: UserSave,
    s1: UserSave,
    s2: UserSave,
    s3: UserSave,
    a1: SaveAction,
    a2: SaveAction,
    a3: SaveAction,
)
    requires
        s0.stage == SaveStage::AwaitJob,
        s0.step_outcome(&s1, SaveEvent::Found(Ok(true)), a1),
        s1.step_outcome(&s2, SaveEvent::Found(Ok(true)), a2),
        s2.step_outcome(&s3, SaveEvent::Stored(Ok(())), a3),
    ensures
        a1 == SaveAction::FindOrganization(s0.organization_id),
        a2 == SaveAction::Store,
        a3 == SaveAction::Finish(Ok(())),
        s3.stage == SaveStage::Finished,
{
}

} // verus!
