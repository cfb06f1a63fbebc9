use vstd::prelude::*;
use vstd::string::StringExecFns;
use crate::entity::Entity;
use crate::entity_manager::{EntityManager, ManagerError, contains_id, find_index};
use crate::errors::Field;
use crate::job::Job;
use crate::message::{DomainEntity, Message, Page, entity_of_page};
use crate::organization::Organization;
use crate::references::{resolve_name, resolves_to};
use crate::user::User;

verus! {

/// `c` with the saved record dropped from its success.
pub open spec fn without_record<T>(c: Result<T, ManagerError>) -> Result<(), ManagerError> {
    match c {
        Ok(_) => Ok(()),
        Err(e) => Err(e),
    }
}

/// What a generic intent does to the manager it is routed to. Intents that
/// are not generic leave it alone.
pub open spec fn intent_outcome<T: Entity>(
    pre: &EntityManager<T>,
    post: &EntityManager<T>,
    m: Message,
    r: Result<(), ManagerError>,
) -> bool {
    match m {
        Message::NameChanged(name) => pre.rename_outcome(post, name@) && r is Ok,
        Message::Create => exists|c: Result<T, ManagerError>|
            #[trigger] pre.create_outcome(post, c) && r == without_record(c),
        Message::Update => pre.update_outcome(post, r),
        Message::Delete(id) => pre.delete_outcome(post, id, r),
        Message::Load(id) => pre.load_outcome(post, id, r),
        Message::CancelEdit => pre.cancel_outcome(post) && r is Ok,
        _ => *post == *pre && r is Ok,
    }
}

/// Applies a generic intent to one manager.
fn apply_intent<T: Entity>(manager: &mut EntityManager<T>, m: Message) -> (r: Result<(), ManagerError>)
    requires
        old(manager).wf(),
    ensures
        final(manager).wf(),
        intent_outcome(old(manager), final(manager), m, r),
{
    match m {
        Message::NameChanged(name) => {
            manager.name_changed(name);
            Ok(())
        },
        Message::Create => {
            let c = manager.create();
            assert(old(manager).create_outcome(final(manager), c));
            match c {
                Ok(_) => Ok(()),
                Err(e) => Err(e),
            }
        },
        Message::Update => manager.update(),
        Message::Delete(id) => manager.delete(id),
        Message::Load(id) => manager.load(id),
        Message::CancelEdit => {
            manager.cancel_edit();
            Ok(())
        },
        _ => Ok(()),
    }
}

/// The state behind the pages: which page is shown, one state manager per
/// record kind, and a status line.
#[derive(Debug)]
pub struct AppState {
    pub current_page: Page,
    pub active_entity: DomainEntity,
    pub users: EntityManager<User>,
    pub organizations: EntityManager<Organization>,
    pub jobs: EntityManager<Job>,
    pub status_message: String,
}

impl AppState {
    /// Each manager is well formed and the active record kind is the one of
    /// the page shown.
    pub open spec fn wf(&self) -> bool {
        &&& self.users.wf()
        &&& self.organizations.wf()
        &&& self.jobs.wf()
        &&& self.active_entity == entity_of_page(self.current_page)
    }

    /// The page, the active kind and the status line are the same in both.
    pub open spec fn same_frame(&self, post: &Self) -> bool {
        &&& post.current_page == self.current_page
        &&& post.active_entity == self.active_entity
        &&& post.status_message == self.status_message
    }

    /// `m` went to the manager of `entity` alone; with no active kind,
    /// nothing changed.
    pub open spec fn dispatched(
        &self,
        post: &Self,
        entity: DomainEntity,
        m: Message,
        r: Result<(), ManagerError>,
    ) -> bool {
        match entity {
            DomainEntity::User => intent_outcome(&self.users, &post.users, m, r)
                && post.organizations == self.organizations && post.jobs == self.jobs,
            DomainEntity::Organization => intent_outcome(
                &self.organizations,
                &post.organizations,
                m,
                r,
            ) && post.users == self.users && post.jobs == self.jobs,
            DomainEntity::Job => intent_outcome(&self.jobs, &post.jobs, m, r) && post.users
                == self.users && post.organizations == self.organizations,
            DomainEntity::Unset => post.users == self.users && post.organizations
                == self.organizations && post.jobs == self.jobs && r is Ok,
        }
    }

    pub fn new() -> (r: AppState)
        ensures
            r.wf(),
            r.current_page == Page::User,
            r.users.draft_is_blank() && r.users.list@.len() == 0 && !r.users.is_edit,
            r.organizations.draft_is_blank() && r.organizations.list@.len() == 0
                && !r.organizations.is_edit,
            r.jobs.draft_is_blank() && r.jobs.list@.len() == 0 && !r.jobs.is_edit,
            r.status_message@ == "Loading..."@,
    {
        AppState {
            current_page: Page::User,
            active_entity: DomainEntity::User,
            users: EntityManager::new(),
            organizations: EntityManager::new(),
            jobs: EntityManager::new(),
            status_message: "Loading...".to_owned(),
        }
    }

    /// Shows `page` and makes its record kind the active one.
    pub fn set_current_page(&mut self, page: Page)
        ensures
            final(self).current_page == page,
            final(self).active_entity == entity_of_page(page),
            final(self).users == old(self).users,
            final(self).organizations == old(self).organizations,
            final(self).jobs == old(self).jobs,
            final(self).status_message == old(self).status_message,
    {
        self.current_page = page;
        self.active_entity = match page {
            Page::User => DomainEntity::User,
            Page::Organization => DomainEntity::Organization,
            Page::Job => DomainEntity::Job,
            Page::Settings => DomainEntity::Unset,
        };
    }

    /// The name of the saved job `job_id`, or "None".
    pub fn get_job_name(&self, job_id: usize) -> (r: String)
        ensures
            resolves_to(self.jobs.list@, job_id, r@),
    {
        resolve_name(&self.jobs.list, job_id)
    }

    /// The name of the saved organization `organization_id`, or "None".
    pub fn get_organization_name(&self, organization_id: usize) -> (r: String)
        ensures
            resolves_to(self.organizations.list@, organization_id, r@),
    {
        resolve_name(&self.organizations.list, organization_id)
    }

    /// Routes a generic intent to the manager of the active record kind.
    fn dispatch(&mut self, m: Message) -> (r: Result<(), ManagerError>)
        requires
            old(self).wf(),
        ensures
            final(self).wf(),
            old(self).same_frame(final(self)),
            old(self).dispatched(final(self), old(self).active_entity, m, r),
    {
        match self.active_entity {
            DomainEntity::User => apply_intent(&mut self.users, m),
            DomainEntity::Organization => apply_intent(&mut self.organizations, m),
            DomainEntity::Job => apply_intent(&mut self.jobs, m),
            DomainEntity::Unset => Ok(()),
        }
    }

    /// Handles one message. Navigation shows the page and cancels the draft
    /// of its record kind; a pick of job or organization goes to the draft
    /// user; a click on a user's job or organization opens that record for
    /// editing; the generic intents go to the active record kind's manager;
    /// the database reports set the status line. The result is that of the
    /// manager operation, for the caller to show.
    pub fn update(&mut self, message: Message) -> (r: Result<(), ManagerError>)
        requires
            old(self).wf(),
        ensures
            final(self).wf(),
            match message {
                Message::Navigate(page) => {
                    &&& final(self).current_page == page
                    &&& final(self).active_entity == entity_of_page(page)
                    &&& final(self).status_message == old(self).status_message
                    &&& old(self).dispatched(
                        final(self),
                        entity_of_page(page),
                        Message::CancelEdit,
                        r,
                    )
                },
                Message::JobSelected(id) => {
                    &&& old(self).same_frame(final(self))
                    &&& old(self).users.select_outcome(&final(self).users, Field::JobId, id)
                    &&& final(self).organizations == old(self).organizations
                    &&& final(self).jobs == old(self).jobs
                    &&& r is Ok
                },
                Message::OrganizationSelected(id) => {
                    &&& old(self).same_frame(final(self))
                    &&& old(self).users.select_outcome(
                        &final(self).users,
                        Field::OrganizationId,
                        id,
                    )
                    &&& final(self).organizations == old(self).organizations
                    &&& final(self).jobs == old(self).jobs
                    &&& r is Ok
                },
                Message::JobClicked(id) => if contains_id(old(self).jobs.list@, id) {
                    &&& final(self).current_page == Page::Job
                    &&& final(self).active_entity == DomainEntity::Job
                    &&& final(self).status_message == old(self).status_message
                    &&& old(self).jobs.load_outcome(&final(self).jobs, id, r)
                    &&& final(self).users == old(self).users
                    &&& final(self).organizations == old(self).organizations
                } else {
                    r == Err::<(), ManagerError>(ManagerError::NotFound) && *final(self) == *old(
                        self,
                    )
                },
                Message::OrganizationClicked(id) => if contains_id(
                    old(self).organizations.list@,
                    id,
                ) {
                    &&& final(self).current_page == Page::Organization
                    &&& final(self).active_entity == DomainEntity::Organization
                    &&& final(self).status_message == old(self).status_message
                    &&& old(self).organizations.load_outcome(&final(self).organizations, id, r)
                    &&& final(self).users == old(self).users
                    &&& final(self).jobs == old(self).jobs
                } else {
                    r == Err::<(), ManagerError>(ManagerError::NotFound) && *final(self) == *old(
                        self,
                    )
                },
                Message::DatabaseInitialized => {
                    &&& final(self).status_message@ == "Database connected"@
                    &&& final(self).current_page == old(self).current_page
                    &&& final(self).users == old(self).users
                    &&& final(self).organizations == old(self).organizations
                    &&& final(self).jobs == old(self).jobs
                    &&& r is Ok
                },
                Message::DatabaseError(err) => {
                    &&& final(self).status_message@ == "Database error: "@ + err@
                    &&& final(self).current_page == old(self).current_page
                    &&& final(self).users == old(self).users
                    &&& final(self).organizations == old(self).organizations
                    &&& final(self).jobs == old(self).jobs
                    &&& r is Ok
                },
                _ => {
                    &&& old(self).same_frame(final(self))
                    &&& old(self).dispatched(final(self), old(self).active_entity, message, r)
                },
            },
    {
        match message {
            Message::Navigate(page) => {
                self.set_current_page(page);
                self.dispatch(Message::CancelEdit)
            },
            Message::JobSelected(id) => {
                self.users.field_selected(Field::JobId, id);
                Ok(())
            },
            Message::OrganizationSelected(id) => {
                self.users.field_selected(Field::OrganizationId, id);
                Ok(())
            },
            Message::JobClicked(id) => match find_index(&self.jobs.list, id) {
                Some(_) => {
                    self.set_current_page(Page::Job);
                    self.jobs.load(id)
                },
                None => Err(ManagerError::NotFound),
            },
            Message::OrganizationClicked(id) => match find_index(&self.organizations.list, id) {
                Some(_) => {
                    self.set_current_page(Page::Organization);
                    self.organizations.load(id)
                },
                None => Err(ManagerError::NotFound),
            },
            Message::DatabaseInitialized => {
                self.status_message = "Database connected".to_owned();
                Ok(())
            },
            Message::DatabaseError(err) => {
                self.status_message = "Database error: ".to_owned().concat(err.as_str());
                Ok(())
            },
            other => self.dispatch(other),
        }
    }
}

} // verus!
