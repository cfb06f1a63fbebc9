use vstd::prelude::*;
use crate::entity::{Entity, errors_from};
use crate::errors::{ErrorMap, Field, FieldError};
use crate::validation::{check_name, check_selection, name_rule, selection_rule};

verus! {

/// A person, who holds a job in an organization.
#[derive(Debug)]
pub struct User {
    id: usize,
    name: String,
    job_id: usize,
    organization_id: usize,
    errors: ErrorMap,
}

/// The field values of a user.
pub struct UserView {
    pub id: usize,
    pub name: Seq<char>,
    pub job_id: usize,
    pub organization_id: usize,
}

impl View for User {
    type V = UserView;

    closed spec fn view(&self) -> UserView {
        UserView {
            id: self.id,
            name: self.name@,
            job_id: self.job_id,
            organization_id: self.organization_id,
        }
    }
}

impl User {
    pub fn new() -> (r: User)
        ensures
            r@ == <User as Entity>::blank_view(),
            r.errors_view() == Map::<Field, FieldError>::empty(),
    {
        <User as Entity>::blank()
    }

    pub fn set_job_id(&mut self, job_id: usize)
        ensures
            final(self)@ == (UserView { job_id, ..old(self)@ }),
            final(self).errors_view() == old(self).errors_view(),
    {
        self.job_id = job_id;
    }

    pub fn set_organization_id(&mut self, organization_id: usize)
        ensures
            final(self)@ == (UserView { organization_id, ..old(self)@ }),
            final(self).errors_view() == old(self).errors_view(),
    {
        self.organization_id = organization_id;
    }

    pub fn job_id(&self) -> (r: usize)
        ensures
            r == self@.job_id,
    {
        self.job_id
    }

    pub fn organization_id(&self) -> (r: usize)
        ensures
            r == self@.organization_id,
    {
        self.organization_id
    }
}

impl Entity for User {
    open spec fn id_of(v: UserView) -> usize {
        v.id
    }

    open spec fn name_of(v: UserView) -> Seq<char> {
        v.name
    }

    open spec fn with_id(v: UserView, id: usize) -> UserView {
        UserView { id, ..v }
    }

    open spec fn with_name(v: UserView, name: Seq<char>) -> UserView {
        UserView { name, ..v }
    }

    open spec fn blank_view() -> UserView {
        UserView { id: 0, name: Seq::empty(), job_id: 0, organization_id: 0 }
    }

    open spec fn rule(v: UserView, f: Field) -> Option<FieldError> {
        match f {
            Field::Name => name_rule(v.name),
            Field::JobId => selection_rule(v.job_id, FieldError::JobRequired),
            Field::OrganizationId => selection_rule(
                v.organization_id,
                FieldError::OrganizationRequired,
            ),
        }
    }

    closed spec fn errors_view(&self) -> Map<Field, FieldError> {
        self.errors@
    }

    fn blank() -> (r: User) {
        User {
            id: 0,
            name: String::new(),
            job_id: 0,
            organization_id: 0,
            errors: ErrorMap::new(),
        }
    }

    fn id(&self) -> (r: usize) {
        self.id
    }

    fn set_id(&mut self, id: usize) {
        self.id = id;
    }

    fn name(&self) -> (r: &str) {
        self.name.as_str()
    }

    fn set_name(&mut self, name: String) {
        self.name = name;
    }

    fn errors(&self) -> (r: ErrorMap) {
        self.errors
    }

    fn validate(&mut self) -> (r: Result<(), ErrorMap>) {
        self.errors.clear();
        let name_outcome = check_name(self.name.as_str());
        self.errors.set(Field::Name, name_outcome);
        let job_outcome = check_selection(self.job_id, FieldError::JobRequired);
        self.errors.set(Field::JobId, job_outcome);
        let organization_outcome = check_selection(
            self.organization_id,
            FieldError::OrganizationRequired,
        );
        self.errors.set(Field::OrganizationId, organization_outcome);
        assert(self.errors@ =~= errors_from(|f: Field| <User as Entity>::rule(self@, f)));
        if self.errors.is_empty() {
            Ok(())
        } else {
            Err(self.errors)
        }
    }

    fn validate_property(&mut self, f: Field) {
        let outcome = match f {
            Field::Name => check_name(self.name.as_str()),
            Field::JobId => check_selection(self.job_id, FieldError::JobRequired),
            Field::OrganizationId => check_selection(
                self.organization_id,
                FieldError::OrganizationRequired,
            ),
        };
        self.errors.set(f, outcome);
    }

    fn clear_errors(&mut self) {
        self.errors.clear();
    }

    fn duplicate(&self) -> (r: User) {
        User {
            id: self.id,
            name: self.name.clone(),
            job_id: self.job_id,
            organization_id: self.organization_id,
            errors: self.errors,
        }
    }
}

} // verus!
