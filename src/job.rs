use vstd::prelude::*;
use crate::entity::{Entity, errors_from};
use crate::errors::{ErrorMap, Field, FieldError};
use crate::validation::{check_name, name_rule};

verus! {

/// A job title that users can hold.
#[derive(Debug)]
pub struct Job {
    id: usize,
    name: String,
    errors: ErrorMap,
}

/// The field values of a job.
pub struct JobView {
    pub id: usize,
    pub name: Seq<char>,
}

impl View for Job {
    type V = JobView;

    closed spec fn view(&self) -> JobView {
        JobView { id: self.id, name: self.name@ }
    }
}

impl Job {
    pub fn new() -> (r: Job)
        ensures
            r@ == <Job as Entity>::blank_view(),
            r.errors_view() == Map::<Field, FieldError>::empty(),
    {
        <Job as Entity>::blank()
    }
}

impl Entity for Job {
    open spec fn id_of(v: JobView) -> usize {
        v.id
    }

    open spec fn name_of(v: JobView) -> Seq<char> {
        v.name
    }

    open spec fn with_id(v: JobView, id: usize) -> JobView {
        JobView { id, ..v }
    }

    open spec fn with_name(v: JobView, name: Seq<char>) -> JobView {
        JobView { name, ..v }
    }

    open spec fn blank_view() -> JobView {
        JobView { id: 0, name: Seq::empty() }
    }

    open spec fn rule(v: JobView, f: Field) -> Option<FieldError> {
        match f {
            Field::Name => name_rule(v.name),
            _ => None,
        }
    }

    closed spec fn errors_view(&self) -> Map<Field, FieldError> {
        self.errors@
    }

    fn blank() -> (r: Job) {
        Job { id: 0, name: String::new(), errors: ErrorMap::new() }
    }

    fn id(&self) -> (r: usize) {
        self.id
    }

    fn set_id(&mut self, id: usize) {
        self.id = id;
    }

    fn name(&self) -> (r: &str) {
        self.name.as_str()
    }

    fn set_name(&mut self, name: String) {
        self.name = name;
    }

    fn errors(&self) -> (r: ErrorMap) {
        self.errors
    }

    fn validate(&mut self) -> (r: Result<(), ErrorMap>) {
        self.errors.clear();
        let name_outcome = check_name(self.name.as_str());
        self.errors.set(Field::Name, name_outcome);
        assert(self.errors@ =~= errors_from(|f: Field| <Job as Entity>::rule(self@, f)));
        if self.errors.is_empty() {
            Ok(())
        } else {
            Err(self.errors)
        }
    }

    fn validate_property(&mut self, f: Field) {
        match f {
            Field::Name => {
                let outcome = check_name(self.name.as_str());
                self.errors.set(f, outcome);
            },
            _ => self.errors.remove(f),
        }
    }

    fn clear_errors(&mut self) {
        self.errors.clear();
    }

    fn duplicate(&self) -> (r: Job) {
        Job { id: self.id, name: self.name.clone(), errors: self.errors }
    }
}

} // verus!
