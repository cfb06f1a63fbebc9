use vstd::prelude::*;

verus! {

/// A validated field of a record.
#[derive(Clone, Copy, Debug, PartialEq, Eq, Structural)]
pub enum Field {
    Name,
    JobId,
    OrganizationId,
}

/// A failed field rule.
#[derive(Clone, Copy, Debug, PartialEq, Eq, Structural)]
pub enum FieldError {
    NameRequired,
    NameTooShort,
    NameTooLong,
    JobRequired,
    OrganizationRequired,
}

impl FieldError {
    /// The human-readable message shown next to the field.
    pub fn message(&self) -> (r: &'static str)
        ensures
            r@ == match *self {
                FieldError::NameRequired => "Name is required"@,
                FieldError::NameTooShort => "Name must be at least 3 characters"@,
                FieldError::NameTooLong => "Name must be under 50 characters"@,
                FieldError::JobRequired => "Job selection is required"@,
                FieldError::OrganizationRequired => "Organization selection is required"@,
            },
    {
        match *self {
            FieldError::NameRequired => "Name is required",
            FieldError::NameTooShort => "Name must be at least 3 characters",
            FieldError::NameTooLong => "Name must be under 50 characters",
            FieldError::JobRequired => "Job selection is required",
            FieldError::OrganizationRequired => "Organization selection is required",
        }
    }
}

/// The errors of a record, one slot per field; seen as a map from field to error.
#[derive(Clone, Copy, Debug, PartialEq, Eq, Structural)]
pub struct ErrorMap {
    name: Option<FieldError>,
    job_id: Option<FieldError>,
    organization_id: Option<FieldError>,
}

impl ErrorMap {
    pub closed spec fn slot(&self, f: Field) -> Option<FieldError> {
        match f {
            Field::Name => self.name,
            Field::JobId => self.job_id,
            Field::OrganizationId => self.organization_id,
        }
    }
}

impl View for ErrorMap {
    type V = Map<Field, FieldError>;

    open spec fn view(&self) -> Map<Field, FieldError> {
        Map::new(|f: Field| self.slot(f).is_some(), |f: Field| self.slot(f).unwrap())
    }
}

impl ErrorMap {
    pub fn new() -> (r: ErrorMap)
        ensures
            r@ == Map::<Field, FieldError>::empty(),
    {
        let r = ErrorMap { name: None, job_id: None, organization_id: None };
        assert(r@ =~= Map::<Field, FieldError>::empty());
        r
    }

    pub fn get(&self, f: Field) -> (r: Option<FieldError>)
        ensures
            r == self.slot(f),
            r is Some <==> self@.contains_key(f),
            r is Some ==> self@[f] == r->0,
    {
        match f {
            Field::Name => self.name,
            Field::JobId => self.job_id,
            Field::OrganizationId => self.organization_id,
        }
    }

    pub fn is_empty(&self) -> (r: bool)
        ensures
            r <==> self@ == Map::<Field, FieldError>::empty(),
    {
        proof {
            if self@ == Map::<Field, FieldError>::empty() {
                assert(!self@.contains_key(Field::Name));
                assert(!self@.contains_key(Field::JobId));
                assert(!self@.contains_key(Field::OrganizationId));
            }
            if self.name.is_none() && self.job_id.is_none() && self.organization_id.is_none() {
                assert(self@ =~= Map::<Field, FieldError>::empty());
            }
        }
        self.name.is_none() && self.job_id.is_none() && self.organization_id.is_none()
    }

    pub fn insert(&mut self, f: Field, e: FieldError)
        ensures
            final(self)@ == old(self)@.insert(f, e),
    {
        match f {
            Field::Name => self.name = Some(e),
            Field::JobId => self.job_id = Some(e),
            Field::OrganizationId => self.organization_id = Some(e),
        }
        assert(final(self)@ =~= old(self)@.insert(f, e));
    }

    pub fn remove(&mut self, f: Field)
        ensures
            final(self)@ == old(self)@.remove(f),
    {
        match f {
            Field::Name => self.name = None,
            Field::JobId => self.job_id = None,
            Field::OrganizationId => self.organization_id = None,
        }
        assert(final(self)@ =~= old(self)@.remove(f));
    }

    pub fn clear(&mut self)
        ensures
            final(self)@ == Map::<Field, FieldError>::empty(),
    {
        *self = ErrorMap::new();
    }

    /// Sets the slot of `f` to `e`: an entry for `Some`, no entry for `None`.
    pub fn set(&mut self, f: Field, e: Option<FieldError>)
        ensures
            final(self)@ == match e {
                Some(x) => old(self)@.insert(f, x),
                None => old(self)@.remove(f),
            },
    {
        match e {
            Some(x) => self.insert(f, x),
            None => self.remove(f),
        }
    }
}

/// Error maps are equal exactly when they hold the same entries.
pub proof fn lemma_same_view_same_map(a: ErrorMap, b: ErrorMap)
    ensures
        a@ == b@ <==> a == b,
{
    if a@ == b@ {
        assert forall|f: Field| a.slot(f) == b.slot(f) by {
            assert(a@.contains_key(f) == b@.contains_key(f));
            if a@.contains_key(f) {
                assert(a@[f] == b@[f]);
            }
        }
        assert(a.slot(Field::Name) == b.slot(Field::Name));
        assert(a.slot(Field::JobId) == b.slot(Field::JobId));
        assert(a.slot(Field::OrganizationId) == b.slot(Field::OrganizationId));
    }
}

} // verus!
