use vstd::prelude::*;
use crate::entity::Entity;
use crate::errors::{Field, FieldError};

verus! {

/// A draft, the list of saved records, and the edit flag, without the
/// operations of the state manager: only starting out and cancelling.
#[derive(Debug)]
pub struct EntityState<T: Entity> {
    pub current: T,
    pub list: Vec<T>,
    pub is_edit: bool,
}

impl<T: Entity> EntityState<T> {
    pub fn new() -> (r: Self)
        ensures
            r.current@ == T::blank_view(),
            r.current.errors_view() == Map::<Field, FieldError>::empty(),
            r.list@ == Seq::<T>::empty(),
            !r.is_edit,
    {
        EntityState { current: T::blank(), list: Vec::new(), is_edit: false }
    }

    /// Drops the draft for a blank one and leaves editing.
    pub fn cancel_edit(&mut self)
        ensures
            final(self).current@ == T::blank_view(),
            final(self).current.errors_view() == Map::<Field, FieldError>::empty(),
            final(self).list@ == old(self).list@,
            !final(self).is_edit,
    {
        self.current = T::blank();
        self.is_edit = false;
        self.current.clear_errors();
    }
}

} // verus!
