use vstd::prelude::*;
use crate::entity::{Entity, field_updated, is_valid, rule_errors};
use crate::errors::{ErrorMap, Field, FieldError};
use crate::user::{User, UserView};

verus! {

/// Why an operation of the state manager did not apply.
#[derive(Clone, Copy, Debug, PartialEq, Eq, Structural)]
pub enum ManagerError {
    /// The draft failed validation; these are its errors.
    Validation(ErrorMap),
    /// No record of the list has the identity asked for.
    NotFound,
    /// An update was asked for while composing: only a loaded record can be
    /// updated.
    WrongMode,
    /// Every identity up to the largest `usize` is taken.
    IdsExhausted,
}

impl ManagerError {
    /// The status line shown for the error.
    pub fn message(&self) -> (r: &'static str)
        ensures
            r@ == match *self {
                ManagerError::Validation(_) => "Please correct the highlighted fields"@,
                ManagerError::NotFound => "Entity not found"@,
                ManagerError::WrongMode => "Not available in the current mode"@,
                ManagerError::IdsExhausted => "No identifiers are left"@,
            },
    {
        match *self {
            ManagerError::Validation(_) => "Please correct the highlighted fields",
            ManagerError::NotFound => "Entity not found",
            ManagerError::WrongMode => "Not available in the current mode",
            ManagerError::IdsExhausted => "No identifiers are left",
        }
    }
}

/// The identities of the records in `s` are pairwise distinct.
pub open spec fn ids_unique<T: Entity>(s: Seq<T>) -> bool {
    forall|i: int, j: int|
        0 <= i < j < s.len() ==> T::id_of(#[trigger] s[i]@) != T::id_of(#[trigger] s[j]@)
}

/// Some record of `s` has identity `id`.
pub open spec fn contains_id<T: Entity>(s: Seq<T>, id: usize) -> bool {
    exists|i: int| 0 <= i < s.len() && T::id_of(#[trigger] s[i]@) == id
}

/// The largest identity in `s`, or zero for an empty sequence.
pub open spec fn max_id<T: Entity>(s: Seq<T>) -> nat
    decreases s.len(),
{
    if s.len() == 0 {
        0
    } else {
        let rest = max_id(s.drop_last());
        let last = T::id_of(s.last()@) as nat;
        if last > rest {
            last
        } else {
            rest
        }
    }
}

/// Every identity in `s` is at most `max_id(s)`.
pub proof fn lemma_max_id_bounds<T: Entity>(s: Seq<T>)
    ensures
        forall|i: int| 0 <= i < s.len() ==> T::id_of(#[trigger] s[i]@) <= max_id(s),
    decreases s.len(),
{
    if s.len() > 0 {
        lemma_max_id_bounds(s.drop_last());
        assert forall|i: int| 0 <= i < s.len() implies T::id_of(#[trigger] s[i]@) <= max_id(s) by {
            if i < s.len() - 1 {
                assert(s[i] == s.drop_last()[i]);
            }
        }
    }
}

/// The position of the first record of `list` with identity `id`.
pub fn find_index<T: Entity>(list: &Vec<T>, id: usize) -> (r: Option<usize>)
    ensures
        r matches Some(i) ==> i < list@.len() && T::id_of(list@[i as int]@) == id,
        r matches Some(i) ==> forall|j: int| 0 <= j < i ==> T::id_of(#[trigger] list@[j]@) != id,
        r is None <==> !contains_id(list@, id),
{
    let mut i: usize = 0;
    while i < list.len()
        invariant
            i <= list@.len(),
            forall|j: int| 0 <= j < i ==> T::id_of(#[trigger] list@[j]@) != id,
        decreases list@.len() - i,
    {
        if list[i].id() == id {
            return Some(i);
        }
        i += 1;
    }
    None
}

/// The largest identity in `list`, or zero when it is empty.
pub fn largest_id<T: Entity>(list: &Vec<T>) -> (r: usize)
    ensures
        r == max_id(list@),
{
    let mut m: usize = 0;
    let mut i: usize = 0;
    while i < list.len()
        invariant
            i <= list@.len(),
            m == max_id(list@.subrange(0, i as int)),
        decreases list@.len() - i,
    {
        let id = list[i].id();
        proof {
            let next = list@.subrange(0, i + 1);
            assert(next.drop_last() =~= list@.subrange(0, i as int));
            assert(next.last() == list@[i as int]);
        }
        if id > m {
            m = id;
        }
        i += 1;
    }
    assert(list@.subrange(0, list@.len() as int) =~= list@);
    m
}

/// The draft of one record kind, the list of its saved records, and whether
/// the draft is a new record (composing) or a copy of a saved one (editing).
#[derive(Debug)]
pub struct EntityManager<T: Entity> {
    pub current: T,
    pub list: Vec<T>,
    pub is_edit: bool,
}

impl<T: Entity> EntityManager<T> {
    /// Saved identities are distinct and non-zero, and the draft has a
    /// non-zero identity exactly while editing.
    pub open spec fn wf(&self) -> bool {
        &&& ids_unique(self.list@)
        &&& forall|i: int| 0 <= i < self.list@.len() ==> T::id_of(#[trigger] self.list@[i]@) != 0
        &&& (self.is_edit <==> T::id_of(self.current@) != 0)
    }

    /// The draft is the blank record with no errors.
    pub open spec fn draft_is_blank(&self) -> bool {
        &&& self.current@ == T::blank_view()
        &&& self.current.errors_view() == Map::<Field, FieldError>::empty()
    }

    /// What `create` does, from `self` to `post`, returning `r`.
    pub open spec fn create_outcome(&self, post: &Self, r: Result<T, ManagerError>) -> bool {
        let draft = self.current@;
        let errors = rule_errors::<T>(draft);
        if !is_valid::<T>(draft) {
            &&& r matches Err(ManagerError::Validation(e)) && e@ == errors
            &&& post.current@ == draft
            &&& post.current.errors_view() == errors
            &&& post.list@ == self.list@
            &&& post.is_edit == self.is_edit
        } else if max_id(self.list@) >= usize::MAX {
            &&& r == Err::<T, ManagerError>(ManagerError::IdsExhausted)
            &&& post.current@ == draft
            &&& post.current.errors_view() == errors
            &&& post.list@ == self.list@
            &&& post.is_edit == self.is_edit
        } else {
            let id = (max_id(self.list@) + 1) as usize;
            &&& r matches Ok(saved) && saved@ == T::with_id(draft, id)
                && saved.errors_view() == Map::<Field, FieldError>::empty()
            &&& post.list@.len() == self.list@.len() + 1
            &&& post.list@.drop_last() == self.list@
            &&& post.list@.last()@ == T::with_id(draft, id)
            &&& T::id_of(post.list@.last()@) == id
            &&& T::name_of(post.list@.last()@) == T::name_of(draft)
            &&& post.draft_is_blank()
            &&& !post.is_edit
        }
    }

    /// What `update` does, from `self` to `post`, returning `r`.
    pub open spec fn update_outcome(&self, post: &Self, r: Result<(), ManagerError>) -> bool {
        if !self.is_edit {
            &&& r == Err::<(), ManagerError>(ManagerError::WrongMode)
            &&& *post == *self
        } else {
            let draft = self.current@;
            let errors = rule_errors::<T>(draft);
            if !is_valid::<T>(draft) {
                &&& r matches Err(ManagerError::Validation(e)) && e@ == errors
                &&& post.current@ == draft
                &&& post.current.errors_view() == errors
                &&& post.list@ == self.list@
                &&& post.is_edit
            } else if !contains_id(self.list@, T::id_of(draft)) {
                &&& r == Err::<(), ManagerError>(ManagerError::NotFound)
                &&& post.current@ == draft
                &&& post.current.errors_view() == errors
                &&& post.list@ == self.list@
                &&& post.is_edit
            } else {
                &&& r is Ok
                &&& exists|i: int|
                    0 <= i < self.list@.len() && T::id_of(#[trigger] self.list@[i]@) == T::id_of(
                        draft,
                    ) && post.list@ == self.list@.update(i, post.list@[i]) && post.list@[i]@
                        == draft
                &&& post.draft_is_blank()
                &&& !post.is_edit
            }
        }
    }

    /// What `delete(id)` does, from `self` to `post`, returning `r`.
    pub open spec fn delete_outcome(&self, post: &Self, id: usize, r: Result<(), ManagerError>) -> bool {
        if !contains_id(self.list@, id) {
            &&& r == Err::<(), ManagerError>(ManagerError::NotFound)
            &&& *post == *self
        } else {
            &&& r is Ok
            &&& exists|i: int|
                0 <= i < self.list@.len() && T::id_of(#[trigger] self.list@[i]@) == id
                    && post.list@ == self.list@.remove(i)
            &&& post.current == self.current
            &&& post.is_edit == self.is_edit
        }
    }

    /// What `load(id)` does, from `self` to `post`, returning `r`.
    pub open spec fn load_outcome(&self, post: &Self, id: usize, r: Result<(), ManagerError>) -> bool {
        if !contains_id(self.list@, id) {
            &&& r == Err::<(), ManagerError>(ManagerError::NotFound)
            &&& *post == *self
        } else {
            &&& r is Ok
            &&& exists|i: int|
                0 <= i < self.list@.len() && T::id_of(#[trigger] self.list@[i]@) == id
                    && post.current@ == self.list@[i]@
            &&& post.current.errors_view() == Map::<Field, FieldError>::empty()
            &&& post.list@ == self.list@
            &&& post.is_edit
        }
    }

    /// What `name_changed(name)` does, from `self` to `post`.
    pub open spec fn rename_outcome(&self, post: &Self, name: Seq<char>) -> bool {
        &&& post.current@ == T::with_name(self.current@, name)
        &&& T::name_of(post.current@) == name
        &&& T::id_of(post.current@) == T::id_of(self.current@)
        &&& post.current.errors_view() == field_updated(
            self.current.errors_view(),
            Field::Name,
            T::rule(post.current@, Field::Name),
        )
        &&& post.list@ == self.list@
        &&& post.is_edit == self.is_edit
    }

    /// What `cancel_edit` does, from `self` to `post`.
    pub open spec fn cancel_outcome(&self, post: &Self) -> bool {
        &&& post.draft_is_blank()
        &&& post.list@ == self.list@
        &&& !post.is_edit
    }

    pub fn new() -> (r: Self)
        ensures
            r.wf(),
            r.draft_is_blank(),
            r.list@ == Seq::<T>::empty(),
            !r.is_edit,
    {
        EntityManager { current: T::blank(), list: Vec::new(), is_edit: false }
    }

    /// Saves the draft as a new record, in either mode. A draft that fails
    /// validation keeps its values, gains its errors, and nothing is saved.
    /// A valid draft gets the identity one above the largest saved one, is
    /// appended to the list with its name and other values, the draft starts
    /// over blank, and the manager is composing.
    pub fn create(&mut self) -> (r: Result<T, ManagerError>)
        requires
            old(self).wf(),
        ensures
            final(self).wf(),
            old(self).create_outcome(final(self), r),
    {
        match self.current.validate() {
            Err(e) => {
                return Err(ManagerError::Validation(e));
            },
            Ok(()) => {},
        }
        let largest = largest_id(&self.list);
        if largest == usize::MAX {
            return Err(ManagerError::IdsExhausted);
        }
        let mut saved = self.current.duplicate();
        saved.set_id(largest + 1);
        let stored = saved.duplicate();
        proof {
            lemma_max_id_bounds(self.list@);
        }
        self.list.push(stored);
        self.current = T::blank();
        self.is_edit = false;
        proof {
            assert(self.list@.drop_last() =~= old(self).list@);
        }
        Ok(saved)
    }

    /// Writes the draft back over the saved record with the same identity.
    /// While composing this is refused. A draft that fails validation keeps
    /// its values and gains its errors. When no saved record has the draft's
    /// identity nothing is written. Otherwise that record alone is replaced
    /// and the manager returns to composing with a blank draft.
    pub fn update(&mut self) -> (r: Result<(), ManagerError>)
        requires
            old(self).wf(),
        ensures
            final(self).wf(),
            old(self).update_outcome(final(self), r),
    {
        if !self.is_edit {
            return Err(ManagerError::WrongMode);
        }
        match self.current.validate() {
            Err(e) => {
                return Err(ManagerError::Validation(e));
            },
            Ok(()) => {},
        }
        match find_index(&self.list, self.current.id()) {
            None => Err(ManagerError::NotFound),
            Some(index) => {
                let saved = self.current.duplicate();
                self.list.set(index, saved);
                self.current = T::blank();
                self.is_edit = false;
                assert(self.list@ == old(self).list@.update(index as int, self.list@[index as int]));
                Ok(())
            },
        }
    }

    /// Removes the saved record with identity `id`, and no other. When there
    /// is none, nothing changes.
    pub fn delete(&mut self, id: usize) -> (r: Result<(), ManagerError>)
        requires
            old(self).wf(),
        ensures
            final(self).wf(),
            old(self).delete_outcome(final(self), id, r),
    {
        match find_index(&self.list, id) {
            None => Err(ManagerError::NotFound),
            Some(index) => {
                let _removed = self.list.remove(index);
                assert(forall|k: int|
                    0 <= k < self.list@.len() ==> #[trigger] self.list@[k] == old(self).list@[if k
                        < index {
                        k
                    } else {
                        k + 1
                    }]);
                Ok(())
            },
        }
    }

    /// Makes a copy of the saved record with identity `id`, without errors,
    /// the draft, and switches to editing. When there is none, nothing changes.
    pub fn load(&mut self, id: usize) -> (r: Result<(), ManagerError>)
        requires
            old(self).wf(),
        ensures
            final(self).wf(),
            old(self).load_outcome(final(self), id, r),
    {
        match find_index(&self.list, id) {
            None => Err(ManagerError::NotFound),
            Some(index) => {
                let mut draft = self.list[index].duplicate();
                draft.clear_errors();
                self.current = draft;
                self.is_edit = true;
                Ok(())
            },
        }
    }

    /// Sets the draft's name and re-runs the name rule alone.
    pub fn name_changed(&mut self, name: String)
        requires
            old(self).wf(),
        ensures
            final(self).wf(),
            old(self).rename_outcome(final(self), name@),
    {
        self.current.set_name(name);
        self.current.validate_property(Field::Name);
    }

    /// Drops the draft for a blank one and returns to composing, whatever was
    /// in progress.
    pub fn cancel_edit(&mut self)
        requires
            old(self).wf(),
        ensures
            final(self).wf(),
            old(self).cancel_outcome(final(self)),
    {
        self.current = T::blank();
        self.is_edit = false;
        self.current.clear_errors();
    }
}

impl EntityManager<User> {
    /// What `field_selected(field, id)` does, from `self` to `post`.
    pub open spec fn select_outcome(&self, post: &Self, field: Field, id: usize) -> bool {
        &&& post.current@ == match field {
            Field::JobId => UserView { job_id: id, ..self.current@ },
            Field::OrganizationId => UserView { organization_id: id, ..self.current@ },
            Field::Name => self.current@,
        }
        &&& post.current.errors_view() == match field {
            Field::Name => self.current.errors_view(),
            _ => field_updated(
                self.current.errors_view(),
                field,
                <User as Entity>::rule(post.current@, field),
            ),
        }
        &&& post.list@ == self.list@
        &&& post.is_edit == self.is_edit
    }

    /// Sets the job or organization picked for the draft user and re-runs
    /// that field's rule alone. A name is not picked: for `Field::Name`
    /// nothing changes.
    pub fn field_selected(&mut self, field: Field, id: usize)
        requires
            old(self).wf(),
        ensures
            final(self).wf(),
            old(self).select_outcome(final(self), field, id),
    {
        match field {
            Field::JobId => {
                self.current.set_job_id(id);
                self.current.validate_property(field);
            },
            Field::OrganizationId => {
                self.current.set_organization_id(id);
                self.current.validate_property(field);
            },
            Field::Name => {},
        }
    }
}

/// A valid draft, in either mode, is appended by `create` as exactly one new
/// record with the draft's name, whose identity is above every identity
/// saved before, and the manager is composing afterwards.
pub proof fn lemma_create_appends_one<T: Entity>(
    pre: EntityManager<T>,
    post: EntityManager<T>,
    r: Result<T, ManagerError>,
)
    requires
        pre.wf(),
        pre.create_outcome(&post, r),
        is_valid::<T>(pre.current@),
        max_id(pre.list@) < usize::MAX,
    ensures
        r is Ok,
        T::name_of(post.list@.last()@) == T::name_of(pre.current@),
        T::id_of(post.list@.last()@) != 0,
        post.list@.len() == pre.list@.len() + 1,
        forall|i: int| 0 <= i < pre.list@.len() ==> post.list@[i] == pre.list@[i],
        forall|i: int|
            0 <= i < pre.list@.len() ==> T::id_of(#[trigger] pre.list@[i]@) < T::id_of(
                post.list@.last()@,
            ),
        !post.is_edit,
{
    lemma_max_id_bounds(pre.list@);
    assert forall|i: int| 0 <= i < pre.list@.len() implies post.list@[i] == pre.list@[i] by {
        assert(post.list@.drop_last()[i] == post.list@[i]);
    }
}

/// Two `create` calls in a row on an invalid draft leave the list as it was,
/// and both report the draft's errors.
pub proof fn lemma_invalid_create_repeated<T: Entity>(
    a: EntityManager<T>,
    b: EntityManager<T>,
    c: EntityManager<T>,
    r1: Result<T, ManagerError>,
    r2: Result<T, ManagerError>,
)
    requires
        a.wf(),
        !is_valid::<T>(a.current@),
        a.create_outcome(&b, r1),
        b.create_outcome(&c, r2),
    ensures
        c.list@ == a.list@,
        c.current@ == a.current@,
        c.current.errors_view() == rule_errors::<T>(a.current@),
        c.is_edit == a.is_edit,
        r1 matches Err(ManagerError::Validation(e)) && e@ == rule_errors::<T>(a.current@),
        r2 == r1,
{
    assert(r1 matches Err(ManagerError::Validation(e)));
    assert(r2 matches Err(ManagerError::Validation(e)));
    let e1 = r1->Err_0->Validation_0;
    let e2 = r2->Err_0->Validation_0;
    crate::errors::lemma_same_view_same_map(e1, e2);
}

/// `load` followed by `cancel_edit` leaves the list as it was, the draft
/// blank, and the manager composing.
pub proof fn lemma_load_then_cancel<T: Entity>(
    a: EntityManager<T>,
    b: EntityManager<T>,
    c: EntityManager<T>,
    id: usize,
    r: Result<(), ManagerError>,
)
    requires
        a.wf(),
        a.load_outcome(&b, id, r),
        b.cancel_outcome(&c),
    ensures
        c.list@ == a.list@,
        c.draft_is_blank(),
        !c.is_edit,
{
}

/// `update` while composing is refused and changes nothing.
pub proof fn lemma_update_needs_edit_mode<T: Entity>(
    pre: EntityManager<T>,
    post: EntityManager<T>,
    r: Result<(), ManagerError>,
)
    requires
        pre.wf(),
        !pre.is_edit,
        pre.update_outcome(&post, r),
    ensures
        r == Err::<(), ManagerError>(ManagerError::WrongMode),
        post == pre,
{
}

/// `delete(id)` of an identity that is not saved fails with `NotFound` and
/// leaves the list as it was; of one that is saved, it removes that record
/// and keeps every other, in order.
pub proof fn lemma_delete_exact<T: Entity>(
    pre: EntityManager<T>,
    post: EntityManager<T>,
    id: usize,
    r: Result<(), ManagerError>,
)
    requires
        pre.wf(),
        pre.delete_outcome(&post, id, r),
    ensures
        !contains_id(pre.list@, id) ==> r == Err::<(), ManagerError>(ManagerError::NotFound)
            && post.list@ == pre.list@,
        contains_id(pre.list@, id) ==> {
            &&& r is Ok
            &&& post.list@.len() + 1 == pre.list@.len()
            &&& !contains_id(post.list@, id)
            &&& forall|j: int|
                0 <= j < pre.list@.len() && T::id_of(#[trigger] pre.list@[j]@) != id
                    ==> post.list@.contains(pre.list@[j])
        },
{
    if contains_id(pre.list@, id) {
        let i = choose|i: int|
            0 <= i < pre.list@.len() && T::id_of(#[trigger] pre.list@[i]@) == id
                && post.list@ == pre.list@.remove(i);
        assert forall|k: int| 0 <= k < post.list@.len() implies T::id_of(
            #[trigger] post.list@[k]@,
        ) != id by {
            if k < i {
                assert(post.list@[k] == pre.list@[k]);
            } else {
                assert(post.list@[k] == pre.list@[k + 1]);
            }
        }
        assert forall|j: int|
            0 <= j < pre.list@.len() && T::id_of(#[trigger] pre.list@[j]@) != id implies post.list@.contains(
            pre.list@[j],
        ) by {
            if j < i {
                assert(post.list@[j] == pre.list@[j]);
            } else {
                assert(j != i);
                assert(post.list@[j - 1] == pre.list@[j]);
            }
        }
    }
}

} // verus!
