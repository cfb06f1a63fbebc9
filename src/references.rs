use vstd::prelude::*;
use crate::entity::Entity;
use crate::entity_manager::{contains_id, find_index};

verus! {

/// What a dangling or unset reference shows.
pub const PLACEHOLDER: &'static str = "None";

/// `r` is the display name of identity `id` in `list`: the name of the first
/// record with that identity, or the placeholder when there is none.
pub open spec fn resolves_to<T: Entity>(list: Seq<T>, id: usize, r: Seq<char>) -> bool {
    if contains_id(list, id) {
        exists|i: int|
            0 <= i < list.len() && T::id_of(#[trigger] list[i]@) == id && (forall|j: int|
                0 <= j < i ==> T::id_of(#[trigger] list[j]@) != id) && r == T::name_of(list[i]@)
    } else {
        r == PLACEHOLDER@
    }
}

/// The display name of the record with identity `id` in `list`, or the
/// placeholder "None" when there is none.
pub fn resolve_name<T: Entity>(list: &Vec<T>, id: usize) -> (r: String)
    ensures
        resolves_to(list@, id, r@),
{
    match find_index(list, id) {
        Some(i) => {
            assert(T::id_of(list@[i as int]@) == id);
            list[i].name().to_owned()
        },
        None => PLACEHOLDER.to_owned(),
    }
}

} // verus!
