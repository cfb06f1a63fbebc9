use vstd::prelude::*;
use crate::errors::{ErrorMap, Field, FieldError};

verus! {

/// What every record kind offers to the state manager. A record is seen
/// through its view (`Self::V`: identity and field values) and its error
/// map, which is kept apart from the view: errors are not part of a record's
/// identity or equality.
pub trait Entity: Sized + View {
    /// The identity of a record; zero for one that was never saved.
    spec fn id_of(v: Self::V) -> usize;

    spec fn name_of(v: Self::V) -> Seq<char>;

    /// `v` with its identity replaced by `id`.
    spec fn with_id(v: Self::V, id: usize) -> Self::V;

    /// `v` with its name replaced by `name`.
    spec fn with_name(v: Self::V, name: Seq<char>) -> Self::V;

    /// The fresh, unsaved record.
    spec fn blank_view() -> Self::V;

    /// The rule of field `f` on the values `v`: `None` when it holds.
    spec fn rule(v: Self::V, f: Field) -> Option<FieldError>;

    spec fn errors_view(&self) -> Map<Field, FieldError>;

    fn blank() -> (r: Self)
        ensures
            r@ == Self::blank_view(),
            Self::id_of(r@) == 0,
            r.errors_view() == Map::<Field, FieldError>::empty(),
    ;

    fn id(&self) -> (r: usize)
        ensures
            r == Self::id_of(self@),
    ;

    fn set_id(&mut self, id: usize)
        ensures
            final(self)@ == Self::with_id(old(self)@, id),
            Self::id_of(final(self)@) == id,
            Self::name_of(final(self)@) == Self::name_of(old(self)@),
            final(self).errors_view() == old(self).errors_view(),
    ;

    fn name(&self) -> (r: &str)
        ensures
            r@ == Self::name_of(self@),
    ;

    fn set_name(&mut self, name: String)
        ensures
            final(self)@ == Self::with_name(old(self)@, name@),
            Self::name_of(final(self)@) == name@,
            Self::id_of(final(self)@) == Self::id_of(old(self)@),
            final(self).errors_view() == old(self).errors_view(),
    ;

    fn errors(&self) -> (r: ErrorMap)
        ensures
            r@ == self.errors_view(),
    ;

    /// Runs every field rule and replaces the error map with what failed.
    fn validate(&mut self) -> (r: Result<(), ErrorMap>)
        ensures
            final(self)@ == old(self)@,
            final(self).errors_view() == errors_from(|f: Field| Self::rule(old(self)@, f)),
            r is Ok <==> final(self).errors_view() == Map::<Field, FieldError>::empty(),
            r matches Err(e) ==> e@ == final(self).errors_view(),
    ;

    /// Runs the rule of field `f` alone and updates only its entry.
    fn validate_property(&mut self, f: Field)
        ensures
            final(self)@ == old(self)@,
            final(self).errors_view() == field_updated(
                old(self).errors_view(),
                f,
                Self::rule(old(self)@, f),
            ),
    ;

    fn clear_errors(&mut self)
        ensures
            final(self)@ == old(self)@,
            final(self).errors_view() == Map::<Field, FieldError>::empty(),
    ;

    /// A separate copy of the record, errors included.
    fn duplicate(&self) -> (r: Self)
        ensures
            r@ == self@,
            r.errors_view() == self.errors_view(),
    ;
}

/// The error map of a set of field rules: an entry for each rule that fails.
pub open spec fn errors_from(rule: spec_fn(Field) -> Option<FieldError>) -> Map<Field, FieldError> {
    Map::new(|f: Field| rule(f) is Some, |f: Field| rule(f)->0)
}

/// The error map that whole-record validation produces for the values `v`.
pub open spec fn rule_errors<E: Entity>(v: E::V) -> Map<Field, FieldError> {
    errors_from(|f: Field| E::rule(v, f))
}

/// No field rule fails on the values `v`.
pub open spec fn is_valid<E: Entity>(v: E::V) -> bool {
    rule_errors::<E>(v) == Map::<Field, FieldError>::empty()
}

/// `errors` with the entry of `f` set from the outcome of its rule.
pub open spec fn field_updated(
    errors: Map<Field, FieldError>,
    f: Field,
    outcome: Option<FieldError>,
) -> Map<Field, FieldError> {
    match outcome {
        Some(e) => errors.insert(f, e),
        None => errors.remove(f),
    }
}

} // verus!
