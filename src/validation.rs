use vstd::prelude::*;
use vstd::string::StrSliceExecFns;
use crate::entity::rule_errors;
use crate::errors::{Field, FieldError};
use crate::job::{Job, JobView};
use crate::organization::{Organization, OrganizationView};
use crate::user::{User, UserView};

verus! {

/// Fewest characters a name may have once trimmed.
pub const NAME_MIN_LEN: usize = 3;

/// Most characters a name may have.
pub const NAME_MAX_LEN: usize = 50;

/// A character with the Unicode `White_Space` property.
pub open spec fn is_white_space(c: char) -> bool {
    let u = c as u32;
    (0x9 <= u <= 0xD) || u == 0x20 || u == 0x85 || u == 0xA0 || u == 0x1680 || (0x2000 <= u
        <= 0x200A) || u == 0x2028 || u == 0x2029 || u == 0x202F || u == 0x205F || u == 0x3000
}

/// `s` without its leading whitespace.
pub open spec fn trim_start(s: Seq<char>) -> Seq<char>
    decreases s.len(),
{
    if s.len() > 0 && is_white_space(s[0]) {
        trim_start(s.drop_first())
    } else {
        s
    }
}

/// `s` without its trailing whitespace.
pub open spec fn trim_end(s: Seq<char>) -> Seq<char>
    decreases s.len(),
{
    if s.len() > 0 && is_white_space(s.last()) {
        trim_end(s.drop_last())
    } else {
        s
    }
}

/// `s` without its leading and trailing whitespace.
pub open spec fn trimmed(s: Seq<char>) -> Seq<char> {
    trim_end(trim_start(s))
}

/// Relies on `str::trim`: the input without leading and trailing characters
/// that have the Unicode `White_Space` property.
#[verifier::external_body]
fn trim_str<'a>(s: &'a str) -> (r: &'a str)
    ensures
        r@ == trimmed(s@),
{
    s.trim()
}

/// A sequence of whitespace trims to nothing from the start.
pub proof fn lemma_trim_start_all_white(s: Seq<char>)
    requires
        forall|i: int| 0 <= i < s.len() ==> is_white_space(#[trigger] s[i]),
    ensures
        trim_start(s).len() == 0,
    decreases s.len(),
{
    if s.len() > 0 {
        assert forall|i: int| 0 <= i < s.drop_first().len() implies is_white_space(
            #[trigger] s.drop_first()[i],
        ) by {
            assert(s.drop_first()[i] == s[i + 1]);
        }
        lemma_trim_start_all_white(s.drop_first());
    }
}

/// The name rule, given the name and the name without surrounding whitespace.
pub open spec fn name_rule_given(name: Seq<char>, trim: Seq<char>) -> Option<FieldError> {
    if trim.len() == 0 {
        Some(FieldError::NameRequired)
    } else if trim.len() < NAME_MIN_LEN {
        Some(FieldError::NameTooShort)
    } else if name.len() > NAME_MAX_LEN {
        Some(FieldError::NameTooLong)
    } else {
        None
    }
}

/// The name rule: required once trimmed, at least three characters once
/// trimmed, at most fifty characters.
pub open spec fn name_rule(name: Seq<char>) -> Option<FieldError> {
    name_rule_given(name, trimmed(name))
}

/// The rule of a foreign-key selection: zero means nothing was selected.
pub open spec fn selection_rule(id: usize, missing: FieldError) -> Option<FieldError> {
    if id == 0 {
        Some(missing)
    } else {
        None
    }
}

/// Applies the name rule to `name`, whose trimmed form is `trim`.
pub fn check_name_given(name: &str, trim: &str) -> (r: Option<FieldError>)
    ensures
        r == name_rule_given(name@, trim@),
{
    let trim_len = trim.unicode_len();
    if trim_len == 0 {
        Some(FieldError::NameRequired)
    } else if trim_len < NAME_MIN_LEN {
        Some(FieldError::NameTooShort)
    } else if name.unicode_len() > NAME_MAX_LEN {
        Some(FieldError::NameTooLong)
    } else {
        None
    }
}

/// Applies the name rule to `name`.
pub fn check_name(name: &str) -> (r: Option<FieldError>)
    ensures
        r == name_rule(name@),
{
    let trim = trim_str(name);
    check_name_given(name, trim)
}

/// Applies the selection rule to a foreign key.
pub fn check_selection(id: usize, missing: FieldError) -> (r: Option<FieldError>)
    ensures
        r == selection_rule(id, missing),
{
    if id == 0 {
        Some(missing)
    } else {
        None
    }
}

/// The name rule by length: a name that is empty once trimmed is required,
/// one of one or two characters once trimmed is too short, one of more than
/// fifty characters is too long, and any other passes.
pub proof fn lemma_name_rule(name: Seq<char>)
    ensures
        (forall|i: int| 0 <= i < name.len() ==> is_white_space(#[trigger] name[i]))
            ==> name_rule(name) == Some(FieldError::NameRequired),
        name.len() > 0 && !is_white_space(name[0]) && !is_white_space(name.last())
            ==> trimmed(name) == name,
        trimmed(name).len() == 0 ==> name_rule(name) == Some(FieldError::NameRequired),
        1 <= trimmed(name).len() <= 2 ==> name_rule(name) == Some(FieldError::NameTooShort),
        trimmed(name).len() >= 3 && name.len() > 50 ==> name_rule(name) == Some(
            FieldError::NameTooLong,
        ),
        trimmed(name).len() >= 3 && name.len() <= 50 ==> name_rule(name) is None,
{
    if forall|i: int| 0 <= i < name.len() ==> is_white_space(#[trigger] name[i]) {
        lemma_trim_start_all_white(name);
    }
}

/// For every record kind, whole-record validation has an entry for the name
/// exactly when the name rule fails, and that entry is the rule's error.
pub proof fn lemma_name_entry(u: UserView, j: JobView, o: OrganizationView)
    ensures
        rule_errors::<User>(u).contains_key(Field::Name) <==> name_rule(u.name) is Some,
        rule_errors::<Job>(j).contains_key(Field::Name) <==> name_rule(j.name) is Some,
        rule_errors::<Organization>(o).contains_key(Field::Name) <==> name_rule(o.name) is Some,
        name_rule(u.name) matches Some(e) ==> rule_errors::<User>(u)[Field::Name] == e,
        name_rule(j.name) matches Some(e) ==> rule_errors::<Job>(j)[Field::Name] == e,
        name_rule(o.name) matches Some(e) ==> rule_errors::<Organization>(o)[Field::Name] == e,
{
}

} // verus!
