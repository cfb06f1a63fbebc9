use vstd::prelude::*;
use vstd::string::StringExecFns;

verus! {

/// Why a storage operation failed.
#[derive(Clone, Debug, PartialEq, Eq)]
pub enum RepositoryError {
    /// No row had the identity asked for.
    NotFound,
    /// The storage driver failed; its message.
    DatabaseError(String),
    /// The store refused the row; its message.
    ConstraintViolation(String),
}

impl RepositoryError {
    pub open spec fn message_view(&self) -> Seq<char> {
        match self {
            RepositoryError::NotFound => "Entity not found"@,
            RepositoryError::DatabaseError(m) => "Database error: "@ + m@,
            RepositoryError::ConstraintViolation(m) => "Constraint violation: "@ + m@,
        }
    }

    /// The message shown for the error.
    pub fn message(&self) -> (r: String)
        ensures
            r@ == self.message_view(),
    {
        match self {
            RepositoryError::NotFound => "Entity not found".to_owned(),
            RepositoryError::DatabaseError(m) => "Database error: ".to_owned().concat(m.as_str()),
            RepositoryError::ConstraintViolation(m) => "Constraint violation: ".to_owned().concat(
                m.as_str(),
            ),
        }
    }
}

/// The outcome of an update or delete by identity that changed `rows` rows:
/// none changed means no row had that identity.
pub fn rows_changed(rows: u64) -> (r: Result<(), RepositoryError>)
    ensures
        r == if rows == 0 {
            Err::<(), RepositoryError>(RepositoryError::NotFound)
        } else {
            Ok(())
        },
{
    if rows == 0 {
        Err(RepositoryError::NotFound)
    } else {
        Ok(())
    }
}

} // verus!
