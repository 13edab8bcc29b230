use vstd::prelude::*;

use crate::database::admin::users::unsub_user_formation::view::UnsubUserFormationQueryView;
use crate::database::query::DbFailure;

verus! {

broadcast use vstd::string::to_string_from_display_ensures_for_str;

/// Why `DELETE /admin/users/{user_id}/{formation_id}/` failed.
#[derive(Debug, Clone, PartialEq)]
pub enum UnsubFormationError {
    DatabaseError,
    UnknownFormations,
}

impl UnsubFormationError {
    /// The plain-text body of the error response.
    pub fn to_string(&self) -> (r: String)
        ensures
            r@ == match self {
                UnsubFormationError::DatabaseError =>
                    "An error occurred while accessing the database."@,
                UnsubFormationError::UnknownFormations => "Unknown formations."@,
            },
    {
        match self {
            UnsubFormationError::DatabaseError => {
                "An error occurred while accessing the database.".to_string()
            },
            UnsubFormationError::UnknownFormations => "Unknown formations.".to_string(),
        }
    }

    /// The HTTP status of the error response.
    pub fn status_code(&self) -> (r: u16)
        ensures
            r == match self {
                UnsubFormationError::DatabaseError => 500u16,
                UnsubFormationError::UnknownFormations => 400u16,
            },
    {
        match self {
            UnsubFormationError::DatabaseError => 500,
            UnsubFormationError::UnknownFormations => 400,
        }
    }
}

/// The query that unregisters the user of the path from the course of the
/// path.
pub fn trigger_unsub_formation(formation_id: u64, user_id: u64) -> (r: UnsubUserFormationQueryView)
    ensures
        r@ == UnsubUserFormationQueryView::spec_params(user_id, formation_id),
{
    UnsubUserFormationQueryView::new(user_id, formation_id)
}

/// What the route answers once the database has answered the unregistration:
/// success (`204`), whether or not the user was registered, or a database
/// error.
pub fn on_unsubscribed(done: Result<(), DbFailure>) -> (r: Result<(), UnsubFormationError>)
    ensures
        match done {
            Ok(()) => r == Ok::<(), UnsubFormationError>(()),
            Err(_) => r == Err::<(), _>(UnsubFormationError::DatabaseError),
        },
{
    match done {
        Ok(()) => Ok(()),
        Err(_) => Err(UnsubFormationError::DatabaseError),
    }
}

} // verus!
