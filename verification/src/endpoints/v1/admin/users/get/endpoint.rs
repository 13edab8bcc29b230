use vstd::prelude::*;

use crate::database::admin::users::get_users::view::UserRow;
use crate::database::query::DbFailure;
use crate::endpoints::v1::admin::users::get::view::{GetUsersResultView, User};

verus! {

broadcast use vstd::string::to_string_from_display_ensures_for_str;

/// `out` is the payload given for the user row `row`.
pub open spec fn user_mapped(row: UserRow, out: User) -> bool {
    &&& out.id == row@.id as u64
    &&& out.name@ == row@.name
}

/// `outs` maps `rows` one for one, in the same order.
pub open spec fn users_mapped(rows: Seq<UserRow>, outs: Seq<User>) -> bool {
    &&& outs.len() == rows.len()
    &&& forall|i: int| 0 <= i < rows.len() ==> user_mapped(#[trigger] rows[i], outs[i])
}

pub fn map_user(row: &UserRow) -> (r: User)
    ensures
        user_mapped(*row, r),
{
    User { id: row.id() as u64, name: row.name().to_string() }
}

/// Why `GET /admin/users/` failed.
#[derive(Debug, Clone, PartialEq)]
pub enum GetUsersError {
    DatabaseError,
}

impl GetUsersError {
    /// The plain-text body of the error response.
    pub fn to_string(&self) -> (r: String)
        ensures
            match self {
                GetUsersError::DatabaseError => r@
                    == "An error occurred while accessing the database."@,
            },
    {
        match self {
            GetUsersError::DatabaseError => {
                "An error occurred while accessing the database.".to_string()
            },
        }
    }

    /// The HTTP status of the error response.
    pub fn status_code(&self) -> (r: u16)
        ensures
            match self {
                GetUsersError::DatabaseError => r == 500,
            },
    {
        match self {
            GetUsersError::DatabaseError => 500,
        }
    }
}

/// What `GET /admin/users/` answers once the database has answered the users
/// query: every user, in the order of the rows, or a database error.
pub fn trigger_get_users(rows: Result<Vec<UserRow>, DbFailure>) -> (r: Result<
    GetUsersResultView,
    GetUsersError,
>)
    ensures
        match rows {
            Ok(rows) => r matches Ok(view) && users_mapped(rows@, view.users@),
            Err(_) => r == Err::<GetUsersResultView, _>(GetUsersError::DatabaseError),
        },
{
    match rows {
        Ok(rows) => {
            let mut users: Vec<User> = Vec::new();
            let mut i: usize = 0;
            while i < rows.len()
                invariant
                    i <= rows@.len(),
                    users_mapped(rows@.take(i as int), users@),
                decreases rows@.len() - i,
            {
                users.push(map_user(&rows[i]));
                proof {
                    assert(rows@.take(i + 1) =~= rows@.take(i as int).push(rows@[i as int]));
                }
                i += 1;
            }
            proof {
                assert(rows@.take(rows@.len() as int) =~= rows@);
            }
            Ok(GetUsersResultView { users })
        },
        Err(_) => Err(GetUsersError::DatabaseError),
    }
}

} // verus!
