use vstd::prelude::*;

use crate::endpoints::v1::admin::users::UsersFormation;

verus! {

/// Answer of `GET /admin/users/{user_id}/`.
#[derive(Debug)]
pub struct GetUserByIdResultView {
    /// Courses that the user is registered to. Empty when the user follows
    /// none, or when the id matches nobody.
    pub formations: Vec<UsersFormation>,
}

} // verus!
