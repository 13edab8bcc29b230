use vstd::prelude::*;

verus! {

/// A user registered to at least one course.
#[derive(Debug)]
pub struct User {
    /// Core API id of the user.
    pub id: u64,
    /// First and last name of the user.
    pub name: String,
}

/// Answer of `GET /admin/users/`.
#[derive(Debug)]
pub struct GetUsersResultView {
    /// Users with at least one registration. Not the platform's whole directory.
    pub users: Vec<User>,
}

} // verus!
