pub mod delete;
pub mod get;

use vstd::prelude::*;

verus! {

/// Path parameters of `/admin/users/{user_id}/{formation_id}`: the Core API id
/// of the user and the id of the course.
#[derive(Debug)]
pub struct AdminUserFormationIdParams {
    user_id: u64,
    formation_id: u64,
}

impl AdminUserFormationIdParams {
    pub fn new(user_id: u64, formation_id: u64) -> (r: Self)
        ensures
            r.spec_user_id() == user_id,
            r.spec_formation_id() == formation_id,
    {
        Self { user_id, formation_id }
    }

    pub closed spec fn spec_user_id(&self) -> u64 {
        self.user_id
    }

    pub closed spec fn spec_formation_id(&self) -> u64 {
        self.formation_id
    }

    pub fn user_id(&self) -> (r: u64)
        ensures
            r == self.spec_user_id(),
    {
        self.user_id
    }

    pub fn formation_id(&self) -> (r: u64)
        ensures
            r == self.spec_formation_id(),
    {
        self.formation_id
    }
}

} // verus!
