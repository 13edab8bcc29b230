use vstd::prelude::*;

verus! {

/// Body of `POST /admin/formations/{formation_id}/`: the user to register.
#[derive(Debug)]
pub struct RegisterUserView {
    user_id: u64,
}

impl RegisterUserView {
    pub fn new(user_id: u64) -> (r: Self)
        ensures
            r.spec_user_id() == user_id,
    {
        Self { user_id }
    }

    pub closed spec fn spec_user_id(&self) -> u64 {
        self.user_id
    }

    pub fn user_id(&self) -> (r: u64)
        ensures
            r == self.spec_user_id(),
    {
        self.user_id
    }
}

} // verus!
