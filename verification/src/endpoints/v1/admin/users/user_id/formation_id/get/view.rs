use vstd::prelude::*;

use crate::endpoints::v1::admin::users::UsersFormationModule;

verus! {

/// A user's progress in a course, module by module.
#[derive(Debug)]
pub struct GetUserFormation {
    /// Modules of the course, with the user's progress on each.
    pub modules: Vec<UsersFormationModule>,
}

impl GetUserFormation {
    pub fn new(modules: Vec<UsersFormationModule>) -> (r: Self)
        ensures
            r.modules@ == modules@,
    {
        Self { modules }
    }

    pub fn modules(&self) -> (r: &[UsersFormationModule])
        ensures
            r@ == self.modules@,
    {
        self.modules.as_slice()
    }
}

} // verus!
