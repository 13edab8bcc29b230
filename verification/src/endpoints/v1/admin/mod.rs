pub mod formations;
pub mod users;

use vstd::prelude::*;

verus! {

/// The `details` query parameter of the admin routes.
#[derive(Debug)]
pub struct AdminUserDetailsQuery {
    /// `true` makes the answer go one level deeper (modules, then attachments).
    /// Defaults to `false`, in which case the nested fields are `null`, which
    /// means "not asked for", not "empty".
    details: bool,
}

impl AdminUserDetailsQuery {
    pub fn new(details: bool) -> (r: Self)
        ensures
            r.spec_details() == details,
    {
        Self { details }
    }

    pub closed spec fn spec_details(&self) -> bool {
        self.details
    }

    pub fn details(&self) -> (r: bool)
        ensures
            r == self.spec_details(),
    {
        self.details
    }
}

} // verus!
