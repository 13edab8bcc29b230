use vstd::prelude::*;

use crate::endpoints::v1::admin::users::UsersFormation;

verus! {

/// The courses of one user, with the user's progress on each.
#[derive(Debug)]
pub struct GetUserByIdResultView {
    formations: Vec<UsersFormation>,
}

impl View for GetUserByIdResultView {
    type V = Seq<UsersFormation>;

    closed spec fn view(&self) -> Seq<UsersFormation> {
        self.formations@
    }
}

impl GetUserByIdResultView {
    pub fn new(formations: Vec<UsersFormation>) -> (r: Self)
        ensures
            r@ == formations@,
    {
        Self { formations }
    }

    pub fn formations(&self) -> (r: &[UsersFormation])
        ensures
            r@ == self@,
    {
        self.formations.as_slice()
    }
}

} // verus!
