use vstd::prelude::*;

use crate::database::query::{id_param, param_id, QueryParam};

verus! {

/// SQL of [`UnsubUserFormationQueryView`].
pub const UNSUB_USER_FORMATION_SQL: &'static str = "DELETE FROM user_courses WHERE user_id = $1 AND course_id = $2";

/// Unregisters a user from a course (`user_courses`). Cascades to that
/// user's per-module progress on the same course, since `user_modules`
/// references `course_modules` (not `user_courses`) and is left untouched;
/// re-registering the pair therefore starts a fresh `user_courses` row while
/// history in `user_modules` is preserved.
#[derive(Debug)]
pub struct UnsubUserFormationQueryView {
    params: Vec<QueryParam>,
}

impl View for UnsubUserFormationQueryView {
    type V = Seq<QueryParam>;

    closed spec fn view(&self) -> Seq<QueryParam> {
        self.params@
    }
}

impl UnsubUserFormationQueryView {
    #[verifier::type_invariant]
    closed spec fn well_formed(self) -> bool {
        &&& self.params@.len() == 2
        &&& self.params@[0] is I32
        &&& self.params@[1] is I32
    }

    /// The parameters that `new` sends, in order: the user id, the formation id.
    pub open spec fn spec_params(user_id: u64, formation_id: u64) -> Seq<QueryParam> {
        seq![id_param(user_id), id_param(formation_id)]
    }

    pub fn new(user_id: u64, formation_id: u64) -> (r: Self)
        ensures
            r@ == Self::spec_params(user_id, formation_id),
    {
        Self { params: vec![QueryParam::I32(user_id as i32), QueryParam::I32(formation_id as i32)] }
    }

    pub fn user_id(&self) -> (r: u64)
        ensures
            r == param_id(self@[0]),
    {
        proof {
            use_type_invariant(self);
        }
        self.params[0].as_i32() as u64
    }

    pub fn formation_id(&self) -> (r: u64)
        ensures
            r == param_id(self@[1]),
    {
        proof {
            use_type_invariant(self);
        }
        self.params[1].as_i32() as u64
    }

    pub fn query_sql(&self) -> (r: &'static str)
        ensures
            r == UNSUB_USER_FORMATION_SQL,
    {
        UNSUB_USER_FORMATION_SQL
    }

    pub fn query_params(&self) -> (r: &[QueryParam])
        ensures
            r@ == self@,
    {
        self.params.as_slice()
    }
}

/// A user id and a course id that fit in `i32` come back unchanged from
/// the query's `user_id` and `formation_id`.
pub proof fn lemma_unsub_user_formation_query_round_trip(user_id: u64, formation_id: u64)
    requires
        user_id <= i32::MAX,
        formation_id <= i32::MAX,
    ensures
        param_id(UnsubUserFormationQueryView::spec_params(user_id, formation_id)[0]) == user_id,
        param_id(UnsubUserFormationQueryView::spec_params(user_id, formation_id)[1]) == formation_id,
{
}

} // verus!
