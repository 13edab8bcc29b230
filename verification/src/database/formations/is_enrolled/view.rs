use vstd::prelude::*;

use crate::database::query::{id_param, param_id, QueryParam};

verus! {

/// SQL of [`IsEnrolledQueryView`].
pub const IS_ENROLLED_SQL: &'static str = "SELECT EXISTS(SELECT 1 FROM user_courses WHERE user_id = $1 AND course_id = $2) \
         AS is_enrolled";

/// Whether a user is enrolled in a course (`user_courses` row). Guards
/// `GET /v1/formations/{formation_id}/`. Never cached: an unenrolment must
/// take effect on the next request.
#[derive(Debug)]
pub struct IsEnrolledQueryView {
    params: Vec<QueryParam>,
}

impl View for IsEnrolledQueryView {
    type V = Seq<QueryParam>;

    closed spec fn view(&self) -> Seq<QueryParam> {
        self.params@
    }
}

impl IsEnrolledQueryView {
    #[verifier::type_invariant]
    closed spec fn well_formed(self) -> bool {
        &&& self.params@.len() == 2
        &&& self.params@[0] is I32
        &&& self.params@[1] is I32
    }

    /// The parameters that `new` sends, in order: the user id, the formation id.
    pub open spec fn spec_params(user_id: u64, formation_id: u64) -> Seq<QueryParam> {
        seq![id_param(user_id), id_param(formation_id)]
    }

    pub fn new(user_id: u64, formation_id: u64) -> (r: Self)
        ensures
            r@ == Self::spec_params(user_id, formation_id),
    {
        Self { params: vec![QueryParam::I32(user_id as i32), QueryParam::I32(formation_id as i32)] }
    }

    pub fn user_id(&self) -> (r: u64)
        ensures
            r == param_id(self@[0]),
    {
        proof {
            use_type_invariant(self);
        }
        self.params[0].as_i32() as u64
    }

    pub fn formation_id(&self) -> (r: u64)
        ensures
            r == param_id(self@[1]),
    {
        proof {
            use_type_invariant(self);
        }
        self.params[1].as_i32() as u64
    }

    pub fn query_sql(&self) -> (r: &'static str)
        ensures
            r == IS_ENROLLED_SQL,
    {
        IS_ENROLLED_SQL
    }

    pub fn query_params(&self) -> (r: &[QueryParam])
        ensures
            r@ == self@,
    {
        self.params.as_slice()
    }
}

/// A user id and a course id that fit in `i32` come back unchanged from
/// the query's `user_id` and `formation_id`.
pub proof fn lemma_is_enrolled_query_round_trip(user_id: u64, formation_id: u64)
    requires
        user_id <= i32::MAX,
        formation_id <= i32::MAX,
    ensures
        param_id(IsEnrolledQueryView::spec_params(user_id, formation_id)[0]) == user_id,
        param_id(IsEnrolledQueryView::spec_params(user_id, formation_id)[1]) == formation_id,
{
}

} // verus!
