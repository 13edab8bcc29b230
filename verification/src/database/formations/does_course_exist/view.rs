use vstd::prelude::*;

use crate::database::query::{id_param, param_id, QueryParam};

verus! {

/// SQL of [`DoesCourseExistQueryView`].
pub const DOES_COURSE_EXIST_SQL: &'static str = "SELECT EXISTS(SELECT 1 FROM courses WHERE id = $1) AS does_course_exist";

/// Existence check for a `courses` row, mirroring the lib's own
/// `DoesUserExistByIdQueryView`. Used to turn a missing formation into a 404
/// instead of a silently empty result.
#[derive(Debug)]
pub struct DoesCourseExistQueryView {
    params: Vec<QueryParam>,
}

impl View for DoesCourseExistQueryView {
    type V = Seq<QueryParam>;

    closed spec fn view(&self) -> Seq<QueryParam> {
        self.params@
    }
}

impl DoesCourseExistQueryView {
    #[verifier::type_invariant]
    closed spec fn well_formed(self) -> bool {
        &&& self.params@.len() == 1
        &&& self.params@[0] is I32
    }

    /// The parameters that `new` sends, in order: the course id.
    pub open spec fn spec_params(course_id: u64) -> Seq<QueryParam> {
        seq![id_param(course_id)]
    }

    pub fn new(course_id: u64) -> (r: Self)
        ensures
            r@ == Self::spec_params(course_id),
    {
        Self { params: vec![QueryParam::I32(course_id as i32)] }
    }

    pub fn course_id(&self) -> (r: u64)
        ensures
            r == param_id(self@[0]),
    {
        proof {
            use_type_invariant(self);
        }
        self.params[0].as_i32() as u64
    }

    pub fn query_sql(&self) -> (r: &'static str)
        ensures
            r == DOES_COURSE_EXIST_SQL,
    {
        DOES_COURSE_EXIST_SQL
    }

    pub fn query_params(&self) -> (r: &[QueryParam])
        ensures
            r@ == self@,
    {
        self.params.as_slice()
    }
}

/// A course id that fits in `i32` comes back unchanged from the query's
/// `course_id`.
pub proof fn lemma_does_course_exist_query_round_trip(course_id: u64)
    requires
        course_id <= i32::MAX,
    ensures
        param_id(DoesCourseExistQueryView::spec_params(course_id)[0]) == course_id,
{
}

} // verus!
