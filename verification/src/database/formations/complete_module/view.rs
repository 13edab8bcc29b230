use vstd::prelude::*;

use crate::database::query::{id_param, param_id, QueryParam};

verus! {

/// SQL of [`CompleteModuleQueryView`].
pub const COMPLETE_MODULE_SQL: &'static str = "INSERT INTO user_modules (user_id, module_id, is_completed, completed_at) \
         VALUES ($1, $2, TRUE, CURRENT_TIMESTAMP) \
         ON CONFLICT (user_id, module_id) \
         DO UPDATE SET is_completed = TRUE, completed_at = CURRENT_TIMESTAMP";

/// Marks a module as completed for a user (upsert on the `(user_id, module_id)`
/// primary key). A `module_id` that doesn't exist trips the `course_modules`
/// foreign key and surfaces as a database failure instead of
/// silently doing nothing. The database-side trigger
/// (`fn_update_user_course_progress`) takes care of rolling this up into the
/// parent `user_courses` status.
#[derive(Debug)]
pub struct CompleteModuleQueryView {
    params: Vec<QueryParam>,
}

impl View for CompleteModuleQueryView {
    type V = Seq<QueryParam>;

    closed spec fn view(&self) -> Seq<QueryParam> {
        self.params@
    }
}

impl CompleteModuleQueryView {
    #[verifier::type_invariant]
    closed spec fn well_formed(self) -> bool {
        &&& self.params@.len() == 2
        &&& self.params@[0] is I32
        &&& self.params@[1] is I32
    }

    /// The parameters that `new` sends, in order: the user id, the module id.
    pub open spec fn spec_params(user_id: u64, module_id: u64) -> Seq<QueryParam> {
        seq![id_param(user_id), id_param(module_id)]
    }

    pub fn new(user_id: u64, module_id: u64) -> (r: Self)
        ensures
            r@ == Self::spec_params(user_id, module_id),
    {
        Self { params: vec![QueryParam::I32(user_id as i32), QueryParam::I32(module_id as i32)] }
    }

    pub fn user_id(&self) -> (r: u64)
        ensures
            r == param_id(self@[0]),
    {
        proof {
            use_type_invariant(self);
        }
        self.params[0].as_i32() as u64
    }

    pub fn module_id(&self) -> (r: u64)
        ensures
            r == param_id(self@[1]),
    {
        proof {
            use_type_invariant(self);
        }
        self.params[1].as_i32() as u64
    }

    pub fn query_sql(&self) -> (r: &'static str)
        ensures
            r == COMPLETE_MODULE_SQL,
    {
        COMPLETE_MODULE_SQL
    }

    pub fn query_params(&self) -> (r: &[QueryParam])
        ensures
            r@ == self@,
    {
        self.params.as_slice()
    }
}

/// A user id and a module id that fit in `i32` come back unchanged from
/// the query's `user_id` and `module_id`.
pub proof fn lemma_complete_module_query_round_trip(user_id: u64, module_id: u64)
    requires
        user_id <= i32::MAX,
        module_id <= i32::MAX,
    ensures
        param_id(CompleteModuleQueryView::spec_params(user_id, module_id)[0]) == user_id,
        param_id(CompleteModuleQueryView::spec_params(user_id, module_id)[1]) == module_id,
{
}

} // verus!
