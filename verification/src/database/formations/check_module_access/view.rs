use vstd::prelude::*;

use crate::database::query::{id_param, param_id, QueryParam};

verus! {

/// SQL of [`CheckModuleAccessQueryView`].
pub const CHECK_MODULE_ACCESS_SQL: &'static str = "SELECT to_jsonb(t) FROM ( \
            SELECT \
                EXISTS(SELECT 1 FROM user_courses WHERE user_id = $1 AND course_id = $2) \
                    AS enrolled, \
                EXISTS(SELECT 1 FROM course_modules WHERE id = $3 AND course_id = $2) \
                    AS module_in_formation \
         ) t";

/// Authorization check shared by every route under
/// `/v1/formations/{formation_id}/{module_id}`: tells in one round trip whether
/// the caller is enrolled in the course (`user_courses`) and whether the module
/// of the path belongs to that course. Never cached: an unenrolment must take
/// effect on the next request.
#[derive(Debug)]
pub struct CheckModuleAccessQueryView {
    params: Vec<QueryParam>,
}

impl View for CheckModuleAccessQueryView {
    type V = Seq<QueryParam>;

    closed spec fn view(&self) -> Seq<QueryParam> {
        self.params@
    }
}

impl CheckModuleAccessQueryView {
    #[verifier::type_invariant]
    closed spec fn well_formed(self) -> bool {
        &&& self.params@.len() == 3
        &&& self.params@[0] is I32
        &&& self.params@[1] is I32
        &&& self.params@[2] is I32
    }

    /// The parameters that `new` sends, in order: the user id, the formation id, the module id.
    pub open spec fn spec_params(user_id: u64, formation_id: u64, module_id: u64) -> Seq<QueryParam> {
        seq![id_param(user_id), id_param(formation_id), id_param(module_id)]
    }

    pub fn new(user_id: u64, formation_id: u64, module_id: u64) -> (r: Self)
        ensures
            r@ == Self::spec_params(user_id, formation_id, module_id),
    {
        Self { params: vec![QueryParam::I32(user_id as i32), QueryParam::I32(formation_id as i32), QueryParam::I32(module_id as i32)] }
    }

    pub fn user_id(&self) -> (r: u64)
        ensures
            r == param_id(self@[0]),
    {
        proof {
            use_type_invariant(self);
        }
        self.params[0].as_i32() as u64
    }

    pub fn formation_id(&self) -> (r: u64)
        ensures
            r == param_id(self@[1]),
    {
        proof {
            use_type_invariant(self);
        }
        self.params[1].as_i32() as u64
    }

    pub fn module_id(&self) -> (r: u64)
        ensures
            r == param_id(self@[2]),
    {
        proof {
            use_type_invariant(self);
        }
        self.params[2].as_i32() as u64
    }

    pub fn query_sql(&self) -> (r: &'static str)
        ensures
            r == CHECK_MODULE_ACCESS_SQL,
    {
        CHECK_MODULE_ACCESS_SQL
    }

    pub fn query_params(&self) -> (r: &[QueryParam])
        ensures
            r@ == self@,
    {
        self.params.as_slice()
    }
}

/// A user id, a course id and a module id that fit in `i32` come back
/// unchanged from the query's `user_id`, `formation_id` and `module_id`.
pub proof fn lemma_module_access_query_round_trip(user_id: u64, formation_id: u64, module_id: u64)
    requires
        user_id <= i32::MAX,
        formation_id <= i32::MAX,
        module_id <= i32::MAX,
    ensures
        param_id(CheckModuleAccessQueryView::spec_params(user_id, formation_id, module_id)[0]) == user_id,
        param_id(CheckModuleAccessQueryView::spec_params(user_id, formation_id, module_id)[1]) == formation_id,
        param_id(CheckModuleAccessQueryView::spec_params(user_id, formation_id, module_id)[2]) == module_id,
{
}

/// What a [`ModuleAccessRow`] holds.
pub struct ModuleAccessRowModel {
    pub enrolled: bool,
    pub module_in_formation: bool,
}

#[derive(Debug, Clone, Copy, PartialEq, Eq)]
pub struct ModuleAccessRow {
    enrolled: bool,
    module_in_formation: bool,
}

impl View for ModuleAccessRow {
    type V = ModuleAccessRowModel;

    closed spec fn view(&self) -> ModuleAccessRowModel {
        ModuleAccessRowModel {
            enrolled: self.enrolled,
            module_in_formation: self.module_in_formation,
        }
    }
}

impl ModuleAccessRow {
    pub fn new(enrolled: bool, module_in_formation: bool) -> (r: Self)
        ensures
            r@ == (ModuleAccessRowModel {
                enrolled: enrolled,
                module_in_formation: module_in_formation,
            }),
    {
        Self { enrolled, module_in_formation }
    }

    /// The user has a `user_courses` row for the course of the path.
    pub fn enrolled(&self) -> (r: bool)
        ensures
            r == self@.enrolled,
    {
        self.enrolled
    }

    /// The module of the path exists and belongs to the course of the path.
    pub fn module_in_formation(&self) -> (r: bool)
        ensures
            r == self@.module_in_formation,
    {
        self.module_in_formation
    }
}

} // verus!
