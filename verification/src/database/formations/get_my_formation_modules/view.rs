use vstd::prelude::*;

use crate::database::query::{id_param, param_id, QueryParam};
use crate::model::{opt_str, opt_text};

verus! {

/// SQL of [`GetMyFormationModulesQueryView`].
pub const GET_MY_FORMATION_MODULES_SQL: &'static str = "SELECT to_jsonb(t) FROM ( \
            SELECT cm.id, cm.title AS name, cm.content AS description, \
                COALESCE(um.is_completed, FALSE) AS completed \
            FROM course_modules cm \
            LEFT JOIN user_modules um ON um.module_id = cm.id AND um.user_id = $2 \
            WHERE cm.course_id = $1 \
            ORDER BY cm.sort_order, cm.id \
         ) t";

/// Lists a course's modules along with whether the given user has completed
/// each one (`LEFT JOIN` on `user_modules`, defaulting to `false`).
#[derive(Debug)]
pub struct GetMyFormationModulesQueryView {
    params: Vec<QueryParam>,
}

impl View for GetMyFormationModulesQueryView {
    type V = Seq<QueryParam>;

    closed spec fn view(&self) -> Seq<QueryParam> {
        self.params@
    }
}

impl GetMyFormationModulesQueryView {
    #[verifier::type_invariant]
    closed spec fn well_formed(self) -> bool {
        &&& self.params@.len() == 2
        &&& self.params@[0] is I32
        &&& self.params@[1] is I32
    }

    /// The parameters that `new` sends, in order: the formation id, the user id.
    pub open spec fn spec_params(formation_id: u64, user_id: u64) -> Seq<QueryParam> {
        seq![id_param(formation_id), id_param(user_id)]
    }

    pub fn new(formation_id: u64, user_id: u64) -> (r: Self)
        ensures
            r@ == Self::spec_params(formation_id, user_id),
    {
        Self { params: vec![QueryParam::I32(formation_id as i32), QueryParam::I32(user_id as i32)] }
    }

    pub fn formation_id(&self) -> (r: u64)
        ensures
            r == param_id(self@[0]),
    {
        proof {
            use_type_invariant(self);
        }
        self.params[0].as_i32() as u64
    }

    pub fn user_id(&self) -> (r: u64)
        ensures
            r == param_id(self@[1]),
    {
        proof {
            use_type_invariant(self);
        }
        self.params[1].as_i32() as u64
    }

    pub fn query_sql(&self) -> (r: &'static str)
        ensures
            r == GET_MY_FORMATION_MODULES_SQL,
    {
        GET_MY_FORMATION_MODULES_SQL
    }

    pub fn query_params(&self) -> (r: &[QueryParam])
        ensures
            r@ == self@,
    {
        self.params.as_slice()
    }
}

/// A course id and a user id that fit in `i32` come back unchanged from
/// the query's `formation_id` and `user_id`.
pub proof fn lemma_my_formation_modules_query_round_trip(formation_id: u64, user_id: u64)
    requires
        formation_id <= i32::MAX,
        user_id <= i32::MAX,
    ensures
        param_id(GetMyFormationModulesQueryView::spec_params(formation_id, user_id)[0]) == formation_id,
        param_id(GetMyFormationModulesQueryView::spec_params(formation_id, user_id)[1]) == user_id,
{
}

/// What a [`FormationModuleRow`] holds.
pub struct FormationModuleRowModel {
    pub id: i32,
    pub name: Seq<char>,
    pub description: Option<Seq<char>>,
    pub completed: bool,
}

#[derive(Debug, Clone, PartialEq, Eq)]
pub struct FormationModuleRow {
    id: i32,
    name: String,
    description: Option<String>,
    completed: bool,
}

impl View for FormationModuleRow {
    type V = FormationModuleRowModel;

    closed spec fn view(&self) -> FormationModuleRowModel {
        FormationModuleRowModel {
            id: self.id,
            name: self.name@,
            description: opt_text(self.description),
            completed: self.completed,
        }
    }
}

impl FormationModuleRow {
    pub fn new(id: i32, name: String, description: Option<String>, completed: bool) -> (r: Self)
        ensures
            r@ == (FormationModuleRowModel {
                id: id,
                name: name@,
                description: opt_text(description),
                completed: completed,
            }),
    {
        Self { id, name, description, completed }
    }

    pub fn id(&self) -> (r: i32)
        ensures
            r == self@.id,
    {
        self.id
    }

    pub fn name(&self) -> (r: &str)
        ensures
            r@ == self@.name,
    {
        self.name.as_str()
    }

    pub fn description(&self) -> (r: Option<&str>)
        ensures
            opt_str(r) == self@.description,
    {
        match &self.description {
            Some(s) => Some(s.as_str()),
            None => None,
        }
    }

    pub fn completed(&self) -> (r: bool)
        ensures
            r == self@.completed,
    {
        self.completed
    }
}

} // verus!
