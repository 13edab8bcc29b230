use vstd::prelude::*;

use crate::database::query::{id_param, param_id, QueryParam};
use crate::model::{opt_seq, opt_str, opt_text};

verus! {

/// SQL of [`GetFormationModulesQueryView`].
pub const GET_FORMATION_MODULES_SQL: &'static str = "SELECT to_jsonb(t) FROM ( \
            SELECT cm.id, cm.title AS name, cm.content AS description, \
                CASE WHEN $2 THEN COALESCE(( \
                    SELECT json_agg(json_build_object( \
                        'id', ca.id, \
                        'file_name', ca.file_name, \
                        'file_type', ca.file_type::text \
                    ) ORDER BY ca.id) \
                    FROM course_attachments ca WHERE ca.module_id = cm.id \
                ), '[]'::json) END AS content \
            FROM course_modules cm \
            WHERE cm.course_id = $1 \
            ORDER BY cm.sort_order, cm.id \
         ) t";

/// Lists a single course's modules. Mirrors
/// `admin::formations::get_formations`'s module shape but scoped to one
/// `course_id`, for `GET /admin/formations/{formation_id}`. With `details`, a
/// module without attachment gets an empty list: `null` only ever means
/// "not asked for".
#[derive(Debug)]
pub struct GetFormationModulesQueryView {
    params: Vec<QueryParam>,
}

impl View for GetFormationModulesQueryView {
    type V = Seq<QueryParam>;

    closed spec fn view(&self) -> Seq<QueryParam> {
        self.params@
    }
}

impl GetFormationModulesQueryView {
    #[verifier::type_invariant]
    closed spec fn well_formed(self) -> bool {
        &&& self.params@.len() == 2
        &&& self.params@[0] is I32
        &&& self.params@[1] is Bool
    }

    /// The parameters that `new` sends, in order: the formation id, the details.
    pub open spec fn spec_params(formation_id: u64, details: bool) -> Seq<QueryParam> {
        seq![id_param(formation_id), QueryParam::Bool(details)]
    }

    pub fn new(formation_id: u64, details: bool) -> (r: Self)
        ensures
            r@ == Self::spec_params(formation_id, details),
    {
        Self { params: vec![QueryParam::I32(formation_id as i32), QueryParam::Bool(details)] }
    }

    pub fn formation_id(&self) -> (r: u64)
        ensures
            r == param_id(self@[0]),
    {
        proof {
            use_type_invariant(self);
        }
        self.params[0].as_i32() as u64
    }

    pub fn details(&self) -> (r: bool)
        ensures
            r == self@[1].spec_flag(),
    {
        proof {
            use_type_invariant(self);
        }
        self.params[1].as_bool()
    }

    pub fn query_sql(&self) -> (r: &'static str)
        ensures
            r == GET_FORMATION_MODULES_SQL,
    {
        GET_FORMATION_MODULES_SQL
    }

    pub fn query_params(&self) -> (r: &[QueryParam])
        ensures
            r@ == self@,
    {
        self.params.as_slice()
    }
}

/// A course id that fits in `i32` comes back unchanged from the query's
/// `formation_id`, and the details flag from its `details`.
pub proof fn lemma_formation_modules_query_round_trip(formation_id: u64, details: bool)
    requires
        formation_id <= i32::MAX,
    ensures
        param_id(GetFormationModulesQueryView::spec_params(formation_id, details)[0]) == formation_id,
        GetFormationModulesQueryView::spec_params(formation_id, details)[1].spec_flag() == details,
{
}

/// What an [`AdminModuleContentRow`] holds.
pub struct AdminModuleContentRowModel {
    pub id: i32,
    pub file_name: Seq<char>,
    pub file_type: Seq<char>,
}

#[derive(Debug, Clone, PartialEq, Eq)]
pub struct AdminModuleContentRow {
    id: i32,
    file_name: String,
    file_type: String,
}

impl View for AdminModuleContentRow {
    type V = AdminModuleContentRowModel;

    closed spec fn view(&self) -> AdminModuleContentRowModel {
        AdminModuleContentRowModel {
            id: self.id,
            file_name: self.file_name@,
            file_type: self.file_type@,
        }
    }
}

impl AdminModuleContentRow {
    pub fn new(id: i32, file_name: String, file_type: String) -> (r: Self)
        ensures
            r@ == (AdminModuleContentRowModel {
                id: id,
                file_name: file_name@,
                file_type: file_type@,
            }),
    {
        Self { id, file_name, file_type }
    }

    pub fn id(&self) -> (r: i32)
        ensures
            r == self@.id,
    {
        self.id
    }

    pub fn file_name(&self) -> (r: &str)
        ensures
            r@ == self@.file_name,
    {
        self.file_name.as_str()
    }

    pub fn file_type(&self) -> (r: &str)
        ensures
            r@ == self@.file_type,
    {
        self.file_type.as_str()
    }
}

/// What an [`AdminFormationModuleRow`] holds.
pub struct AdminFormationModuleRowModel {
    pub id: i32,
    pub name: Seq<char>,
    pub description: Option<Seq<char>>,
    pub content: Option<Seq<AdminModuleContentRow>>,
}

#[derive(Debug, Clone, PartialEq, Eq)]
pub struct AdminFormationModuleRow {
    id: i32,
    name: String,
    description: Option<String>,
    content: Option<Vec<AdminModuleContentRow>>,
}

impl View for AdminFormationModuleRow {
    type V = AdminFormationModuleRowModel;

    closed spec fn view(&self) -> AdminFormationModuleRowModel {
        AdminFormationModuleRowModel {
            id: self.id,
            name: self.name@,
            description: opt_text(self.description),
            content: opt_seq(self.content),
        }
    }
}

impl AdminFormationModuleRow {
    pub fn new(
        id: i32,
        name: String,
        description: Option<String>,
        content: Option<Vec<AdminModuleContentRow>>,
    ) -> (r: Self)
        ensures
            r@ == (AdminFormationModuleRowModel {
                id: id,
                name: name@,
                description: opt_text(description),
                content: opt_seq(content),
            }),
    {
        Self { id, name, description, content }
    }

    pub fn id(&self) -> (r: i32)
        ensures
            r == self@.id,
    {
        self.id
    }

    pub fn name(&self) -> (r: &str)
        ensures
            r@ == self@.name,
    {
        self.name.as_str()
    }

    pub fn description(&self) -> (r: Option<&str>)
        ensures
            opt_str(r) == self@.description,
    {
        match &self.description {
            Some(s) => Some(s.as_str()),
            None => None,
        }
    }

    pub fn content(&self) -> (r: Option<&Vec<AdminModuleContentRow>>)
        ensures
            match r {
                Some(v) => self@.content == Some(v@),
                None => self@.content is None,
            },
    {
        match &self.content {
            Some(v) => Some(v),
            None => None,
        }
    }
}

} // verus!
