use vstd::prelude::*;

use crate::database::query::{id_param, param_id, QueryParam};
use crate::model::{opt_seq, opt_str, opt_text};

verus! {

/// SQL of [`GetFormationsQueryView`].
pub const GET_FORMATIONS_SQL: &'static str = "SELECT to_jsonb(t) FROM ( \
            SELECT c.id, c.title AS name, c.description, \
                CASE WHEN $1 THEN COALESCE(( \
                    SELECT json_agg(json_build_object( \
                        'id', cm.id, \
                        'name', cm.title, \
                        'description', cm.content, \
                        'content', COALESCE(( \
                            SELECT json_agg(json_build_object( \
                                'id', ca.id, \
                                'file_name', ca.file_name, \
                                'file_type', ca.file_type::text \
                            ) ORDER BY ca.id) \
                            FROM course_attachments ca WHERE ca.module_id = cm.id \
                        ), '[]'::json) \
                    ) ORDER BY cm.sort_order, cm.id) \
                    FROM course_modules cm WHERE cm.course_id = c.id \
                ), '[]'::json) END AS modules \
            FROM courses c \
            ORDER BY c.id \
         ) t";

/// Lists every course. When `details` is `true`, each course's modules (and
/// each module's attachments) are aggregated as nested JSON in the same
/// round-trip instead of running one query per course. With `details`, a
/// course without module gets an empty list, and so does a module without
/// attachment: `null` only ever means "not asked for".
#[derive(Debug)]
pub struct GetFormationsQueryView {
    params: Vec<QueryParam>,
}

impl View for GetFormationsQueryView {
    type V = Seq<QueryParam>;

    closed spec fn view(&self) -> Seq<QueryParam> {
        self.params@
    }
}

impl GetFormationsQueryView {
    #[verifier::type_invariant]
    closed spec fn well_formed(self) -> bool {
        &&& self.params@.len() == 1
        &&& self.params@[0] is Bool
    }

    /// The parameters that `new` sends, in order: the details.
    pub open spec fn spec_params(details: bool) -> Seq<QueryParam> {
        seq![QueryParam::Bool(details)]
    }

    pub fn new(details: bool) -> (r: Self)
        ensures
            r@ == Self::spec_params(details),
    {
        Self { params: vec![QueryParam::Bool(details)] }
    }

    pub fn details(&self) -> (r: bool)
        ensures
            r == self@[0].spec_flag(),
    {
        proof {
            use_type_invariant(self);
        }
        self.params[0].as_bool()
    }

    pub fn query_sql(&self) -> (r: &'static str)
        ensures
            r == GET_FORMATIONS_SQL,
    {
        GET_FORMATIONS_SQL
    }

    pub fn query_params(&self) -> (r: &[QueryParam])
        ensures
            r@ == self@,
    {
        self.params.as_slice()
    }
}

/// The details flag comes back unchanged from the query's `details`.
pub proof fn lemma_formations_query_round_trip(details: bool)
    ensures
        GetFormationsQueryView::spec_params(details)[0].spec_flag() == details,
{
}

/// What an [`AdminModuleContentRow`] holds.
pub struct AdminModuleContentRowModel {
    pub id: i32,
    pub file_name: Seq<char>,
    pub file_type: Seq<char>,
}

#[derive(Debug, Clone, PartialEq, Eq)]
pub struct AdminModuleContentRow {
    id: i32,
    file_name: String,
    file_type: String,
}

impl View for AdminModuleContentRow {
    type V = AdminModuleContentRowModel;

    closed spec fn view(&self) -> AdminModuleContentRowModel {
        AdminModuleContentRowModel {
            id: self.id,
            file_name: self.file_name@,
            file_type: self.file_type@,
        }
    }
}

impl AdminModuleContentRow {
    pub fn new(id: i32, file_name: String, file_type: String) -> (r: Self)
        ensures
            r@ == (AdminModuleContentRowModel {
                id: id,
                file_name: file_name@,
                file_type: file_type@,
            }),
    {
        Self { id, file_name, file_type }
    }

    pub fn id(&self) -> (r: i32)
        ensures
            r == self@.id,
    {
        self.id
    }

    pub fn file_name(&self) -> (r: &str)
        ensures
            r@ == self@.file_name,
    {
        self.file_name.as_str()
    }

    pub fn file_type(&self) -> (r: &str)
        ensures
            r@ == self@.file_type,
    {
        self.file_type.as_str()
    }
}

/// What an [`AdminFormationModuleRow`] holds.
pub struct AdminFormationModuleRowModel {
    pub id: i32,
    pub name: Seq<char>,
    pub description: Option<Seq<char>>,
    pub content: Option<Seq<AdminModuleContentRow>>,
}

#[derive(Debug, Clone, PartialEq, Eq)]
pub struct AdminFormationModuleRow {
    id: i32,
    name: String,
    description: Option<String>,
    content: Option<Vec<AdminModuleContentRow>>,
}

impl View for AdminFormationModuleRow {
    type V = AdminFormationModuleRowModel;

    closed spec fn view(&self) -> AdminFormationModuleRowModel {
        AdminFormationModuleRowModel {
            id: self.id,
            name: self.name@,
            description: opt_text(self.description),
            content: opt_seq(self.content),
        }
    }
}

impl AdminFormationModuleRow {
    pub fn new(
        id: i32,
        name: String,
        description: Option<String>,
        content: Option<Vec<AdminModuleContentRow>>,
    ) -> (r: Self)
        ensures
            r@ == (AdminFormationModuleRowModel {
                id: id,
                name: name@,
                description: opt_text(description),
                content: opt_seq(content),
            }),
    {
        Self { id, name, description, content }
    }

    pub fn id(&self) -> (r: i32)
        ensures
            r == self@.id,
    {
        self.id
    }

    pub fn name(&self) -> (r: &str)
        ensures
            r@ == self@.name,
    {
        self.name.as_str()
    }

    pub fn description(&self) -> (r: Option<&str>)
        ensures
            opt_str(r) == self@.description,
    {
        match &self.description {
            Some(s) => Some(s.as_str()),
            None => None,
        }
    }

    pub fn content(&self) -> (r: Option<&Vec<AdminModuleContentRow>>)
        ensures
            match r {
                Some(v) => self@.content == Some(v@),
                None => self@.content is None,
            },
    {
        match &self.content {
            Some(v) => Some(v),
            None => None,
        }
    }
}

/// What an [`AdminFormationRow`] holds.
pub struct AdminFormationRowModel {
    pub id: i32,
    pub name: Seq<char>,
    pub description: Option<Seq<char>>,
    pub modules: Option<Seq<AdminFormationModuleRow>>,
}

#[derive(Debug, Clone, PartialEq, Eq)]
pub struct AdminFormationRow {
    id: i32,
    name: String,
    description: Option<String>,
    modules: Option<Vec<AdminFormationModuleRow>>,
}

impl View for AdminFormationRow {
    type V = AdminFormationRowModel;

    closed spec fn view(&self) -> AdminFormationRowModel {
        AdminFormationRowModel {
            id: self.id,
            name: self.name@,
            description: opt_text(self.description),
            modules: opt_seq(self.modules),
        }
    }
}

impl AdminFormationRow {
    pub fn new(
        id: i32,
        name: String,
        description: Option<String>,
        modules: Option<Vec<AdminFormationModuleRow>>,
    ) -> (r: Self)
        ensures
            r@ == (AdminFormationRowModel {
                id: id,
                name: name@,
                description: opt_text(description),
                modules: opt_seq(modules),
            }),
    {
        Self { id, name, description, modules }
    }

    pub fn id(&self) -> (r: i32)
        ensures
            r == self@.id,
    {
        self.id
    }

    pub fn name(&self) -> (r: &str)
        ensures
            r@ == self@.name,
    {
        self.name.as_str()
    }

    pub fn description(&self) -> (r: Option<&str>)
        ensures
            opt_str(r) == self@.description,
    {
        match &self.description {
            Some(s) => Some(s.as_str()),
            None => None,
        }
    }

    pub fn modules(&self) -> (r: Option<&Vec<AdminFormationModuleRow>>)
        ensures
            match r {
                Some(v) => self@.modules == Some(v@),
                None => self@.modules is None,
            },
    {
        match &self.modules {
            Some(v) => Some(v),
            None => None,
        }
    }
}

} // verus!
