use vstd::prelude::*;

use crate::database::query::{id_param, param_id, QueryParam};
use crate::model::{opt_seq, opt_str, opt_text};
use crate::timestamp::NaiveTimestamp;

verus! {

/// SQL of [`GetUserFormationsQueryView`].
pub const GET_USER_FORMATIONS_SQL: &'static str = "SELECT to_jsonb(t) FROM ( \
            SELECT c.id, c.title AS name, c.description, \
                uc.started_at, uc.completed_at, uc.status::text AS progress_status, \
                CASE WHEN $2 THEN ( \
                    SELECT json_agg(json_build_object( \
                        'id', cm.id, \
                        'name', cm.title, \
                        'description', cm.content, \
                        'content', COALESCE(( \
                            SELECT json_agg(json_build_object( \
                                'id', ca.id, \
                                'file_name', ca.file_name, \
                                'file_type', ca.file_type::text \
                            ) ORDER BY ca.id) \
                            FROM course_attachments ca WHERE ca.module_id = cm.id \
                        ), '[]'::json), \
                        'is_completed', COALESCE(um.is_completed, FALSE), \
                        'completed_at', um.completed_at \
                    ) ORDER BY cm.sort_order, cm.id) \
                    FROM course_modules cm \
                    LEFT JOIN user_modules um ON um.module_id = cm.id AND um.user_id = $1 \
                    WHERE cm.course_id = c.id \
                ) END AS modules \
            FROM user_courses uc \
            JOIN courses c ON c.id = uc.course_id \
            WHERE uc.user_id = $1 \
            ORDER BY c.id \
         ) t";

/// Lists the courses a given user is registered to, with their per-course
/// progress (`user_courses`). When `details` is `true`, each course's
/// modules are aggregated too, each carrying that user's own completion
/// state (`user_modules`).
#[derive(Debug)]
pub struct GetUserFormationsQueryView {
    params: Vec<QueryParam>,
}

impl View for GetUserFormationsQueryView {
    type V = Seq<QueryParam>;

    closed spec fn view(&self) -> Seq<QueryParam> {
        self.params@
    }
}

impl GetUserFormationsQueryView {
    #[verifier::type_invariant]
    closed spec fn well_formed(self) -> bool {
        &&& self.params@.len() == 2
        &&& self.params@[0] is I32
        &&& self.params@[1] is Bool
    }

    /// The parameters that `new` sends, in order: the user id, the details.
    pub open spec fn spec_params(user_id: u64, details: bool) -> Seq<QueryParam> {
        seq![id_param(user_id), QueryParam::Bool(details)]
    }

    pub fn new(user_id: u64, details: bool) -> (r: Self)
        ensures
            r@ == Self::spec_params(user_id, details),
    {
        Self { params: vec![QueryParam::I32(user_id as i32), QueryParam::Bool(details)] }
    }

    pub fn user_id(&self) -> (r: u64)
        ensures
            r == param_id(self@[0]),
    {
        proof {
            use_type_invariant(self);
        }
        self.params[0].as_i32() as u64
    }

    pub fn details(&self) -> (r: bool)
        ensures
            r == self@[1].spec_flag(),
    {
        proof {
            use_type_invariant(self);
        }
        self.params[1].as_bool()
    }

    pub fn query_sql(&self) -> (r: &'static str)
        ensures
            r == GET_USER_FORMATIONS_SQL,
    {
        GET_USER_FORMATIONS_SQL
    }

    pub fn query_params(&self) -> (r: &[QueryParam])
        ensures
            r@ == self@,
    {
        self.params.as_slice()
    }
}

/// A user id that fits in `i32` comes back unchanged from the query's
/// `user_id`, and the details flag from its `details`.
pub proof fn lemma_user_formations_query_round_trip(user_id: u64, details: bool)
    requires
        user_id <= i32::MAX,
    ensures
        param_id(GetUserFormationsQueryView::spec_params(user_id, details)[0]) == user_id,
        GetUserFormationsQueryView::spec_params(user_id, details)[1].spec_flag() == details,
{
}

/// What a [`UserModuleContentRow`] holds.
pub struct UserModuleContentRowModel {
    pub id: i32,
    pub file_name: Seq<char>,
    pub file_type: Seq<char>,
}

#[derive(Debug, Clone, PartialEq, Eq)]
pub struct UserModuleContentRow {
    id: i32,
    file_name: String,
    file_type: String,
}

impl View for UserModuleContentRow {
    type V = UserModuleContentRowModel;

    closed spec fn view(&self) -> UserModuleContentRowModel {
        UserModuleContentRowModel {
            id: self.id,
            file_name: self.file_name@,
            file_type: self.file_type@,
        }
    }
}

impl UserModuleContentRow {
    pub fn new(id: i32, file_name: String, file_type: String) -> (r: Self)
        ensures
            r@ == (UserModuleContentRowModel {
                id: id,
                file_name: file_name@,
                file_type: file_type@,
            }),
    {
        Self { id, file_name, file_type }
    }

    pub fn id(&self) -> (r: i32)
        ensures
            r == self@.id,
    {
        self.id
    }

    pub fn file_name(&self) -> (r: &str)
        ensures
            r@ == self@.file_name,
    {
        self.file_name.as_str()
    }

    pub fn file_type(&self) -> (r: &str)
        ensures
            r@ == self@.file_type,
    {
        self.file_type.as_str()
    }
}

/// What a [`UserFormationModuleRow`] holds.
pub struct UserFormationModuleRowModel {
    pub id: i32,
    pub name: Seq<char>,
    pub description: Option<Seq<char>>,
    pub content: Seq<UserModuleContentRow>,
    pub is_completed: bool,
    pub completed_at: Option<NaiveTimestamp>,
}

#[derive(Debug, Clone, PartialEq, Eq)]
pub struct UserFormationModuleRow {
    id: i32,
    name: String,
    description: Option<String>,
    content: Vec<UserModuleContentRow>,
    is_completed: bool,
    completed_at: Option<NaiveTimestamp>,
}

impl View for UserFormationModuleRow {
    type V = UserFormationModuleRowModel;

    closed spec fn view(&self) -> UserFormationModuleRowModel {
        UserFormationModuleRowModel {
            id: self.id,
            name: self.name@,
            description: opt_text(self.description),
            content: self.content@,
            is_completed: self.is_completed,
            completed_at: self.completed_at,
        }
    }
}

impl UserFormationModuleRow {
    pub fn new(
        id: i32,
        name: String,
        description: Option<String>,
        content: Vec<UserModuleContentRow>,
        is_completed: bool,
        completed_at: Option<NaiveTimestamp>,
    ) -> (r: Self)
        ensures
            r@ == (UserFormationModuleRowModel {
                id: id,
                name: name@,
                description: opt_text(description),
                content: content@,
                is_completed: is_completed,
                completed_at: completed_at,
            }),
    {
        Self { id, name, description, content, is_completed, completed_at }
    }

    pub fn id(&self) -> (r: i32)
        ensures
            r == self@.id,
    {
        self.id
    }

    pub fn name(&self) -> (r: &str)
        ensures
            r@ == self@.name,
    {
        self.name.as_str()
    }

    pub fn description(&self) -> (r: Option<&str>)
        ensures
            opt_str(r) == self@.description,
    {
        match &self.description {
            Some(s) => Some(s.as_str()),
            None => None,
        }
    }

    pub fn content(&self) -> (r: &[UserModuleContentRow])
        ensures
            r@ == self@.content,
    {
        self.content.as_slice()
    }

    pub fn is_completed(&self) -> (r: bool)
        ensures
            r == self@.is_completed,
    {
        self.is_completed
    }

    pub fn completed_at(&self) -> (r: Option<NaiveTimestamp>)
        ensures
            r == self@.completed_at,
    {
        self.completed_at
    }
}

/// What a [`UserFormationRow`] holds.
pub struct UserFormationRowModel {
    pub id: i32,
    pub name: Seq<char>,
    pub description: Option<Seq<char>>,
    pub started_at: Option<NaiveTimestamp>,
    pub completed_at: Option<NaiveTimestamp>,
    pub progress_status: Seq<char>,
    pub modules: Option<Seq<UserFormationModuleRow>>,
}

#[derive(Debug, Clone, PartialEq)]
pub struct UserFormationRow {
    id: i32,
    name: String,
    description: Option<String>,
    started_at: Option<NaiveTimestamp>,
    completed_at: Option<NaiveTimestamp>,
    progress_status: String,
    modules: Option<Vec<UserFormationModuleRow>>,
}

impl View for UserFormationRow {
    type V = UserFormationRowModel;

    closed spec fn view(&self) -> UserFormationRowModel {
        UserFormationRowModel {
            id: self.id,
            name: self.name@,
            description: opt_text(self.description),
            started_at: self.started_at,
            completed_at: self.completed_at,
            progress_status: self.progress_status@,
            modules: opt_seq(self.modules),
        }
    }
}

impl UserFormationRow {
    pub fn new(
        id: i32,
        name: String,
        description: Option<String>,
        started_at: Option<NaiveTimestamp>,
        completed_at: Option<NaiveTimestamp>,
        progress_status: String,
        modules: Option<Vec<UserFormationModuleRow>>,
    ) -> (r: Self)
        ensures
            r@ == (UserFormationRowModel {
                id: id,
                name: name@,
                description: opt_text(description),
                started_at: started_at,
                completed_at: completed_at,
                progress_status: progress_status@,
                modules: opt_seq(modules),
            }),
    {
        Self { id, name, description, started_at, completed_at, progress_status, modules }
    }

    pub fn id(&self) -> (r: i32)
        ensures
            r == self@.id,
    {
        self.id
    }

    pub fn name(&self) -> (r: &str)
        ensures
            r@ == self@.name,
    {
        self.name.as_str()
    }

    pub fn description(&self) -> (r: Option<&str>)
        ensures
            opt_str(r) == self@.description,
    {
        match &self.description {
            Some(s) => Some(s.as_str()),
            None => None,
        }
    }

    pub fn started_at(&self) -> (r: Option<NaiveTimestamp>)
        ensures
            r == self@.started_at,
    {
        self.started_at
    }

    pub fn completed_at(&self) -> (r: Option<NaiveTimestamp>)
        ensures
            r == self@.completed_at,
    {
        self.completed_at
    }

    pub fn progress_status(&self) -> (r: &str)
        ensures
            r@ == self@.progress_status,
    {
        self.progress_status.as_str()
    }

    pub fn modules(&self) -> (r: Option<&Vec<UserFormationModuleRow>>)
        ensures
            match r {
                Some(v) => self@.modules == Some(v@),
                None => self@.modules is None,
            },
    {
        match &self.modules {
            Some(v) => Some(v),
            None => None,
        }
    }
}

} // verus!
