use vstd::prelude::*;

use crate::database::query::{id_param, param_id, QueryParam};
use crate::model::{opt_str, opt_text};
use crate::timestamp::NaiveTimestamp;

verus! {

/// SQL of [`GetUserFormationQueryView`].
pub const GET_USER_FORMATION_SQL: &'static str = "SELECT to_jsonb(t) FROM ( \
            SELECT cm.id, cm.title AS name, cm.content AS description, \
                CASE WHEN $3 THEN COALESCE(( \
                    SELECT json_agg(json_build_object( \
                        'id', ca.id, \
                        'file_name', ca.file_name, \
                        'file_type', ca.file_type::text \
                    ) ORDER BY ca.id) \
                    FROM course_attachments ca WHERE ca.module_id = cm.id \
                ), '[]'::json) ELSE '[]'::json END AS content, \
                COALESCE(um.is_completed, FALSE) AS is_completed, \
                um.completed_at \
            FROM course_modules cm \
            LEFT JOIN user_modules um ON um.module_id = cm.id AND um.user_id = $2 \
            WHERE cm.course_id = $1 \
            ORDER BY cm.sort_order, cm.id \
         ) t";

/// Lists a single course's modules with one specific user's completion
/// state. `content` is always an array (never `null`): it's just empty when
/// `details` is `false`.
#[derive(Debug)]
pub struct GetUserFormationQueryView {
    params: Vec<QueryParam>,
}

impl View for GetUserFormationQueryView {
    type V = Seq<QueryParam>;

    closed spec fn view(&self) -> Seq<QueryParam> {
        self.params@
    }
}

impl GetUserFormationQueryView {
    #[verifier::type_invariant]
    closed spec fn well_formed(self) -> bool {
        &&& self.params@.len() == 3
        &&& self.params@[0] is I32
        &&& self.params@[1] is I32
        &&& self.params@[2] is Bool
    }

    /// The parameters that `new` sends, in order: the formation id, the user id, the details.
    pub open spec fn spec_params(formation_id: u64, user_id: u64, details: bool) -> Seq<QueryParam> {
        seq![id_param(formation_id), id_param(user_id), QueryParam::Bool(details)]
    }

    pub fn new(formation_id: u64, user_id: u64, details: bool) -> (r: Self)
        ensures
            r@ == Self::spec_params(formation_id, user_id, details),
    {
        Self { params: vec![QueryParam::I32(formation_id as i32), QueryParam::I32(user_id as i32), QueryParam::Bool(details)] }
    }

    pub fn formation_id(&self) -> (r: u64)
        ensures
            r == param_id(self@[0]),
    {
        proof {
            use_type_invariant(self);
        }
        self.params[0].as_i32() as u64
    }

    pub fn user_id(&self) -> (r: u64)
        ensures
            r == param_id(self@[1]),
    {
        proof {
            use_type_invariant(self);
        }
        self.params[1].as_i32() as u64
    }

    pub fn details(&self) -> (r: bool)
        ensures
            r == self@[2].spec_flag(),
    {
        proof {
            use_type_invariant(self);
        }
        self.params[2].as_bool()
    }

    pub fn query_sql(&self) -> (r: &'static str)
        ensures
            r == GET_USER_FORMATION_SQL,
    {
        GET_USER_FORMATION_SQL
    }

    pub fn query_params(&self) -> (r: &[QueryParam])
        ensures
            r@ == self@,
    {
        self.params.as_slice()
    }
}

/// A course id and a user id that fit in `i32` come back unchanged from the
/// query's `formation_id` and `user_id`, and the details flag from its `details`.
pub proof fn lemma_user_formation_query_round_trip(formation_id: u64, user_id: u64, details: bool)
    requires
        formation_id <= i32::MAX,
        user_id <= i32::MAX,
    ensures
        param_id(GetUserFormationQueryView::spec_params(formation_id, user_id, details)[0]) == formation_id,
        param_id(GetUserFormationQueryView::spec_params(formation_id, user_id, details)[1]) == user_id,
        GetUserFormationQueryView::spec_params(formation_id, user_id, details)[2].spec_flag() == details,
{
}

/// What a [`UserModuleContentRow`] holds.
pub struct UserModuleContentRowModel {
    pub id: i32,
    pub file_name: Seq<char>,
    pub file_type: Seq<char>,
}

#[derive(Debug, Clone, PartialEq, Eq)]
pub struct UserModuleContentRow {
    id: i32,
    file_name: String,
    file_type: String,
}

impl View for UserModuleContentRow {
    type V = UserModuleContentRowModel;

    closed spec fn view(&self) -> UserModuleContentRowModel {
        UserModuleContentRowModel {
            id: self.id,
            file_name: self.file_name@,
            file_type: self.file_type@,
        }
    }
}

impl UserModuleContentRow {
    pub fn new(id: i32, file_name: String, file_type: String) -> (r: Self)
        ensures
            r@ == (UserModuleContentRowModel {
                id: id,
                file_name: file_name@,
                file_type: file_type@,
            }),
    {
        Self { id, file_name, file_type }
    }

    pub fn id(&self) -> (r: i32)
        ensures
            r == self@.id,
    {
        self.id
    }

    pub fn file_name(&self) -> (r: &str)
        ensures
            r@ == self@.file_name,
    {
        self.file_name.as_str()
    }

    pub fn file_type(&self) -> (r: &str)
        ensures
            r@ == self@.file_type,
    {
        self.file_type.as_str()
    }
}

/// What a [`UserFormationModuleRow`] holds.
pub struct UserFormationModuleRowModel {
    pub id: i32,
    pub name: Seq<char>,
    pub description: Option<Seq<char>>,
    pub content: Seq<UserModuleContentRow>,
    pub is_completed: bool,
    pub completed_at: Option<NaiveTimestamp>,
}

#[derive(Debug, Clone, PartialEq, Eq)]
pub struct UserFormationModuleRow {
    id: i32,
    name: String,
    description: Option<String>,
    content: Vec<UserModuleContentRow>,
    is_completed: bool,
    completed_at: Option<NaiveTimestamp>,
}

impl View for UserFormationModuleRow {
    type V = UserFormationModuleRowModel;

    closed spec fn view(&self) -> UserFormationModuleRowModel {
        UserFormationModuleRowModel {
            id: self.id,
            name: self.name@,
            description: opt_text(self.description),
            content: self.content@,
            is_completed: self.is_completed,
            completed_at: self.completed_at,
        }
    }
}

impl UserFormationModuleRow {
    pub fn new(
        id: i32,
        name: String,
        description: Option<String>,
        content: Vec<UserModuleContentRow>,
        is_completed: bool,
        completed_at: Option<NaiveTimestamp>,
    ) -> (r: Self)
        ensures
            r@ == (UserFormationModuleRowModel {
                id: id,
                name: name@,
                description: opt_text(description),
                content: content@,
                is_completed: is_completed,
                completed_at: completed_at,
            }),
    {
        Self { id, name, description, content, is_completed, completed_at }
    }

    pub fn id(&self) -> (r: i32)
        ensures
            r == self@.id,
    {
        self.id
    }

    pub fn name(&self) -> (r: &str)
        ensures
            r@ == self@.name,
    {
        self.name.as_str()
    }

    pub fn description(&self) -> (r: Option<&str>)
        ensures
            opt_str(r) == self@.description,
    {
        match &self.description {
            Some(s) => Some(s.as_str()),
            None => None,
        }
    }

    pub fn content(&self) -> (r: &[UserModuleContentRow])
        ensures
            r@ == self@.content,
    {
        self.content.as_slice()
    }

    pub fn is_completed(&self) -> (r: bool)
        ensures
            r == self@.is_completed,
    {
        self.is_completed
    }

    pub fn completed_at(&self) -> (r: Option<NaiveTimestamp>)
        ensures
            r == self@.completed_at,
    {
        self.completed_at
    }
}

} // verus!
