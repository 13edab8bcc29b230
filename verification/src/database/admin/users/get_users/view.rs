use vstd::prelude::*;

use crate::database::query::QueryParam;

verus! {

/// SQL of [`GetUsersQueryView`].
pub const GET_USERS_SQL: &'static str = "SELECT to_jsonb(t) FROM ( \
            SELECT id, (first_name || ' ' || last_name) AS name \
            FROM users \
            WHERE is_archived = FALSE \
            ORDER BY id \
         ) t";

/// Lists active (non-archived) users, for the admin "assign to a formation"
/// picker.
#[derive(Debug)]
pub struct GetUsersQueryView {
    params: Vec<QueryParam>,
}

impl View for GetUsersQueryView {
    type V = Seq<QueryParam>;

    closed spec fn view(&self) -> Seq<QueryParam> {
        self.params@
    }
}

impl GetUsersQueryView {
    /// The query takes no parameter.
    pub fn new() -> (r: Self)
        ensures
            r@ == Seq::<QueryParam>::empty(),
    {
        Self { params: Vec::new() }
    }

    pub fn query_sql(&self) -> (r: &'static str)
        ensures
            r == GET_USERS_SQL,
    {
        GET_USERS_SQL
    }

    pub fn query_params(&self) -> (r: &[QueryParam])
        ensures
            r@ == self@,
    {
        self.params.as_slice()
    }
}

impl Default for GetUsersQueryView {
    fn default() -> (r: Self)
        ensures
            r@ == Seq::<QueryParam>::empty(),
    {
        Self::new()
    }
}

/// What a [`UserRow`] holds.
pub struct UserRowModel {
    pub id: i32,
    pub name: Seq<char>,
}

#[derive(Debug, Clone, PartialEq, Eq)]
pub struct UserRow {
    id: i32,
    name: String,
}

impl View for UserRow {
    type V = UserRowModel;

    closed spec fn view(&self) -> UserRowModel {
        UserRowModel { id: self.id, name: self.name@ }
    }
}

impl UserRow {
    pub fn new(id: i32, name: String) -> (r: Self)
        ensures
            r@ == (UserRowModel { id: id, name: name@ }),
    {
        Self { id, name }
    }

    pub fn id(&self) -> (r: i32)
        ensures
            r == self@.id,
    {
        self.id
    }

    pub fn name(&self) -> (r: &str)
        ensures
            r@ == self@.name,
    {
        self.name.as_str()
    }
}

} // verus!
