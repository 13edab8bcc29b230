use vstd::prelude::*;

use crate::database::query::{id_param, param_id, QueryParam};
use crate::model::{opt_str, opt_text};

verus! {

/// SQL of [`GetMyFormationsQueryView`].
pub const GET_MY_FORMATIONS_SQL: &'static str = "SELECT to_jsonb(t) FROM ( \
            SELECT c.id, c.title AS name, c.description, uc.status::text AS status \
            FROM user_courses uc \
            JOIN courses c ON c.id = uc.course_id \
            WHERE uc.user_id = $1 \
            ORDER BY c.id \
         ) t";

/// Lists the courses a user is registered to (`user_courses`), joined with the
/// course's own title/description.
#[derive(Debug)]
pub struct GetMyFormationsQueryView {
    params: Vec<QueryParam>,
}

impl View for GetMyFormationsQueryView {
    type V = Seq<QueryParam>;

    closed spec fn view(&self) -> Seq<QueryParam> {
        self.params@
    }
}

impl GetMyFormationsQueryView {
    #[verifier::type_invariant]
    closed spec fn well_formed(self) -> bool {
        &&& self.params@.len() == 1
        &&& self.params@[0] is I32
    }

    /// The parameters that `new` sends, in order: the user id.
    pub open spec fn spec_params(user_id: u64) -> Seq<QueryParam> {
        seq![id_param(user_id)]
    }

    pub fn new(user_id: u64) -> (r: Self)
        ensures
            r@ == Self::spec_params(user_id),
    {
        Self { params: vec![QueryParam::I32(user_id as i32)] }
    }

    pub fn user_id(&self) -> (r: u64)
        ensures
            r == param_id(self@[0]),
    {
        proof {
            use_type_invariant(self);
        }
        self.params[0].as_i32() as u64
    }

    pub fn query_sql(&self) -> (r: &'static str)
        ensures
            r == GET_MY_FORMATIONS_SQL,
    {
        GET_MY_FORMATIONS_SQL
    }

    pub fn query_params(&self) -> (r: &[QueryParam])
        ensures
            r@ == self@,
    {
        self.params.as_slice()
    }
}

/// A user id that fits in `i32` comes back unchanged from the query's
/// `user_id`.
pub proof fn lemma_my_formations_query_round_trip(user_id: u64)
    requires
        user_id <= i32::MAX,
    ensures
        param_id(GetMyFormationsQueryView::spec_params(user_id)[0]) == user_id,
{
}

/// What a [`FormationSummaryRow`] holds.
pub struct FormationSummaryRowModel {
    pub id: i32,
    pub name: Seq<char>,
    pub description: Option<Seq<char>>,
    pub status: Seq<char>,
}

#[derive(Debug, Clone, PartialEq, Eq)]
pub struct FormationSummaryRow {
    id: i32,
    name: String,
    description: Option<String>,
    status: String,
}

impl View for FormationSummaryRow {
    type V = FormationSummaryRowModel;

    closed spec fn view(&self) -> FormationSummaryRowModel {
        FormationSummaryRowModel {
            id: self.id,
            name: self.name@,
            description: opt_text(self.description),
            status: self.status@,
        }
    }
}

impl FormationSummaryRow {
    pub fn new(id: i32, name: String, description: Option<String>, status: String) -> (r: Self)
        ensures
            r@ == (FormationSummaryRowModel {
                id: id,
                name: name@,
                description: opt_text(description),
                status: status@,
            }),
    {
        Self { id, name, description, status }
    }

    pub fn id(&self) -> (r: i32)
        ensures
            r == self@.id,
    {
        self.id
    }

    pub fn name(&self) -> (r: &str)
        ensures
            r@ == self@.name,
    {
        self.name.as_str()
    }

    pub fn description(&self) -> (r: Option<&str>)
        ensures
            opt_str(r) == self@.description,
    {
        match &self.description {
            Some(s) => Some(s.as_str()),
            None => None,
        }
    }

    pub fn status(&self) -> (r: &str)
        ensures
            r@ == self@.status,
    {
        self.status.as_str()
    }
}

} // verus!
