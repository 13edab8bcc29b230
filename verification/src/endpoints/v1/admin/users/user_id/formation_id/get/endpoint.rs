use vstd::prelude::*;

use crate::database::admin::users::get_user_formation::view::{
    GetUserFormationQueryView, UserFormationModuleRow, UserModuleContentRow,
};
use crate::database::formations::does_course_exist::view::DoesCourseExistQueryView;
use crate::database::query::DbFailure;
use crate::endpoints::v1::admin::users::user_id::formation_id::get::view::GetUserFormation;
use crate::endpoints::v1::admin::users::{UsersFormationModule, UsersModuleContent};
use crate::model::description_or_empty;
use crate::timestamp::opt_to_utc;

verus! {

broadcast use vstd::string::to_string_from_display_ensures_for_str;

/// `out` is the payload given for the attachment row `row`; none carries a
/// `finished_at`.
pub open spec fn content_mapped(row: UserModuleContentRow, out: UsersModuleContent) -> bool {
    &&& out@.id == row@.id as u64
    &&& out@.file_name == row@.file_name
    &&& out@.file_type == row@.file_type
    &&& out@.finished_at is None
}

/// `outs` maps `rows` one for one, in the same order.
pub open spec fn contents_mapped(rows: Seq<UserModuleContentRow>, outs: Seq<UsersModuleContent>) -> bool {
    &&& outs.len() == rows.len()
    &&& forall|i: int| 0 <= i < rows.len() ==> content_mapped(#[trigger] rows[i], outs[i])
}

/// `out` is the payload given for the module row `row`, with the user's
/// completion read in UTC.
pub open spec fn module_mapped(row: UserFormationModuleRow, out: UsersFormationModule) -> bool {
    &&& out@.id == row@.id as u64
    &&& out@.name == row@.name
    &&& out@.description == (match row@.description {
        Some(s) => s,
        None => Seq::<char>::empty(),
    })
    &&& contents_mapped(row@.content, out@.content)
    &&& out@.is_completed == row@.is_completed
    &&& (match (row@.completed_at, out@.completed_at) {
        (Some(t), Some(u)) => u.secs == t.secs && u.nanos == t.nanos,
        (None, None) => true,
        _ => false,
    })
}

/// `outs` maps `rows` one for one, in the same order.
pub open spec fn modules_mapped(rows: Seq<UserFormationModuleRow>, outs: Seq<UsersFormationModule>) -> bool {
    &&& outs.len() == rows.len()
    &&& forall|i: int| 0 <= i < rows.len() ==> module_mapped(#[trigger] rows[i], outs[i])
}

pub fn map_content(row: &UserModuleContentRow) -> (r: UsersModuleContent)
    ensures
        content_mapped(*row, r),
{
    UsersModuleContent::new(row.id() as u64, row.file_name(), row.file_type(), None)
}

pub fn map_module(row: &UserFormationModuleRow) -> (r: UsersFormationModule)
    ensures
        module_mapped(*row, r),
{
    let items = row.content();
    let mut content: Vec<UsersModuleContent> = Vec::new();
    let mut i: usize = 0;
    while i < items.len()
        invariant
            i <= items@.len(),
            items@ == row@.content,
            contents_mapped(items@.take(i as int), content@),
        decreases items@.len() - i,
    {
        content.push(map_content(&items[i]));
        proof {
            assert(items@.take(i + 1) =~= items@.take(i as int).push(items@[i as int]));
        }
        i += 1;
    }
    proof {
        assert(items@.take(items@.len() as int) =~= items@);
    }
    UsersFormationModule::new(
        row.id() as u64,
        row.name(),
        description_or_empty(row.description()),
        content,
        row.is_completed(),
        opt_to_utc(row.completed_at()),
    )
}

/// Why `GET /admin/users/{user_id}/{formation_id}/` failed.
#[derive(Debug, Clone, PartialEq)]
pub enum GetUserFormationError {
    DatabaseError,
    UnknowModule,
}

impl GetUserFormationError {
    /// The plain-text body of the error response.
    pub fn to_string(&self) -> (r: String)
        ensures
            r@ == match self {
                GetUserFormationError::DatabaseError =>
                    "An error occurred while accessing the database."@,
                GetUserFormationError::UnknowModule => "Module not found."@,
            },
    {
        match self {
            GetUserFormationError::DatabaseError => {
                "An error occurred while accessing the database.".to_string()
            },
            GetUserFormationError::UnknowModule => "Module not found.".to_string(),
        }
    }

    /// The HTTP status of the error response.
    pub fn status_code(&self) -> (r: u16)
        ensures
            r == match self {
                GetUserFormationError::DatabaseError => 500u16,
                GetUserFormationError::UnknowModule => 404u16,
            },
    {
        match self {
            GetUserFormationError::DatabaseError => 500,
            GetUserFormationError::UnknowModule => 404,
        }
    }
}

/// What the answer to the existence check of the course decides: `None` to go
/// on and fetch the modules, or the error to answer.
pub open spec fn course_check_outcome(exists: Result<bool, DbFailure>) -> Option<
    GetUserFormationError,
> {
    match exists {
        Ok(true) => None,
        Ok(false) => Some(GetUserFormationError::UnknowModule),
        Err(_) => Some(GetUserFormationError::DatabaseError),
    }
}

/// `GET /admin/users/{user_id}/{formation_id}/`, between two database round
/// trips: first the existence check of the course, then its modules with the
/// user's progress.
#[derive(Debug)]
pub struct GetUserFormationFlow {
    pub formation_id: u64,
    pub user_id: u64,
    pub details: bool,
}

impl GetUserFormationFlow {
    /// The handler starts with the course and user of the path and the
    /// requested details flag.
    pub fn new(formation_id: u64, user_id: u64, details: bool) -> (r: Self)
        ensures
            r.formation_id == formation_id,
            r.user_id == user_id,
            r.details == details,
    {
        Self { formation_id, user_id, details }
    }

    /// The first query: does the course exist?
    pub fn course_query(&self) -> (r: DoesCourseExistQueryView)
        ensures
            r@ == DoesCourseExistQueryView::spec_params(self.formation_id),
    {
        DoesCourseExistQueryView::new(self.formation_id)
    }

    /// Decides on the answer to the existence check: a missing course answers
    /// `UnknowModule`, a database failure `DatabaseError`; an existing one
    /// leads to the query of its modules with this user's progress.
    pub fn on_course_checked(self, exists: Result<bool, DbFailure>) -> (r: Result<
        GetUserFormationQueryView,
        GetUserFormationError,
    >)
        ensures
            match course_check_outcome(exists) {
                Some(e) => r == Err::<GetUserFormationQueryView, _>(e),
                None => r matches Ok(q) && q@ == GetUserFormationQueryView::spec_params(
                    self.formation_id,
                    self.user_id,
                    self.details,
                ),
            },
    {
        match exists {
            Ok(true) => Ok(
                GetUserFormationQueryView::new(self.formation_id, self.user_id, self.details),
            ),
            Ok(false) => Err(GetUserFormationError::UnknowModule),
            Err(_) => Err(GetUserFormationError::DatabaseError),
        }
    }
}

/// What `GET /admin/users/{user_id}/{formation_id}/` answers once the
/// database has answered the modules query: the modules with the user's
/// progress, in the order of the rows, or a database error.
pub fn trigger_get_user_formation(
    rows: Result<Vec<UserFormationModuleRow>, DbFailure>,
) -> (r: Result<GetUserFormation, GetUserFormationError>)
    ensures
        match rows {
            Ok(rows) => r matches Ok(view) && modules_mapped(rows@, view.modules@),
            Err(_) => r == Err::<GetUserFormation, _>(GetUserFormationError::DatabaseError),
        },
{
    match rows {
        Ok(rows) => {
            let mut modules: Vec<UsersFormationModule> = Vec::new();
            let mut i: usize = 0;
            while i < rows.len()
                invariant
                    i <= rows@.len(),
                    modules_mapped(rows@.take(i as int), modules@),
                decreases rows@.len() - i,
            {
                modules.push(map_module(&rows[i]));
                proof {
                    assert(rows@.take(i + 1) =~= rows@.take(i as int).push(rows@[i as int]));
                }
                i += 1;
            }
            proof {
                assert(rows@.take(rows@.len() as int) =~= rows@);
            }
            Ok(GetUserFormation { modules })
        },
        Err(_) => Err(GetUserFormationError::DatabaseError),
    }
}

/// A module keeps its stored description whole, all of its characters
/// whatever its length, and gets the empty text when it has none.
pub proof fn lemma_user_formation_module_description_whole(row: UserFormationModuleRow, out: UsersFormationModule)
    requires
        module_mapped(row, out),
    ensures
        row@.description matches Some(s) ==> out@.description == s && out@.description.len()
            == s.len(),
        row@.description is None ==> out@.description.len() == 0,
{
}

/// A module keeps the presence and the instant of its completion date: a
/// date gives a UTC date with the same seconds and nanoseconds, whatever they
/// are, and no date gives no date.
pub proof fn lemma_user_formation_module_completion_kept(row: UserFormationModuleRow, out: UsersFormationModule)
    requires
        module_mapped(row, out),
    ensures
        row@.completed_at matches Some(t) ==> (out@.completed_at matches Some(u) && u.secs
            == t.secs && u.nanos == t.nanos),
        row@.completed_at is None ==> out@.completed_at is None,
{
}

} // verus!
