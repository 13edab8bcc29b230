use vstd::prelude::*;

use crate::database::admin::users::get_user_formations::view::{
    UserFormationModuleRow, UserFormationRow, UserModuleContentRow,
};
use crate::database::query::DbFailure;
use crate::endpoints::v1::admin::users::user_id::get::view::GetUserByIdResultView;
use crate::endpoints::v1::admin::users::{
    parse_progress_status, ProgressStatus, UsersFormation, UsersFormationModule,
    UsersModuleContent,
};
use crate::model::description_or_empty;
use crate::timestamp::opt_to_utc;

verus! {

broadcast use vstd::string::to_string_from_display_ensures_for_str;

/// `out` is the payload given for the attachment row `row`. Attachments have
/// no per-user tracking, so none carries a `finished_at`.
pub open spec fn content_mapped(row: UserModuleContentRow, out: UsersModuleContent) -> bool {
    &&& out@.id == row@.id as u64
    &&& out@.file_name == row@.file_name
    &&& out@.file_type == row@.file_type
    &&& out@.finished_at is None
}

/// `outs` maps `rows` one for one, in the same order.
pub open spec fn contents_mapped(rows: Seq<UserModuleContentRow>, outs: Seq<UsersModuleContent>) -> bool {
    &&& outs.len() == rows.len()
    &&& forall|i: int| 0 <= i < rows.len() ==> content_mapped(#[trigger] rows[i], outs[i])
}

/// `out` is the payload given for the module row `row`, with the user's
/// completion read in UTC.
pub open spec fn module_mapped(row: UserFormationModuleRow, out: UsersFormationModule) -> bool {
    &&& out@.id == row@.id as u64
    &&& out@.name == row@.name
    &&& out@.description == (match row@.description {
        Some(s) => s,
        None => Seq::<char>::empty(),
    })
    &&& contents_mapped(row@.content, out@.content)
    &&& out@.is_completed == row@.is_completed
    &&& (match (row@.completed_at, out@.completed_at) {
        (Some(t), Some(u)) => u.secs == t.secs && u.nanos == t.nanos,
        (None, None) => true,
        _ => false,
    })
}

/// `outs` maps `rows` one for one, in the same order.
pub open spec fn modules_mapped(rows: Seq<UserFormationModuleRow>, outs: Seq<UsersFormationModule>) -> bool {
    &&& outs.len() == rows.len()
    &&& forall|i: int| 0 <= i < rows.len() ==> module_mapped(#[trigger] rows[i], outs[i])
}

/// `out` is the payload given for the registration row `row`: modules are
/// present exactly when the row carries them (`details`), dates are read in
/// UTC and the status name becomes a [`ProgressStatus`].
pub open spec fn formation_mapped(row: UserFormationRow, out: UsersFormation) -> bool {
    &&& out@.id == row@.id as u64
    &&& out@.name == row@.name
    &&& out@.description == (match row@.description {
        Some(s) => s,
        None => Seq::<char>::empty(),
    })
    &&& match (row@.modules, out@.modules) {
        (Some(rows), Some(outs)) => modules_mapped(rows, outs),
        (None, None) => true,
        _ => false,
    }
    &&& (match (row@.started_at, out@.started_at) {
        (Some(t), Some(u)) => u.secs == t.secs && u.nanos == t.nanos,
        (None, None) => true,
        _ => false,
    })
    &&& (match (row@.completed_at, out@.completed_at) {
        (Some(t), Some(u)) => u.secs == t.secs && u.nanos == t.nanos,
        (None, None) => true,
        _ => false,
    })
    &&& out@.progress_status == parse_progress_status(row@.progress_status)
}

/// `outs` maps `rows` one for one, in the same order.
pub open spec fn formations_mapped(rows: Seq<UserFormationRow>, outs: Seq<UsersFormation>) -> bool {
    &&& outs.len() == rows.len()
    &&& forall|i: int| 0 <= i < rows.len() ==> formation_mapped(#[trigger] rows[i], outs[i])
}

pub fn map_content(row: &UserModuleContentRow) -> (r: UsersModuleContent)
    ensures
        content_mapped(*row, r),
{
    // `course_attachments` has no per-user tracking, so files never carry a
    // `finished_at`; only whole modules do (`user_modules.completed_at`).
    UsersModuleContent::new(row.id() as u64, row.file_name(), row.file_type(), None)
}

pub fn map_module(row: &UserFormationModuleRow) -> (r: UsersFormationModule)
    ensures
        module_mapped(*row, r),
{
    let items = row.content();
    let mut content: Vec<UsersModuleContent> = Vec::new();
    let mut i: usize = 0;
    while i < items.len()
        invariant
            i <= items@.len(),
            items@ == row@.content,
            contents_mapped(items@.take(i as int), content@),
        decreases items@.len() - i,
    {
        content.push(map_content(&items[i]));
        proof {
            assert(items@.take(i + 1) =~= items@.take(i as int).push(items@[i as int]));
        }
        i += 1;
    }
    proof {
        assert(items@.take(items@.len() as int) =~= items@);
    }
    UsersFormationModule::new(
        row.id() as u64,
        row.name(),
        description_or_empty(row.description()),
        content,
        row.is_completed(),
        opt_to_utc(row.completed_at()),
    )
}

pub fn map_formation(row: &UserFormationRow) -> (r: UsersFormation)
    ensures
        formation_mapped(*row, r),
{
    let modules = match row.modules() {
        Some(items) => {
            let mut out: Vec<UsersFormationModule> = Vec::new();
            let mut i: usize = 0;
            while i < items.len()
                invariant
                    i <= items@.len(),
                    modules_mapped(items@.take(i as int), out@),
                decreases items@.len() - i,
            {
                out.push(map_module(&items[i]));
                proof {
                    assert(items@.take(i + 1) =~= items@.take(i as int).push(items@[i as int]));
                }
                i += 1;
            }
            proof {
                assert(items@.take(items@.len() as int) =~= items@);
            }
            Some(out)
        },
        None => None,
    };
    UsersFormation::new(
        row.id() as u64,
        row.name(),
        description_or_empty(row.description()),
        modules,
        opt_to_utc(row.started_at()),
        opt_to_utc(row.completed_at()),
        ProgressStatus::from(row.progress_status().to_string()),
    )
}

/// Why `GET /admin/users/{user_id}/` failed.
#[derive(Debug, Clone, PartialEq)]
pub enum GetUserFormationsError {
    BadRequest,
    DatabaseError,
}

impl GetUserFormationsError {
    /// The plain-text body of the error response.
    pub fn to_string(&self) -> (r: String)
        ensures
            r@ == match self {
                GetUserFormationsError::BadRequest => "Bad request"@,
                GetUserFormationsError::DatabaseError =>
                    "An error occurred while accessing the database."@,
            },
    {
        match self {
            GetUserFormationsError::BadRequest => "Bad request".to_string(),
            GetUserFormationsError::DatabaseError => {
                "An error occurred while accessing the database.".to_string()
            },
        }
    }

    /// The HTTP status of the error response.
    pub fn status_code(&self) -> (r: u16)
        ensures
            r == match self {
                GetUserFormationsError::BadRequest => 400u16,
                GetUserFormationsError::DatabaseError => 500u16,
            },
    {
        match self {
            GetUserFormationsError::BadRequest => 400,
            GetUserFormationsError::DatabaseError => 500,
        }
    }
}

/// What `GET /admin/users/{user_id}/` answers once the database has answered
/// the registrations query: every registration of the user, in the order of
/// the rows (an unknown user, or one without registration, gives an empty
/// list, not an error), or a database error.
pub fn trigger_get_user(rows: Result<Vec<UserFormationRow>, DbFailure>) -> (r: Result<
    GetUserByIdResultView,
    GetUserFormationsError,
>)
    ensures
        match rows {
            Ok(rows) => r matches Ok(view) && formations_mapped(rows@, view.formations@),
            Err(_) => r == Err::<GetUserByIdResultView, _>(GetUserFormationsError::DatabaseError),
        },
{
    match rows {
        Ok(rows) => {
            let mut formations: Vec<UsersFormation> = Vec::new();
            let mut i: usize = 0;
            while i < rows.len()
                invariant
                    i <= rows@.len(),
                    formations_mapped(rows@.take(i as int), formations@),
                decreases rows@.len() - i,
            {
                formations.push(map_formation(&rows[i]));
                proof {
                    assert(rows@.take(i + 1) =~= rows@.take(i as int).push(rows@[i as int]));
                }
                i += 1;
            }
            proof {
                assert(rows@.take(rows@.len() as int) =~= rows@);
            }
            Ok(GetUserByIdResultView { formations })
        },
        Err(_) => Err(GetUserFormationsError::DatabaseError),
    }
}

/// A module keeps its stored description whole, all of its characters
/// whatever its length, and gets the empty text when it has none.
pub proof fn lemma_user_formations_module_description_whole(row: UserFormationModuleRow, out: UsersFormationModule)
    requires
        module_mapped(row, out),
    ensures
        row@.description matches Some(s) ==> out@.description == s && out@.description.len()
            == s.len(),
        row@.description is None ==> out@.description.len() == 0,
{
}

/// A module keeps the presence and the instant of its completion date: a
/// date gives a UTC date with the same seconds and nanoseconds, whatever they
/// are, and no date gives no date.
pub proof fn lemma_user_formations_module_completion_kept(row: UserFormationModuleRow, out: UsersFormationModule)
    requires
        module_mapped(row, out),
    ensures
        row@.completed_at matches Some(t) ==> (out@.completed_at matches Some(u) && u.secs
            == t.secs && u.nanos == t.nanos),
        row@.completed_at is None ==> out@.completed_at is None,
{
}

/// A registration keeps its stored description whole, and the presence and
/// instant of its start and completion dates: a date gives a UTC date with the
/// same seconds and nanoseconds, whatever they are, and no date gives no date.
pub proof fn lemma_registration_description_and_dates_kept(row: UserFormationRow, out: UsersFormation)
    requires
        formation_mapped(row, out),
    ensures
        row@.description matches Some(s) ==> out@.description == s && out@.description.len()
            == s.len(),
        row@.description is None ==> out@.description.len() == 0,
        row@.started_at matches Some(t) ==> (out@.started_at matches Some(u) && u.secs == t.secs
            && u.nanos == t.nanos),
        row@.started_at is None ==> out@.started_at is None,
        row@.completed_at matches Some(t) ==> (out@.completed_at matches Some(u) && u.secs
            == t.secs && u.nanos == t.nanos),
        row@.completed_at is None ==> out@.completed_at is None,
{
}

} // verus!
