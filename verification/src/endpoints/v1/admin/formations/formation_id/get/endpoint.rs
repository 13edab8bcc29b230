use vstd::prelude::*;

use crate::database::admin::formations::get_formation_modules::view::{
    AdminFormationModuleRow, AdminModuleContentRow, GetFormationModulesQueryView,
};
use crate::database::formations::does_course_exist::view::DoesCourseExistQueryView;
use crate::database::query::DbFailure;
use crate::endpoints::v1::admin::formations::formation_id::get::view::GetFormationByIdResultView;
use crate::endpoints::v1::admin::formations::{AdminFormationModule, AdminModuleContent};
use crate::model::description_or_empty;

verus! {

broadcast use vstd::string::to_string_from_display_ensures_for_str;

/// `out` is the payload given for the attachment row `row`.
pub open spec fn content_mapped(row: AdminModuleContentRow, out: AdminModuleContent) -> bool {
    &&& out@.id == row@.id as u64
    &&& out@.file_name == row@.file_name
    &&& out@.file_type == row@.file_type
}

/// `outs` maps `rows` one for one, in the same order.
pub open spec fn contents_mapped(rows: Seq<AdminModuleContentRow>, outs: Seq<AdminModuleContent>) -> bool {
    &&& outs.len() == rows.len()
    &&& forall|i: int| 0 <= i < rows.len() ==> content_mapped(#[trigger] rows[i], outs[i])
}

/// `out` is the payload given for the module row `row`: a missing description
/// reads as the empty text, and attachments are present exactly when the row
/// carries them.
pub open spec fn module_mapped(row: AdminFormationModuleRow, out: AdminFormationModule) -> bool {
    &&& out@.id == row@.id as u64
    &&& out@.name == row@.name
    &&& out@.description == (match row@.description {
        Some(s) => s,
        None => Seq::<char>::empty(),
    })
    &&& match (row@.content, out@.content) {
        (Some(rows), Some(outs)) => contents_mapped(rows, outs),
        (None, None) => true,
        _ => false,
    }
}

/// `outs` maps `rows` one for one, in the same order.
pub open spec fn modules_mapped(rows: Seq<AdminFormationModuleRow>, outs: Seq<AdminFormationModule>) -> bool {
    &&& outs.len() == rows.len()
    &&& forall|i: int| 0 <= i < rows.len() ==> module_mapped(#[trigger] rows[i], outs[i])
}

pub fn map_content(row: &AdminModuleContentRow) -> (r: AdminModuleContent)
    ensures
        content_mapped(*row, r),
{
    AdminModuleContent::new(row.id() as u64, row.file_name(), row.file_type())
}

pub fn map_module(row: &AdminFormationModuleRow) -> (r: AdminFormationModule)
    ensures
        module_mapped(*row, r),
{
    let content = match row.content() {
        Some(items) => {
            let mut out: Vec<AdminModuleContent> = Vec::new();
            let mut i: usize = 0;
            while i < items.len()
                invariant
                    i <= items@.len(),
                    contents_mapped(items@.take(i as int), out@),
                decreases items@.len() - i,
            {
                out.push(map_content(&items[i]));
                proof {
                    assert(items@.take(i + 1) =~= items@.take(i as int).push(items@[i as int]));
                }
                i += 1;
            }
            proof {
                assert(items@.take(items@.len() as int) =~= items@);
            }
            Some(out)
        },
        None => None,
    };
    AdminFormationModule::new(
        row.id() as u64,
        row.name(),
        description_or_empty(row.description()),
        content,
    )
}

/// Why `GET /admin/formations/{formation_id}/` failed.
#[derive(Debug, Clone, PartialEq)]
pub enum GetFormationByIdError {
    BadRequest,
    DatabaseError,
    NotFound,
}

impl GetFormationByIdError {
    /// The plain-text body of the error response.
    pub fn to_string(&self) -> (r: String)
        ensures
            r@ == match self {
                GetFormationByIdError::BadRequest => "Bad request."@,
                GetFormationByIdError::DatabaseError =>
                    "An error occurred while accessing the database."@,
                GetFormationByIdError::NotFound => "The formation was not found."@,
            },
    {
        match self {
            GetFormationByIdError::BadRequest => "Bad request.".to_string(),
            GetFormationByIdError::DatabaseError => {
                "An error occurred while accessing the database.".to_string()
            },
            GetFormationByIdError::NotFound => "The formation was not found.".to_string(),
        }
    }

    /// The HTTP status of the error response.
    pub fn status_code(&self) -> (r: u16)
        ensures
            r == match self {
                GetFormationByIdError::BadRequest => 400u16,
                GetFormationByIdError::DatabaseError => 500u16,
                GetFormationByIdError::NotFound => 404u16,
            },
    {
        match self {
            GetFormationByIdError::BadRequest => 400,
            GetFormationByIdError::DatabaseError => 500,
            GetFormationByIdError::NotFound => 404,
        }
    }
}

/// What the answer to the existence check of the course decides: `None` to go
/// on and fetch the modules, or the error to answer.
pub open spec fn course_check_outcome(exists: Result<bool, DbFailure>) -> Option<
    GetFormationByIdError,
> {
    match exists {
        Ok(true) => None,
        Ok(false) => Some(GetFormationByIdError::NotFound),
        Err(_) => Some(GetFormationByIdError::DatabaseError),
    }
}

/// `GET /admin/formations/{formation_id}/`, between two database round trips:
/// first the existence check of the course, then the modules of the course.
#[derive(Debug)]
pub struct GetFormationByIdFlow {
    pub formation_id: u64,
    pub details: bool,
}

impl GetFormationByIdFlow {
    /// The handler starts with the requested course and details flag.
    pub fn new(formation_id: u64, details: bool) -> (r: Self)
        ensures
            r.formation_id == formation_id,
            r.details == details,
    {
        Self { formation_id, details }
    }

    /// The first query: does the requested course exist?
    pub fn course_query(&self) -> (r: DoesCourseExistQueryView)
        ensures
            r@ == DoesCourseExistQueryView::spec_params(self.formation_id),
    {
        DoesCourseExistQueryView::new(self.formation_id)
    }

    /// Decides on the answer to the existence check: a missing course answers
    /// `NotFound`, a database failure `DatabaseError`; an existing one leads
    /// to the modules query of that course, with the requested details flag.
    pub fn on_course_checked(self, exists: Result<bool, DbFailure>) -> (r: Result<
        GetFormationModulesQueryView,
        GetFormationByIdError,
    >)
        ensures
            match course_check_outcome(exists) {
                Some(e) => r == Err::<GetFormationModulesQueryView, _>(e),
                None => r matches Ok(q) && q@ == GetFormationModulesQueryView::spec_params(
                    self.formation_id,
                    self.details,
                ),
            },
    {
        match exists {
            Ok(true) => Ok(GetFormationModulesQueryView::new(self.formation_id, self.details)),
            Ok(false) => Err(GetFormationByIdError::NotFound),
            Err(_) => Err(GetFormationByIdError::DatabaseError),
        }
    }
}

/// What `GET /admin/formations/{formation_id}/` answers once the database has
/// answered the modules query: the course's modules, in the order of the rows,
/// or a database error.
pub fn trigger_get_formation_by_id(
    rows: Result<Vec<AdminFormationModuleRow>, DbFailure>,
) -> (r: Result<GetFormationByIdResultView, GetFormationByIdError>)
    ensures
        match rows {
            Ok(rows) => r matches Ok(view) && modules_mapped(rows@, view.modules@),
            Err(_) => r == Err::<GetFormationByIdResultView, _>(
                GetFormationByIdError::DatabaseError,
            ),
        },
{
    match rows {
        Ok(rows) => {
            let mut modules: Vec<AdminFormationModule> = Vec::new();
            let mut i: usize = 0;
            while i < rows.len()
                invariant
                    i <= rows@.len(),
                    modules_mapped(rows@.take(i as int), modules@),
                decreases rows@.len() - i,
            {
                modules.push(map_module(&rows[i]));
                proof {
                    assert(rows@.take(i + 1) =~= rows@.take(i as int).push(rows@[i as int]));
                }
                i += 1;
            }
            proof {
                assert(rows@.take(rows@.len() as int) =~= rows@);
            }
            Ok(GetFormationByIdResultView { modules })
        },
        Err(_) => Err(GetFormationByIdError::DatabaseError),
    }
}

/// A module keeps its stored description whole, all of its characters
/// whatever its length, and gets the empty text when it has none.
pub proof fn lemma_formation_module_description_whole(row: AdminFormationModuleRow, out: AdminFormationModule)
    requires
        module_mapped(row, out),
    ensures
        row@.description matches Some(s) ==> out@.description == s && out@.description.len()
            == s.len(),
        row@.description is None ==> out@.description.len() == 0,
{
}

} // verus!
