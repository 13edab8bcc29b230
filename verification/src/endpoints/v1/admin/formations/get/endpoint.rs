use vstd::prelude::*;

use crate::database::admin::formations::get_formations::view::{
    AdminFormationModuleRow, AdminFormationRow, AdminModuleContentRow,
};
use crate::database::query::DbFailure;
use crate::endpoints::v1::admin::formations::get::view::GetFormationsResultView;
use crate::endpoints::v1::admin::formations::{
    AdminFormation, AdminFormationModule, AdminModuleContent,
};
use crate::model::description_or_empty;

verus! {

broadcast use vstd::string::to_string_from_display_ensures_for_str;

/// `out` is the payload that the catalogue gives for the attachment row `row`.
pub open spec fn content_mapped(row: AdminModuleContentRow, out: AdminModuleContent) -> bool {
    &&& out@.id == row@.id as u64
    &&& out@.file_name == row@.file_name
    &&& out@.file_type == row@.file_type
}

/// `outs` maps `rows` one for one, in the same order.
pub open spec fn contents_mapped(rows: Seq<AdminModuleContentRow>, outs: Seq<AdminModuleContent>) -> bool {
    &&& outs.len() == rows.len()
    &&& forall|i: int| 0 <= i < rows.len() ==> content_mapped(#[trigger] rows[i], outs[i])
}

/// `out` is the payload that the catalogue gives for the module row `row`: a
/// missing description reads as the empty text, and attachments are present
/// exactly when the row carries them.
pub open spec fn module_mapped(row: AdminFormationModuleRow, out: AdminFormationModule) -> bool {
    &&& out@.id == row@.id as u64
    &&& out@.name == row@.name
    &&& out@.description == (match row@.description {
        Some(s) => s,
        None => Seq::<char>::empty(),
    })
    &&& match (row@.content, out@.content) {
        (Some(rows), Some(outs)) => contents_mapped(rows, outs),
        (None, None) => true,
        _ => false,
    }
}

/// `outs` maps `rows` one for one, in the same order.
pub open spec fn modules_mapped(rows: Seq<AdminFormationModuleRow>, outs: Seq<AdminFormationModule>) -> bool {
    &&& outs.len() == rows.len()
    &&& forall|i: int| 0 <= i < rows.len() ==> module_mapped(#[trigger] rows[i], outs[i])
}

/// `out` is the payload that the catalogue gives for the course row `row`:
/// modules are present exactly when the row carries them (`details`).
pub open spec fn formation_mapped(row: AdminFormationRow, out: AdminFormation) -> bool {
    &&& out@.id == row@.id as u64
    &&& out@.name == row@.name
    &&& out@.description == (match row@.description {
        Some(s) => s,
        None => Seq::<char>::empty(),
    })
    &&& match (row@.modules, out@.modules) {
        (Some(rows), Some(outs)) => modules_mapped(rows, outs),
        (None, None) => true,
        _ => false,
    }
}

/// `outs` maps `rows` one for one, in the same order.
pub open spec fn formations_mapped(rows: Seq<AdminFormationRow>, outs: Seq<AdminFormation>) -> bool {
    &&& outs.len() == rows.len()
    &&& forall|i: int| 0 <= i < rows.len() ==> formation_mapped(#[trigger] rows[i], outs[i])
}

pub fn map_content(row: &AdminModuleContentRow) -> (r: AdminModuleContent)
    ensures
        content_mapped(*row, r),
{
    AdminModuleContent::new(row.id() as u64, row.file_name(), row.file_type())
}

pub fn map_module(row: &AdminFormationModuleRow) -> (r: AdminFormationModule)
    ensures
        module_mapped(*row, r),
{
    let content = match row.content() {
        Some(items) => {
            let mut out: Vec<AdminModuleContent> = Vec::new();
            let mut i: usize = 0;
            while i < items.len()
                invariant
                    i <= items@.len(),
                    contents_mapped(items@.take(i as int), out@),
                decreases items@.len() - i,
            {
                out.push(map_content(&items[i]));
                proof {
                    assert(items@.take(i + 1) =~= items@.take(i as int).push(items@[i as int]));
                }
                i += 1;
            }
            proof {
                assert(items@.take(items@.len() as int) =~= items@);
            }
            Some(out)
        },
        None => None,
    };
    AdminFormationModule::new(
        row.id() as u64,
        row.name(),
        description_or_empty(row.description()),
        content,
    )
}

pub fn map_formation(row: &AdminFormationRow) -> (r: AdminFormation)
    ensures
        formation_mapped(*row, r),
{
    let modules = match row.modules() {
        Some(items) => {
            let mut out: Vec<AdminFormationModule> = Vec::new();
            let mut i: usize = 0;
            while i < items.len()
                invariant
                    i <= items@.len(),
                    modules_mapped(items@.take(i as int), out@),
                decreases items@.len() - i,
            {
                out.push(map_module(&items[i]));
                proof {
                    assert(items@.take(i + 1) =~= items@.take(i as int).push(items@[i as int]));
                }
                i += 1;
            }
            proof {
                assert(items@.take(items@.len() as int) =~= items@);
            }
            Some(out)
        },
        None => None,
    };
    AdminFormation::new(
        row.id() as u64,
        row.name(),
        description_or_empty(row.description()),
        modules,
    )
}

/// Why `GET /admin/formations/` failed.
#[derive(Debug, Clone, PartialEq)]
pub enum GetFormationsError {
    DatabaseError,
}

impl GetFormationsError {
    /// The plain-text body of the error response.
    pub fn to_string(&self) -> (r: String)
        ensures
            match self {
                GetFormationsError::DatabaseError => r@
                    == "An error occurred while accessing the database."@,
            },
    {
        match self {
            GetFormationsError::DatabaseError => {
                "An error occurred while accessing the database.".to_string()
            },
        }
    }

    /// The HTTP status of the error response.
    pub fn status_code(&self) -> (r: u16)
        ensures
            match self {
                GetFormationsError::DatabaseError => r == 500,
            },
    {
        match self {
            GetFormationsError::DatabaseError => 500,
        }
    }
}

/// What `GET /admin/formations/` answers once the database has answered the
/// catalogue query: every course, in the order of the rows, or a database
/// error.
pub fn trigger_get_formations(rows: Result<Vec<AdminFormationRow>, DbFailure>) -> (r: Result<
    GetFormationsResultView,
    GetFormationsError,
>)
    ensures
        match rows {
            Ok(rows) => r matches Ok(view) && formations_mapped(rows@, view.formations@),
            Err(_) => r == Err::<GetFormationsResultView, _>(GetFormationsError::DatabaseError),
        },
{
    match rows {
        Ok(rows) => {
            let mut formations: Vec<AdminFormation> = Vec::new();
            let mut i: usize = 0;
            while i < rows.len()
                invariant
                    i <= rows@.len(),
                    formations_mapped(rows@.take(i as int), formations@),
                decreases rows@.len() - i,
            {
                formations.push(map_formation(&rows[i]));
                proof {
                    assert(rows@.take(i + 1) =~= rows@.take(i as int).push(rows@[i as int]));
                }
                i += 1;
            }
            proof {
                assert(rows@.take(rows@.len() as int) =~= rows@);
            }
            Ok(GetFormationsResultView { formations })
        },
        Err(_) => Err(GetFormationsError::DatabaseError),
    }
}

/// A module keeps its stored description whole, all of its characters
/// whatever its length, and gets the empty text when it has none.
pub proof fn lemma_catalogue_module_description_whole(row: AdminFormationModuleRow, out: AdminFormationModule)
    requires
        module_mapped(row, out),
    ensures
        row@.description matches Some(s) ==> out@.description == s && out@.description.len()
            == s.len(),
        row@.description is None ==> out@.description.len() == 0,
{
}

/// A course of the catalogue keeps its stored description whole, all of its
/// characters whatever its length, and gets the empty text when it has none.
pub proof fn lemma_catalogue_formation_description_whole(row: AdminFormationRow, out: AdminFormation)
    requires
        formation_mapped(row, out),
    ensures
        row@.description matches Some(s) ==> out@.description == s && out@.description.len()
            == s.len(),
        row@.description is None ==> out@.description.len() == 0,
{
}

} // verus!
