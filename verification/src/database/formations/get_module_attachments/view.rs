use vstd::prelude::*;

use crate::database::query::{id_param, param_id, QueryParam};

verus! {

/// SQL of [`GetModuleAttachmentsQueryView`].
pub const GET_MODULE_ATTACHMENTS_SQL: &'static str = "SELECT to_jsonb(t) FROM ( \
            SELECT ca.id, ca.file_name, ca.file_type::text AS file_type, ca.file_url, \
                ca.file_size_bytes \
            FROM course_attachments ca \
            JOIN course_modules cm ON cm.id = ca.module_id \
            WHERE ca.module_id = $1 AND cm.course_id = $2 \
            ORDER BY ca.id \
         ) t";

/// Lists the files attached to a module, scoped to the parent course so a
/// mismatched `(formation_id, module_id)` pair simply returns no rows.
#[derive(Debug)]
pub struct GetModuleAttachmentsQueryView {
    params: Vec<QueryParam>,
}

impl View for GetModuleAttachmentsQueryView {
    type V = Seq<QueryParam>;

    closed spec fn view(&self) -> Seq<QueryParam> {
        self.params@
    }
}

impl GetModuleAttachmentsQueryView {
    #[verifier::type_invariant]
    closed spec fn well_formed(self) -> bool {
        &&& self.params@.len() == 2
        &&& self.params@[0] is I32
        &&& self.params@[1] is I32
    }

    /// The parameters that `new` sends, in order: the module id, the formation id.
    pub open spec fn spec_params(formation_id: u64, module_id: u64) -> Seq<QueryParam> {
        seq![id_param(module_id), id_param(formation_id)]
    }

    pub fn new(formation_id: u64, module_id: u64) -> (r: Self)
        ensures
            r@ == Self::spec_params(formation_id, module_id),
    {
        Self { params: vec![QueryParam::I32(module_id as i32), QueryParam::I32(formation_id as i32)] }
    }

    pub fn module_id(&self) -> (r: u64)
        ensures
            r == param_id(self@[0]),
    {
        proof {
            use_type_invariant(self);
        }
        self.params[0].as_i32() as u64
    }

    pub fn formation_id(&self) -> (r: u64)
        ensures
            r == param_id(self@[1]),
    {
        proof {
            use_type_invariant(self);
        }
        self.params[1].as_i32() as u64
    }

    pub fn query_sql(&self) -> (r: &'static str)
        ensures
            r == GET_MODULE_ATTACHMENTS_SQL,
    {
        GET_MODULE_ATTACHMENTS_SQL
    }

    pub fn query_params(&self) -> (r: &[QueryParam])
        ensures
            r@ == self@,
    {
        self.params.as_slice()
    }
}

/// A course id and a module id that fit in `i32` come back unchanged from
/// the query's `formation_id` and `module_id`.
pub proof fn lemma_module_attachments_query_round_trip(formation_id: u64, module_id: u64)
    requires
        module_id <= i32::MAX,
        formation_id <= i32::MAX,
    ensures
        param_id(GetModuleAttachmentsQueryView::spec_params(formation_id, module_id)[0]) == module_id,
        param_id(GetModuleAttachmentsQueryView::spec_params(formation_id, module_id)[1]) == formation_id,
{
}

/// What a [`ModuleAttachmentRow`] holds.
pub struct ModuleAttachmentRowModel {
    pub id: i32,
    pub file_name: Seq<char>,
    pub file_type: Seq<char>,
    pub file_url: Seq<char>,
    pub file_size_bytes: Option<i64>,
}

#[derive(Debug, Clone, PartialEq, Eq)]
pub struct ModuleAttachmentRow {
    id: i32,
    file_name: String,
    file_type: String,
    file_url: String,
    file_size_bytes: Option<i64>,
}

impl View for ModuleAttachmentRow {
    type V = ModuleAttachmentRowModel;

    closed spec fn view(&self) -> ModuleAttachmentRowModel {
        ModuleAttachmentRowModel {
            id: self.id,
            file_name: self.file_name@,
            file_type: self.file_type@,
            file_url: self.file_url@,
            file_size_bytes: self.file_size_bytes,
        }
    }
}

impl ModuleAttachmentRow {
    pub fn new(
        id: i32,
        file_name: String,
        file_type: String,
        file_url: String,
        file_size_bytes: Option<i64>,
    ) -> (r: Self)
        ensures
            r@ == (ModuleAttachmentRowModel {
                id: id,
                file_name: file_name@,
                file_type: file_type@,
                file_url: file_url@,
                file_size_bytes: file_size_bytes,
            }),
    {
        Self { id, file_name, file_type, file_url, file_size_bytes }
    }

    pub fn id(&self) -> (r: i32)
        ensures
            r == self@.id,
    {
        self.id
    }

    pub fn file_name(&self) -> (r: &str)
        ensures
            r@ == self@.file_name,
    {
        self.file_name.as_str()
    }

    pub fn file_type(&self) -> (r: &str)
        ensures
            r@ == self@.file_type,
    {
        self.file_type.as_str()
    }

    pub fn file_url(&self) -> (r: &str)
        ensures
            r@ == self@.file_url,
    {
        self.file_url.as_str()
    }

    pub fn file_size_bytes(&self) -> (r: Option<i64>)
        ensures
            r == self@.file_size_bytes,
    {
        self.file_size_bytes
    }
}

} // verus!
