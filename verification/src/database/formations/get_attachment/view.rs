use vstd::prelude::*;

use crate::database::query::{id_param, param_id, QueryParam};

verus! {

/// SQL of [`GetAttachmentQueryView`].
pub const GET_ATTACHMENT_SQL: &'static str = "SELECT to_jsonb(t) FROM ( \
            SELECT ca.id, ca.file_name, ca.file_type::text AS file_type, ca.file_url \
            FROM course_attachments ca \
            JOIN course_modules cm ON cm.id = ca.module_id \
            WHERE ca.id = $1 AND ca.module_id = $2 AND cm.course_id = $3 \
         ) t";

/// Fetches a single attachment, scoped to its parent module *and* course so a
/// mismatched `(formation_id, module_id, attachment_id)` triple simply returns
/// no row (mapped to a 404 by the endpoint).
#[derive(Debug)]
pub struct GetAttachmentQueryView {
    params: Vec<QueryParam>,
}

impl View for GetAttachmentQueryView {
    type V = Seq<QueryParam>;

    closed spec fn view(&self) -> Seq<QueryParam> {
        self.params@
    }
}

impl GetAttachmentQueryView {
    #[verifier::type_invariant]
    closed spec fn well_formed(self) -> bool {
        &&& self.params@.len() == 3
        &&& self.params@[0] is I32
        &&& self.params@[1] is I32
        &&& self.params@[2] is I32
    }

    /// The parameters that `new` sends, in order: the attachment id, the module id, the formation id.
    pub open spec fn spec_params(formation_id: u64, module_id: u64, attachment_id: u64) -> Seq<QueryParam> {
        seq![id_param(attachment_id), id_param(module_id), id_param(formation_id)]
    }

    pub fn new(formation_id: u64, module_id: u64, attachment_id: u64) -> (r: Self)
        ensures
            r@ == Self::spec_params(formation_id, module_id, attachment_id),
    {
        Self { params: vec![QueryParam::I32(attachment_id as i32), QueryParam::I32(module_id as i32), QueryParam::I32(formation_id as i32)] }
    }

    pub fn attachment_id(&self) -> (r: u64)
        ensures
            r == param_id(self@[0]),
    {
        proof {
            use_type_invariant(self);
        }
        self.params[0].as_i32() as u64
    }

    pub fn module_id(&self) -> (r: u64)
        ensures
            r == param_id(self@[1]),
    {
        proof {
            use_type_invariant(self);
        }
        self.params[1].as_i32() as u64
    }

    pub fn formation_id(&self) -> (r: u64)
        ensures
            r == param_id(self@[2]),
    {
        proof {
            use_type_invariant(self);
        }
        self.params[2].as_i32() as u64
    }

    pub fn query_sql(&self) -> (r: &'static str)
        ensures
            r == GET_ATTACHMENT_SQL,
    {
        GET_ATTACHMENT_SQL
    }

    pub fn query_params(&self) -> (r: &[QueryParam])
        ensures
            r@ == self@,
    {
        self.params.as_slice()
    }
}

/// A course id, a module id and an attachment id that fit in `i32` come
/// back unchanged from the query's `formation_id`, `module_id` and `attachment_id`.
pub proof fn lemma_attachment_query_round_trip(formation_id: u64, module_id: u64, attachment_id: u64)
    requires
        attachment_id <= i32::MAX,
        module_id <= i32::MAX,
        formation_id <= i32::MAX,
    ensures
        param_id(GetAttachmentQueryView::spec_params(formation_id, module_id, attachment_id)[0]) == attachment_id,
        param_id(GetAttachmentQueryView::spec_params(formation_id, module_id, attachment_id)[1]) == module_id,
        param_id(GetAttachmentQueryView::spec_params(formation_id, module_id, attachment_id)[2]) == formation_id,
{
}

/// What an [`AttachmentRow`] holds.
pub struct AttachmentRowModel {
    pub id: i32,
    pub file_name: Seq<char>,
    pub file_type: Seq<char>,
    pub file_url: Seq<char>,
}

#[derive(Debug, Clone, PartialEq, Eq)]
pub struct AttachmentRow {
    id: i32,
    file_name: String,
    file_type: String,
    /// The S3 object key (the `course_attachments.file_url` column).
    file_url: String,
}

impl View for AttachmentRow {
    type V = AttachmentRowModel;

    closed spec fn view(&self) -> AttachmentRowModel {
        AttachmentRowModel {
            id: self.id,
            file_name: self.file_name@,
            file_type: self.file_type@,
            file_url: self.file_url@,
        }
    }
}

impl AttachmentRow {
    pub fn new(id: i32, file_name: String, file_type: String, file_url: String) -> (r: Self)
        ensures
            r@ == (AttachmentRowModel {
                id: id,
                file_name: file_name@,
                file_type: file_type@,
                file_url: file_url@,
            }),
    {
        Self { id, file_name, file_type, file_url }
    }

    pub fn id(&self) -> (r: i32)
        ensures
            r == self@.id,
    {
        self.id
    }

    pub fn file_name(&self) -> (r: &str)
        ensures
            r@ == self@.file_name,
    {
        self.file_name.as_str()
    }

    pub fn file_type(&self) -> (r: &str)
        ensures
            r@ == self@.file_type,
    {
        self.file_type.as_str()
    }

    pub fn file_url(&self) -> (r: &str)
        ensures
            r@ == self@.file_url,
    {
        self.file_url.as_str()
    }
}

} // verus!
