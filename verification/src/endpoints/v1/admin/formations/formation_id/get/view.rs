use vstd::prelude::*;

use crate::endpoints::v1::admin::formations::AdminFormationModule;

verus! {

/// Answer of `GET /admin/formations/{formation_id}/`.
#[derive(Debug)]
pub struct GetFormationByIdResultView {
    /// Modules of the course, in the order of the course.
    pub modules: Vec<AdminFormationModule>,
}

} // verus!
