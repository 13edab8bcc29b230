use vstd::prelude::*;

use crate::endpoints::v1::admin::formations::AdminFormation;

verus! {

/// Answer of `GET /admin/formations/`.
#[derive(Debug)]
pub struct GetFormationsResultView {
    /// Every course of the catalogue.
    pub formations: Vec<AdminFormation>,
}

} // verus!
