use vstd::prelude::*;

use crate::endpoints::v1::admin::formations::AdminFormationModule;

verus! {

/// The modules of one course.
#[derive(Debug)]
pub struct GetFormationByIdResultView {
    formation: Vec<AdminFormationModule>,
}

impl View for GetFormationByIdResultView {
    type V = Seq<AdminFormationModule>;

    closed spec fn view(&self) -> Seq<AdminFormationModule> {
        self.formation@
    }
}

impl GetFormationByIdResultView {
    pub fn new(formation: Vec<AdminFormationModule>) -> (r: Self)
        ensures
            r@ == formation@,
    {
        Self { formation }
    }

    pub fn formation(&self) -> (r: &[AdminFormationModule])
        ensures
            r@ == self@,
    {
        self.formation.as_slice()
    }
}

} // verus!
