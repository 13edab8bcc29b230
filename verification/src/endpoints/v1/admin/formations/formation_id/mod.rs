pub mod register;
pub mod get;


use vstd::prelude::*;

verus! {

/// Path parameters of `/admin/formations/{formation_id}`.
#[derive(Debug)]
pub struct AdminFormationIdParams {
    formation_id: u64,
}

impl AdminFormationIdParams {
    pub fn new(formation_id: u64) -> (r: Self)
        ensures
            r.spec_formation_id() == formation_id,
    {
        Self { formation_id }
    }

    pub closed spec fn spec_formation_id(&self) -> u64 {
        self.formation_id
    }

    pub fn formation_id(&self) -> (r: u64)
        ensures
            r == self.spec_formation_id(),
    {
        self.formation_id
    }
}

} // verus!
