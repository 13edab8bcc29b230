use vstd::prelude::*;

verus! {

/// One positional parameter (`$1`, `$2`, ...) of a SQL query.
#[derive(Debug, Clone, Copy, PartialEq, Eq)]
pub enum QueryParam {
    I32(i32),
    Bool(bool),
}

impl QueryParam {
    /// The integer held by an `I32` parameter; `0` for a `Bool` one.
    pub open spec fn spec_int(self) -> i32 {
        match self {
            QueryParam::I32(v) => v,
            QueryParam::Bool(_) => 0,
        }
    }

    /// The flag held by a `Bool` parameter; `false` for an `I32` one.
    pub open spec fn spec_flag(self) -> bool {
        match self {
            QueryParam::Bool(b) => b,
            QueryParam::I32(_) => false,
        }
    }

    pub fn as_i32(&self) -> (r: i32)
        ensures
            r == self.spec_int(),
    {
        match self {
            QueryParam::I32(v) => *v,
            QueryParam::Bool(_) => 0,
        }
    }

    pub fn as_bool(&self) -> (r: bool)
        ensures
            r == self.spec_flag(),
    {
        match self {
            QueryParam::Bool(b) => *b,
            QueryParam::I32(_) => false,
        }
    }
}

/// The database could not answer a query (connection, constraint or decoding
/// failure). The handlers never look further into it.
#[derive(Debug, Clone, Copy, PartialEq, Eq)]
pub struct DbFailure;

/// The parameter under which an identifier is sent: its low 32 bits, read
/// as a signed integer.
pub open spec fn id_param(id: u64) -> QueryParam {
    QueryParam::I32(id as i32)
}

/// The identifier that a parameter stands for, as the getters read it back.
pub open spec fn param_id(p: QueryParam) -> u64 {
    p.spec_int() as u64
}

/// Sending an identifier that fits in `i32` and reading it back gives the
/// same identifier.
pub proof fn lemma_id_round_trip(id: u64)
    requires
        id <= i32::MAX,
    ensures
        param_id(id_param(id)) == id,
{
}

} // verus!
