//! Spec-level helpers shared by the rows and the payloads.
use vstd::prelude::*;

verus! {

/// The characters of an optional text, if there is one.
pub open spec fn opt_text(o: Option<String>) -> Option<Seq<char>> {
    match o {
        Some(s) => Some(s@),
        None => None,
    }
}

/// The characters of an optional borrowed text, if there is one.
pub open spec fn opt_str(o: Option<&str>) -> Option<Seq<char>> {
    match o {
        Some(s) => Some(s@),
        None => None,
    }
}

/// An optional text, with a missing one read as the empty text.
pub open spec fn text_or_empty(o: Option<Seq<char>>) -> Seq<char> {
    match o {
        Some(s) => s,
        None => Seq::empty(),
    }
}

/// The elements of an optional list, if there is one.
pub open spec fn opt_seq<T>(o: Option<Vec<T>>) -> Option<Seq<T>> {
    match o {
        Some(v) => Some(v@),
        None => None,
    }
}

/// An optional text read with `text_or_empty` is the whole text when there
/// is one, all of its characters whatever its length, and the empty text
/// when there is none.
pub proof fn lemma_text_or_empty(o: Option<Seq<char>>)
    ensures
        o matches Some(s) ==> text_or_empty(o) == s && text_or_empty(o).len() == s.len(),
        o is None ==> text_or_empty(o).len() == 0,
{
}

/// The text of a description, the empty text where there is none.
pub fn description_or_empty(description: Option<&str>) -> (r: &str)
    ensures
        match description {
            Some(d) => r@ == d@,
            None => r@ == Seq::<char>::empty(),
        },
        r@ == text_or_empty(opt_str(description)),
{
    match description {
        Some(d) => d,
        None => {
            proof {
                reveal_strlit("");
            }
            ""
        },
    }
}

} // verus!
