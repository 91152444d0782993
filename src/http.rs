//! The asset tables and the answers that requests get.
use vstd::prelude::*;
use crate::text::str_eq;

pub mod css;
pub mod html;
pub mod js;

verus! {

/// The status of an answer.
#[derive(Debug, Clone, Copy, PartialEq, Eq, Structural)]
pub enum Status {
    Success,
    BadRequest,
    NotFound,
}

impl Status {
    /// The numeric status code.
    pub fn code(&self) -> (r: u16)
        ensures
            r == status_code(*self),
    {
        match self {
            Status::Success => 200,
            Status::BadRequest => 400,
            Status::NotFound => 404,
        }
    }
}

/// The numeric code of each status.
pub open spec fn status_code(s: Status) -> u16 {
    match s {
        Status::Success => 200,
        Status::BadRequest => 400,
        Status::NotFound => 404,
    }
}

/// Entry `i` carries the name and no earlier entry does.
pub open spec fn is_first_named<T>(entries: Seq<(&str, T)>, name: Seq<char>, i: int) -> bool {
    &&& 0 <= i < entries.len()
    &&& entries[i].0@ == name
    &&& forall|j: int| 0 <= j < i ==> (#[trigger] entries[j]).0@ != name
}

/// Some entry carries the name.
pub open spec fn has_name<T>(entries: Seq<(&str, T)>, name: Seq<char>) -> bool {
    exists|i: int| 0 <= i < entries.len() && (#[trigger] entries[i]).0@ == name
}

/// The position of the first entry with the given name, where there is one.
pub open spec fn first_named<T>(entries: Seq<(&str, T)>, name: Seq<char>) -> int {
    choose|i: int| is_first_named(entries, name, i)
}

/// The position of the first entry with the given name.
pub fn find_entry<T>(entries: &[(&str, T)], name: &str) -> (r: Option<usize>)
    ensures
        r matches Some(i) ==> i as int == first_named(entries@, name@) && is_first_named(
            entries@,
            name@,
            i as int,
        ),
        r is None <==> !has_name(entries@, name@),
{
    let mut i: usize = 0;
    while i < entries.len()
        invariant
            0 <= i <= entries@.len(),
            forall|j: int| 0 <= j < i ==> (#[trigger] entries@[j]).0@ != name@,
        decreases entries@.len() - i,
    {
        if str_eq(entries[i].0, name) {
            proof {
                let e = entries@;
                assert(is_first_named(e, name@, i as int));
                let c = first_named(e, name@);
                assert(c == i) by {
                    if c < i {
                        assert(e[c].0@ != name@);
                    } else if c > i {
                        assert(e[i as int].0@ != name@);
                    }
                }
            }
            return Some(i);
        }
        i += 1;
    }
    None
}

} // verus!
