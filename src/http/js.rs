//! Script files.
use vstd::prelude::*;
use vstd::string::StringSliceAdditionalSpecFns;
use crate::http::{Status, find_entry, first_named, has_name};

verus! {

/// The content type of every script.
pub open spec fn js_type() -> Seq<char> {
    seq!['t', 'e', 'x', 't', '/', 'j', 'a', 'v', 'a', 's', 'c', 'r', 'i', 'p', 't']
}

/// A script file's text.
#[derive(Clone, Copy)]
pub struct Js<'a>(pub &'a str);

impl<'a> Js<'a> {
    /// Wraps a script's text.
    pub fn new(content: &'a str) -> (r: Self)
        ensures
            r.0 == content,
    {
        Js(content)
    }

    /// The text itself.
    pub fn content(&self) -> (r: &'a str)
        ensures
            r == self.0,
    {
        self.0
    }

    /// The content type: `text/javascript`.
    pub fn content_type(&self) -> (r: &'static str)
        ensures
            r@ == js_type(),
    {
        let r = "text/javascript";
        proof {
            reveal_strlit("text/javascript");
        }
        assert(r@ =~= js_type());
        r
    }

    /// The length of the text in bytes.
    pub fn content_length(&self) -> (r: usize)
        ensures
            r == self.0.spec_bytes().len(),
    {
        self.0.as_bytes().len()
    }
}

/// Looks a script up by name: the first entry with that name, or a typed
/// empty script with status not found.
pub fn get_resource<'a>(table: &[(&'a str, Js<'a>)], name: &str) -> (r: (Status, Js<'a>))
    ensures
        r.0 == (if has_name(table@, name@) {
            Status::Success
        } else {
            Status::NotFound
        }),
        has_name(table@, name@) ==> r.1 == table@[first_named(table@, name@)].1,
        !has_name(table@, name@) ==> r.1.0@.len() == 0,
{
    match find_entry(table, name) {
        Some(i) => (Status::Success, table[i].1),
        None => {
            proof {
                reveal_strlit("");
            }
            (Status::NotFound, Js::new(""))
        },
    }
}

} // verus!
