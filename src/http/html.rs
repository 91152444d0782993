//! Markup pages.
use vstd::prelude::*;
use vstd::string::StringSliceAdditionalSpecFns;
use crate::http::{Status, find_entry, first_named, has_name};

verus! {

/// The content type of every page.
pub open spec fn html_type() -> Seq<char> {
    seq!['t', 'e', 'x', 't', '/', 'h', 't', 'm', 'l']
}

/// A page's text.
#[derive(Clone, Copy)]
pub struct Html<'a>(pub &'a str);

impl<'a> Html<'a> {
    /// Wraps a page's text.
    pub fn new(content: &'a str) -> (r: Self)
        ensures
            r.0 == content,
    {
        Html(content)
    }

    /// The text itself.
    pub fn content(&self) -> (r: &'a str)
        ensures
            r == self.0,
    {
        self.0
    }

    /// The content type: `text/html`.
    pub fn content_type(&self) -> (r: &'static str)
        ensures
            r@ == html_type(),
    {
        let r = "text/html";
        proof {
            reveal_strlit("text/html");
        }
        assert(r@ =~= html_type());
        r
    }

    /// The length of the text in bytes.
    pub fn content_length(&self) -> (r: usize)
        ensures
            r == self.0.spec_bytes().len(),
    {
        self.0.as_bytes().len()
    }
}

/// The page that an empty name stands for: `index.html`.
pub open spec fn index_name() -> Seq<char> {
    seq!['i', 'n', 'd', 'e', 'x', '.', 'h', 't', 'm', 'l']
}

/// The name that is looked up: an empty name means the index page.
pub open spec fn page_name(name: Seq<char>) -> Seq<char> {
    if name.len() == 0 {
        index_name()
    } else {
        name
    }
}

/// Looks a page up by name, the empty name meaning the index page: the first
/// entry with that name, or a typed empty page with status not found.
pub fn get_resource<'a>(table: &[(&'a str, Html<'a>)], name: &str) -> (r: (Status, Html<'a>))
    ensures
        r.0 == (if has_name(table@, page_name(name@)) {
            Status::Success
        } else {
            Status::NotFound
        }),
        has_name(table@, page_name(name@)) ==> r.1 == table@[first_named(table@, page_name(name@))].1,
        !has_name(table@, page_name(name@)) ==> r.1.0@.len() == 0,
{
    let key: &str = if name.is_empty() {
        let d = "index.html";
        proof {
            reveal_strlit("index.html");
        }
        assert(d@ =~= index_name());
        d
    } else {
        name
    };
    match find_entry(table, key) {
        Some(i) => (Status::Success, table[i].1),
        None => {
            proof {
                reveal_strlit("");
            }
            (Status::NotFound, Html::new(""))
        },
    }
}

} // verus!
