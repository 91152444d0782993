//! Decoding of a typed path capture into a bounded text buffer.
use vstd::prelude::*;
use vstd::string::StrSliceExecFns;
use vstd::utf8::encode_utf8;

verus! {

/// How many bytes a decoded capture may take.
pub const SEGMENT_CAPACITY: usize = 32;

/// What the URL decoding of a raw path segment gives: `None` where an escape is
/// malformed or does not form UTF-8.
pub uninterp spec fn url_decoded(raw: Seq<char>) -> Option<Seq<char>>;

/// A segment with no `%` escape and no `+`, which decodes to itself.
pub open spec fn is_plain(raw: Seq<char>) -> bool {
    forall|i: int| 0 <= i < raw.len() ==> raw[i] != '%' && raw[i] != '+'
}

/// The decoded text of a capture, where it decodes and fits the buffer.
pub open spec fn bounded_decode(raw: Seq<char>) -> Option<Seq<char>> {
    match url_decoded(raw) {
        Some(t) => if encode_utf8(t).len() <= SEGMENT_CAPACITY {
            Some(t)
        } else {
            None
        },
        None => None,
    }
}

/// An escape `%FF`, in either case, which the decoder cannot take: the byte's
/// eight leading ones overflow its shift.
pub open spec fn has_ff_escape(raw: Seq<char>) -> bool {
    exists|i: int| ff_escape_at(raw, i)
}

/// A `%FF` escape starts at position `i`.
pub open spec fn ff_escape_at(raw: Seq<char>, i: int) -> bool {
    0 <= i && i + 2 < raw.len() && raw[i] == '%' && (raw[i + 1] == 'F' || raw[i + 1] == 'f') && (
    raw[i + 2] == 'F' || raw[i + 2] == 'f')
}

/// A plain segment that fits the buffer, which decodes to itself.
pub open spec fn plain_fits(raw: Seq<char>) -> bool {
    is_plain(raw) && encode_utf8(raw).len() <= SEGMENT_CAPACITY
}

/// The decoded text of a segment: none where it holds a `%FF` escape, which never
/// forms UTF-8, or where it does not decode or fit.
pub open spec fn segment_decode(raw: Seq<char>) -> Option<Seq<char>> {
    if has_ff_escape(raw) {
        None
    } else {
        bounded_decode(raw)
    }
}

/// Relies on picoserve's `UrlEncodedString::try_into_string`: it decodes `+` and
/// percent escapes, copies every other character as it stands, and fails where an
/// escape is malformed or the decoded text exceeds the buffer's byte capacity.
#[verifier::external_body]
fn try_decode_segment(raw: &str) -> (r: Option<String>)
    requires
        !has_ff_escape(raw@),
    ensures
        r matches Some(t) ==> url_decoded(raw@) == Some(t@) && encode_utf8(t@).len()
            <= SEGMENT_CAPACITY,
        r is None ==> (url_decoded(raw@) is None || encode_utf8(url_decoded(raw@)->0).len()
            > SEGMENT_CAPACITY),
        is_plain(raw@) ==> (r is Some <==> encode_utf8(raw@).len() <= SEGMENT_CAPACITY),
        is_plain(raw@) ==> (r matches Some(t) ==> t@ == raw@),
{
    match picoserve::url_encoded::UrlEncodedString(raw).try_into_string::<SEGMENT_CAPACITY>() {
        Ok(s) => Some(String::from(s.as_str())),
        Err(_) => None,
    }
}

/// Whether the text holds a `%FF` escape.
fn find_ff_escape(raw: &str) -> (r: bool)
    ensures
        r == has_ff_escape(raw@),
{
    let n = raw.unicode_len();
    let mut i: usize = 0;
    while n >= 3 && i < n - 2
        invariant
            n == raw@.len(),
            n >= 3 ==> i <= n - 2,
            forall|j: int| 0 <= j < i ==> !#[trigger] ff_escape_at(raw@, j),
        decreases n - i,
    {
        let a = raw.get_char(i);
        let b = raw.get_char(i + 1);
        let c = raw.get_char(i + 2);
        if a == '%' && (b == 'F' || b == 'f') && (c == 'F' || c == 'f') {
            assert(ff_escape_at(raw@, i as int));
            return true;
        }
        i += 1;
    }
    assert forall|j: int| !ff_escape_at(raw@, j) by {
        if 0 <= j && j >= i && j + 2 < raw@.len() {
            assert(n < 3 || i >= n - 2);
        }
    }
    false
}

/// Decodes a raw path segment into bounded text; `None` where it does not decode
/// or does not fit.
pub fn decode_segment(raw: &str) -> (r: Option<String>)
    ensures
        r matches Some(t) ==> segment_decode(raw@) == Some(t@),
        r is None <==> segment_decode(raw@) is None,
        plain_fits(raw@) ==> segment_decode(raw@) == Some(raw@),
{
    if find_ff_escape(raw) {
        return None;
    }
    let r = try_decode_segment(raw);
    proof {
        if plain_fits(raw@) {
            assert(r is Some);
        }
    }
    r
}

} // verus!
