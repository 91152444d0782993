//! Matching a request path against an ordered list of routes. Every segment
//! is URL decoded first, and routes compare their literal segments with the
//! decoded text.
use vstd::prelude::*;
use crate::led::{LedState, parse_led};
use crate::segment::{decode_segment, plain_fits, segment_decode};
use crate::text::str_eq;

verus! {

/// The request methods that routes answer.
#[derive(Debug, Clone, Copy, PartialEq, Eq, Structural)]
pub enum Method {
    Get,
    Post,
    /// Any other method, which no route answers.
    Other,
}

/// How a route's capture segment is decoded.
#[derive(Debug, Clone, Copy, PartialEq, Eq, Structural)]
pub enum CaptureKind {
    /// Bounded text.
    Text,
    /// An LED state, `on` or `off`.
    Led,
}

/// What a matched request is handed to.
#[derive(Debug, Clone, Copy, PartialEq, Eq, Structural)]
pub enum Handler {
    /// A markup page.
    Page,
    /// A script file.
    Script,
    /// A style sheet.
    Style,
    /// A change of the LED's state.
    SetLed,
}

/// A route: its literal segments, then its capture segment if it has one.
pub struct Route {
    pub method: Method,
    pub literals: Vec<&'static str>,
    pub capture: Option<CaptureKind>,
    pub handler: Handler,
}

/// Routes in order of priority: the first that matches wins.
pub struct Router {
    pub routes: Vec<Route>,
}

/// The decoded capture of a matched path.
pub enum Capture {
    Empty,
    Text(String),
    Led(LedState),
}

/// What a request path resolves to.
pub enum Dispatch {
    /// A route matched and its capture decoded.
    Found { handler: Handler, capture: Capture },
    /// A route matched but its capture did not decode.
    BadRequest,
    /// No route matched.
    NotFound,
}

/// The mathematical value of a [`Capture`].
pub enum CaptureView {
    Empty,
    Text(Seq<char>),
    Led(LedState),
}

/// The mathematical value of a [`Dispatch`].
pub enum DispatchView {
    Found(Handler, CaptureView),
    BadRequest,
    NotFound,
}

impl View for Capture {
    type V = CaptureView;

    open spec fn view(&self) -> CaptureView {
        match self {
            Capture::Empty => CaptureView::Empty,
            Capture::Text(t) => CaptureView::Text(t@),
            Capture::Led(s) => CaptureView::Led(*s),
        }
    }
}

impl View for Dispatch {
    type V = DispatchView;

    open spec fn view(&self) -> DispatchView {
        match self {
            Dispatch::Found { handler, capture } => DispatchView::Found(*handler, capture@),
            Dispatch::BadRequest => DispatchView::BadRequest,
            Dispatch::NotFound => DispatchView::NotFound,
        }
    }
}

/// How many segments a path of this route has.
pub open spec fn route_len(r: Route) -> int {
    r.literals@.len() + if r.capture is Some {
        1int
    } else {
        0int
    }
}

/// The route accepts the method, the number of segments and, decoded, every
/// literal segment.
pub open spec fn route_matches(r: Route, method: Method, d: Seq<Option<Seq<char>>>) -> bool {
    &&& r.method == method
    &&& d.len() == route_len(r)
    &&& forall|i: int| 0 <= i < r.literals@.len() ==> #[trigger] d[i] == Some(r.literals@[i]@)
}

/// Route `i` matches and no earlier route does.
pub open spec fn is_first_match(
    routes: Seq<Route>,
    method: Method,
    d: Seq<Option<Seq<char>>>,
    i: int,
) -> bool {
    &&& 0 <= i < routes.len()
    &&& route_matches(routes[i], method, d)
    &&& forall|j: int| 0 <= j < i ==> !route_matches(#[trigger] routes[j], method, d)
}

/// The value of a capture segment, given its decoded text, where it has one.
pub open spec fn decode_capture(kind: CaptureKind, c: Option<Seq<char>>) -> Option<CaptureView> {
    match c {
        None => None,
        Some(t) => match kind {
            CaptureKind::Text => Some(CaptureView::Text(t)),
            CaptureKind::Led => match parse_led(t) {
                Some(s) => Some(CaptureView::Led(s)),
                None => None,
            },
        },
    }
}

/// What a matched route makes of the path: its capture is the last segment.
pub open spec fn resolve(r: Route, d: Seq<Option<Seq<char>>>) -> DispatchView {
    match r.capture {
        None => DispatchView::Found(r.handler, CaptureView::Empty),
        Some(k) => match decode_capture(k, d.last()) {
            Some(c) => DispatchView::Found(r.handler, c),
            None => DispatchView::BadRequest,
        },
    }
}

/// The outcome of dispatching decoded segments: the first matching route
/// resolves them, and none matching means not found.
pub open spec fn dispatch_decoded(
    routes: Seq<Route>,
    method: Method,
    d: Seq<Option<Seq<char>>>,
) -> DispatchView {
    if exists|i: int| is_first_match(routes, method, d, i) {
        resolve(routes[choose|i: int| is_first_match(routes, method, d, i)], d)
    } else {
        DispatchView::NotFound
    }
}

/// The decoded text of each raw segment.
pub open spec fn decoded_segments(segs: Seq<&str>) -> Seq<Option<Seq<char>>> {
    Seq::new(segs.len(), |i: int| segment_decode(segs[i]@))
}

/// Each raw segment taken as its own decoded text.
pub open spec fn raw_segments(segs: Seq<&str>) -> Seq<Option<Seq<char>>> {
    Seq::new(segs.len(), |i: int| Some(segs[i]@))
}

/// Every segment is plain and fits the capture buffer.
pub open spec fn all_plain_fit(segs: Seq<&str>) -> bool {
    forall|i: int| 0 <= i < segs.len() ==> plain_fits(#[trigger] segs[i]@)
}

/// The outcome of dispatching a path given by its raw segments.
pub open spec fn dispatch_spec(routes: Seq<Route>, method: Method, segs: Seq<&str>) -> DispatchView {
    dispatch_decoded(routes, method, decoded_segments(segs))
}

/// The text of a decoded segment.
pub open spec fn text_of(o: Option<String>) -> Option<Seq<char>> {
    match o {
        Some(t) => Some(t@),
        None => None,
    }
}

/// The texts of decoded segments.
pub open spec fn texts_of(d: Seq<Option<String>>) -> Seq<Option<Seq<char>>> {
    Seq::new(d.len(), |i: int| text_of(d[i]))
}

/// Decodes every segment of a path.
fn decode_all(segments: &[&str]) -> (d: Vec<Option<String>>)
    ensures
        texts_of(d@) == decoded_segments(segments@),
        all_plain_fit(segments@) ==> decoded_segments(segments@) == raw_segments(segments@),
{
    let mut d: Vec<Option<String>> = Vec::new();
    let mut i: usize = 0;
    while i < segments.len()
        invariant
            0 <= i <= segments@.len(),
            d@.len() == i,
            forall|j: int| 0 <= j < i ==> text_of(#[trigger] d@[j]) == segment_decode(segments@[j]@),
            forall|j: int|
                0 <= j < i && plain_fits(segments@[j]@) ==> #[trigger] segment_decode(segments@[j]@)
                    == Some(segments@[j]@),
        decreases segments@.len() - i,
    {
        let t = decode_segment(segments[i]);
        d.push(t);
        i += 1;
    }
    assert(texts_of(d@) =~= decoded_segments(segments@));
    proof {
        if all_plain_fit(segments@) {
            assert forall|j: int| 0 <= j < segments@.len() implies decoded_segments(segments@)[j]
                == raw_segments(segments@)[j] by {
                assert(plain_fits(segments@[j]@));
            }
            assert(decoded_segments(segments@) =~= raw_segments(segments@));
        }
    }
    d
}

/// Whether a route matches a request, given its decoded segments.
fn matches(r: &Route, method: Method, d: &Vec<Option<String>>) -> (b: bool)
    ensures
        b == route_matches(*r, method, texts_of(d@)),
{
    let ghost dv = texts_of(d@);
    assert(dv.len() == d@.len());
    if r.method != method {
        return false;
    }
    let n = r.literals.len();
    if r.capture.is_some() {
        if d.len() == 0 || d.len() - 1 != n {
            return false;
        }
    } else if d.len() != n {
        return false;
    }
    let mut i: usize = 0;
    while i < n
        invariant
            n == r.literals@.len(),
            n <= d@.len(),
            dv == texts_of(d@),
            0 <= i <= n,
            forall|j: int| 0 <= j < i ==> #[trigger] dv[j] == Some(r.literals@[j]@),
        decreases n - i,
    {
        assert(dv[i as int] == text_of(d@[i as int]));
        match &d[i] {
            Some(t) => {
                if !str_eq(t.as_str(), r.literals[i]) {
                    return false;
                }
            },
            None => {
                return false;
            },
        }
        i += 1;
    }
    true
}

impl Router {
    /// A router with no routes.
    pub fn new() -> (r: Router)
        ensures
            r.routes@.len() == 0,
    {
        Router { routes: Vec::new() }
    }

    /// Adds a route after the existing ones, so at lower priority.
    pub fn route(&mut self, r: Route)
        ensures
            final(self).routes@ == old(self).routes@.push(r),
    {
        self.routes.push(r);
    }

    /// Resolves a request path, given as its raw segments. Where every segment is
    /// plain and fits the capture buffer, each stands for itself.
    pub fn dispatch(&self, method: Method, segments: &[&str]) -> (r: Dispatch)
        ensures
            r@ == dispatch_spec(self.routes@, method, segments@),
            all_plain_fit(segments@) ==> r@ == dispatch_decoded(
                self.routes@,
                method,
                raw_segments(segments@),
            ),
    {
        let d = decode_all(segments);
        let ghost dv = texts_of(d@);
        let mut i: usize = 0;
        while i < self.routes.len()
            invariant
                0 <= i <= self.routes@.len(),
                dv == texts_of(d@),
                dv == decoded_segments(segments@),
                all_plain_fit(segments@) ==> dv == raw_segments(segments@),
                forall|j: int| 0 <= j < i ==> !route_matches(#[trigger] self.routes@[j], method, dv),
            decreases self.routes@.len() - i,
        {
            if matches(&self.routes[i], method, &d) {
                proof {
                    let routes = self.routes@;
                    assert(is_first_match(routes, method, dv, i as int));
                    let c = choose|c: int| is_first_match(routes, method, dv, c);
                    assert(c == i) by {
                        if c < i {
                            assert(!route_matches(routes[c], method, dv));
                        } else if c > i {
                            assert(!route_matches(routes[i as int], method, dv));
                        }
                    }
                }
                let out = resolve_route(&self.routes[i], &d);
                proof {
                    assert(out@ == dispatch_decoded(self.routes@, method, dv));
                    if all_plain_fit(segments@) {
                        assert(dv == raw_segments(segments@));
                    }
                }
                return out;
            }
            i += 1;
        }
        assert(!exists|k: int| is_first_match(self.routes@, method, dv, k));
        proof {
            if all_plain_fit(segments@) {
                assert(dv == raw_segments(segments@));
            }
        }
        Dispatch::NotFound
    }
}

/// Reads the capture of a route that matched.
fn resolve_route(r: &Route, d: &Vec<Option<String>>) -> (out: Dispatch)
    requires
        d@.len() == route_len(*r),
    ensures
        out@ == resolve(*r, texts_of(d@)),
{
    let ghost dv = texts_of(d@);
    match r.capture {
        None => Dispatch::Found { handler: r.handler, capture: Capture::Empty },
        Some(kind) => {
            assert(dv.last() == text_of(d@[d@.len() - 1]));
            match &d[d.len() - 1] {
                None => Dispatch::BadRequest,
                Some(t) => match kind {
                    CaptureKind::Text => Dispatch::Found {
                        handler: r.handler,
                        capture: Capture::Text(t.clone()),
                    },
                    CaptureKind::Led => match LedState::from_str(t.as_str()) {
                        Ok(s) => Dispatch::Found { handler: r.handler, capture: Capture::Led(s) },
                        Err(()) => Dispatch::BadRequest,
                    },
                },
            }
        },
    }
}

} // verus!
