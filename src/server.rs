//! Answering a request: the router picks a handler, which reads an asset table
//! or asks for the LED to be set.
use vstd::prelude::*;
use crate::http::css::{self, Css, css_type};
use crate::http::html::{self, Html, html_type, page_name};
use crate::http::js::{self, Js, js_type};
use crate::http::{Status, first_named, has_name};
use crate::led::LedState;
use crate::router::{
    Capture,
    CaptureKind,
    CaptureView,
    Dispatch,
    DispatchView,
    Handler,
    Method,
    Route,
    Router,
    all_plain_fit,
    decode_capture,
    dispatch_decoded,
    dispatch_spec,
    raw_segments,
    is_first_match,
    route_len,
    route_matches,
};

verus! {

/// The three asset tables, each in lookup order.
pub struct Assets<'a> {
    pub html: &'a [(&'a str, Html<'a>)],
    pub js: &'a [(&'a str, Js<'a>)],
    pub css: &'a [(&'a str, Css<'a>)],
}

/// The content type of an answer.
#[derive(Debug, Clone, Copy, PartialEq, Eq, Structural)]
pub enum ContentKind {
    Markup,
    Script,
    Style,
    Plain,
}

/// An answer to a request. Where `led` holds a state, the LED is to be set to it,
/// with exclusive access, before the answer is sent.
pub struct Reply<'a> {
    pub status: Status,
    pub kind: ContentKind,
    pub body: &'a str,
    pub led: Option<LedState>,
}

/// The mathematical value of a [`Reply`].
pub struct ReplyView {
    pub status: Status,
    pub kind: ContentKind,
    pub body: Seq<char>,
    pub led: Option<LedState>,
}

impl<'a> View for Reply<'a> {
    type V = ReplyView;

    open spec fn view(&self) -> ReplyView {
        ReplyView { status: self.status, kind: self.kind, body: self.body@, led: self.led }
    }
}

/// An answer with no body.
pub open spec fn bare(status: Status, kind: ContentKind) -> ReplyView {
    ReplyView { status, kind, body: Seq::empty(), led: None }
}

/// The answer of an asset lookup: the entry's text, or a typed empty answer.
pub open spec fn asset_reply(found: bool, kind: ContentKind, body: Seq<char>) -> ReplyView {
    if found {
        ReplyView { status: Status::Success, kind, body, led: None }
    } else {
        bare(Status::NotFound, kind)
    }
}

/// The answer to a request that dispatched as `d`.
pub open spec fn reply_spec(a: Assets, d: DispatchView) -> ReplyView {
    match d {
        DispatchView::NotFound => bare(Status::NotFound, ContentKind::Plain),
        DispatchView::BadRequest => bare(Status::BadRequest, ContentKind::Plain),
        DispatchView::Found(Handler::Page, CaptureView::Text(t)) => asset_reply(
            has_name(a.html@, page_name(t)),
            ContentKind::Markup,
            a.html@[first_named(a.html@, page_name(t))].1.0@,
        ),
        DispatchView::Found(Handler::Script, CaptureView::Text(t)) => asset_reply(
            has_name(a.js@, t),
            ContentKind::Script,
            a.js@[first_named(a.js@, t)].1.0@,
        ),
        DispatchView::Found(Handler::Style, CaptureView::Text(t)) => asset_reply(
            has_name(a.css@, t),
            ContentKind::Style,
            a.css@[first_named(a.css@, t)].1.0@,
        ),
        DispatchView::Found(Handler::SetLed, CaptureView::Led(s)) => ReplyView {
            status: Status::Success,
            kind: ContentKind::Plain,
            body: Seq::empty(),
            led: Some(s),
        },
        DispatchView::Found(_, _) => bare(Status::BadRequest, ContentKind::Plain),
    }
}

/// The content type of plain answers.
pub open spec fn plain_type() -> Seq<char> {
    seq!['t', 'e', 'x', 't', '/', 'p', 'l', 'a', 'i', 'n']
}

/// The content type header's value for each kind.
pub open spec fn content_type_of(k: ContentKind) -> Seq<char> {
    match k {
        ContentKind::Markup => html_type(),
        ContentKind::Script => js_type(),
        ContentKind::Style => css_type(),
        ContentKind::Plain => plain_type(),
    }
}

impl ContentKind {
    /// The content type header's value.
    pub fn content_type(&self) -> (r: &'static str)
        ensures
            r@ == content_type_of(*self),
    {
        match self {
            ContentKind::Markup => Html("").content_type(),
            ContentKind::Script => Js("").content_type(),
            ContentKind::Style => Css("").content_type(),
            ContentKind::Plain => {
                let r = "text/plain";
                proof {
                    reveal_strlit("text/plain");
                }
                assert(r@ =~= plain_type());
                r
            },
        }
    }
}

/// An empty text.
fn empty_text() -> (r: &'static str)
    ensures
        r@ == Seq::<char>::empty(),
{
    let r = "";
    proof {
        reveal_strlit("");
    }
    assert(r@ =~= Seq::<char>::empty());
    r
}

/// Answers a request given by its method and raw path segments. Where every
/// segment is plain and fits the capture buffer, each stands for itself.
pub fn respond<'a>(router: &Router, assets: &Assets<'a>, method: Method, segments: &[&str]) -> (r:
    Reply<'a>)
    ensures
        r@ == reply_spec(*assets, dispatch_spec(router.routes@, method, segments@)),
        all_plain_fit(segments@) ==> r@ == reply_spec(
            *assets,
            dispatch_decoded(router.routes@, method, raw_segments(segments@)),
        ),
{
    let d = router.dispatch(method, segments);
    match d {
        Dispatch::NotFound => Reply {
            status: Status::NotFound,
            kind: ContentKind::Plain,
            body: empty_text(),
            led: None,
        },
        Dispatch::BadRequest => Reply {
            status: Status::BadRequest,
            kind: ContentKind::Plain,
            body: empty_text(),
            led: None,
        },
        Dispatch::Found { handler, capture } => match (handler, capture) {
            (Handler::Page, Capture::Text(t)) => {
                let (status, page) = html::get_resource(assets.html, t.as_str());
                proof {
                    if status == Status::NotFound {
                        assert(page.0@ =~= Seq::<char>::empty());
                    }
                }
                Reply { status, kind: ContentKind::Markup, body: page.0, led: None }
            },
            (Handler::Script, Capture::Text(t)) => {
                let (status, script) = js::get_resource(assets.js, t.as_str());
                proof {
                    if status == Status::NotFound {
                        assert(script.0@ =~= Seq::<char>::empty());
                    }
                }
                Reply { status, kind: ContentKind::Script, body: script.0, led: None }
            },
            (Handler::Style, Capture::Text(t)) => {
                let (status, sheet) = css::get_resource(assets.css, t.as_str());
                proof {
                    if status == Status::NotFound {
                        assert(sheet.0@ =~= Seq::<char>::empty());
                    }
                }
                Reply { status, kind: ContentKind::Style, body: sheet.0, led: None }
            },
            (Handler::SetLed, Capture::Led(s)) => Reply {
                status: Status::Success,
                kind: ContentKind::Plain,
                body: empty_text(),
                led: Some(s),
            },
            _ => Reply {
                status: Status::BadRequest,
                kind: ContentKind::Plain,
                body: empty_text(),
                led: None,
            },
        },
    }
}

/// The literal segment `static`.
pub open spec fn static_segment() -> Seq<char> {
    seq!['s', 't', 'a', 't', 'i', 'c']
}

/// The literal segment `js`.
pub open spec fn js_segment() -> Seq<char> {
    seq!['j', 's']
}

/// The literal segment `css`.
pub open spec fn css_segment() -> Seq<char> {
    seq!['c', 's', 's']
}

/// The literal segment `led`.
pub open spec fn led_segment() -> Seq<char> {
    seq!['l', 'e', 'd']
}

/// The application's routes, in order: `GET /<page>`, `GET /static/js/<file>`,
/// `GET /static/css/<file>` and `POST /led/<state>`.
pub open spec fn is_app_routes(routes: Seq<Route>) -> bool {
    &&& routes.len() == 4
    &&& routes[0].method == Method::Get
    &&& routes[0].literals@.len() == 0
    &&& routes[0].capture == Some(CaptureKind::Text)
    &&& routes[0].handler == Handler::Page
    &&& routes[1].method == Method::Get
    &&& routes[1].literals@.len() == 2
    &&& routes[1].literals@[0]@ == static_segment()
    &&& routes[1].literals@[1]@ == js_segment()
    &&& routes[1].capture == Some(CaptureKind::Text)
    &&& routes[1].handler == Handler::Script
    &&& routes[2].method == Method::Get
    &&& routes[2].literals@.len() == 2
    &&& routes[2].literals@[0]@ == static_segment()
    &&& routes[2].literals@[1]@ == css_segment()
    &&& routes[2].capture == Some(CaptureKind::Text)
    &&& routes[2].handler == Handler::Style
    &&& routes[3].method == Method::Post
    &&& routes[3].literals@.len() == 1
    &&& routes[3].literals@[0]@ == led_segment()
    &&& routes[3].capture == Some(CaptureKind::Led)
    &&& routes[3].handler == Handler::SetLed
}

/// The application's router.
pub fn app_router() -> (r: Router)
    ensures
        is_app_routes(r.routes@),
{
    let s = "static";
    let j = "js";
    let c = "css";
    let l = "led";
    proof {
        reveal_strlit("static");
        reveal_strlit("js");
        reveal_strlit("css");
        reveal_strlit("led");
    }
    assert(s@ =~= static_segment());
    assert(j@ =~= js_segment());
    assert(c@ =~= css_segment());
    assert(l@ =~= led_segment());
    let mut r = Router::new();
    r.route(
        Route {
            method: Method::Get,
            literals: Vec::new(),
            capture: Some(CaptureKind::Text),
            handler: Handler::Page,
        },
    );
    r.route(
        Route {
            method: Method::Get,
            literals: vec![s, j],
            capture: Some(CaptureKind::Text),
            handler: Handler::Script,
        },
    );
    r.route(
        Route {
            method: Method::Get,
            literals: vec![s, c],
            capture: Some(CaptureKind::Text),
            handler: Handler::Style,
        },
    );
    r.route(
        Route {
            method: Method::Post,
            literals: vec![l],
            capture: Some(CaptureKind::Led),
            handler: Handler::SetLed,
        },
    );
    r
}

/// In the application's routes no route hides another: a path whose decoded
/// segments spell a route's literal segments and end in a capture that reads as
/// a value reaches exactly that route's handler, with that value.
pub proof fn lemma_route_reached(routes: Seq<Route>, k: int, d: Seq<Option<Seq<char>>>)
    requires
        is_app_routes(routes),
        0 <= k < 4,
        d.len() == route_len(routes[k]),
        forall|i: int| 0 <= i < routes[k].literals@.len() ==> d[i] == Some(routes[k].literals@[i]@),
        decode_capture(routes[k].capture->0, d.last()) is Some,
    ensures
        dispatch_decoded(routes, routes[k].method, d) == DispatchView::Found(
            routes[k].handler,
            decode_capture(routes[k].capture->0, d.last())->0,
        ),
{
    let m = routes[k].method;
    assert(route_matches(routes[k], m, d));
    assert forall|j: int| 0 <= j < k implies !route_matches(#[trigger] routes[j], m, d) by {
        if k == 2 && j == 1 {
            assert(d[1] == Some(css_segment()));
            assert(css_segment().len() != js_segment().len());
        }
    }
    assert(is_first_match(routes, m, d, k));
    let c = choose|c: int| is_first_match(routes, m, d, c);
    assert(c == k) by {
        if c < k {
            assert(!route_matches(routes[c], m, d));
        } else if c > k {
            assert(!route_matches(routes[k], m, d));
        }
    }
}

/// In the application's routes a path of a route's shape whose decoded segments
/// differ from it in a literal segment never reaches that route's handler, and is
/// not found unless it spells another route.
pub proof fn lemma_literal_mismatch(routes: Seq<Route>, k: int, d: Seq<Option<Seq<char>>>, i: int)
    requires
        is_app_routes(routes),
        0 <= k < 4,
        d.len() == route_len(routes[k]),
        0 <= i < routes[k].literals@.len(),
        d[i] != Some(routes[k].literals@[i]@),
    ensures
        !(dispatch_decoded(routes, routes[k].method, d) matches DispatchView::Found(h, _) && h
            == routes[k].handler),
        (forall|j: int| 0 <= j < 4 && j != k ==> !route_matches(#[trigger] routes[j], routes[k].method, d))
            ==> dispatch_decoded(routes, routes[k].method, d) == DispatchView::NotFound,
{
    let m = routes[k].method;
    assert(!route_matches(routes[k], m, d));
    if exists|c: int| is_first_match(routes, m, d, c) {
        let c = choose|c: int| is_first_match(routes, m, d, c);
        assert(c != k);
        assert(routes[c].handler != routes[k].handler);
    }
}

} // verus!
