use http_rp::led::LedState;
use http_rp::router::{Capture, CaptureKind, Dispatch, Handler, Method, Route, Router};
use http_rp::server::app_router;

fn found(d: Dispatch) -> (Handler, Capture) {
    match d {
        Dispatch::Found { handler, capture } => (handler, capture),
        Dispatch::BadRequest => panic!("bad request"),
        Dispatch::NotFound => panic!("not found"),
    }
}

fn text(c: Capture) -> String {
    match c {
        Capture::Text(t) => t,
        _ => panic!("not text"),
    }
}

#[test]
fn led_state_parses_on_and_off_only() {
    assert_eq!(LedState::from_str("on"), Ok(LedState::On));
    assert_eq!(LedState::from_str("off"), Ok(LedState::Off));
    assert_eq!(LedState::from_str("bogus"), Err(()));
    assert_eq!(LedState::from_str("On"), Err(()));
    assert_eq!(LedState::from_str(""), Err(()));
    assert_eq!(LedState::On.as_str(), "on");
    assert_eq!(LedState::Off.as_str(), "off");
    assert!(LedState::On.is_on());
    assert!(!LedState::Off.is_on());
}

#[test]
fn empty_path_reaches_page_route() {
    let r = app_router();
    let (h, c) = found(r.dispatch(Method::Get, &[""]));
    assert_eq!(h, Handler::Page);
    assert_eq!(text(c), "");
}

#[test]
fn each_route_is_reached() {
    let r = app_router();
    let (h, c) = found(r.dispatch(Method::Get, &["about.html"]));
    assert_eq!(h, Handler::Page);
    assert_eq!(text(c), "about.html");
    let (h, c) = found(r.dispatch(Method::Get, &["static", "js", "app.js"]));
    assert_eq!(h, Handler::Script);
    assert_eq!(text(c), "app.js");
    let (h, c) = found(r.dispatch(Method::Get, &["static", "css", "app.css"]));
    assert_eq!(h, Handler::Style);
    assert_eq!(text(c), "app.css");
    let (h, c) = found(r.dispatch(Method::Post, &["led", "on"]));
    assert_eq!(h, Handler::SetLed);
    assert!(matches!(c, Capture::Led(LedState::On)));
    let (h, c) = found(r.dispatch(Method::Post, &["led", "off"]));
    assert_eq!(h, Handler::SetLed);
    assert!(matches!(c, Capture::Led(LedState::Off)));
}

#[test]
fn literal_mismatch_is_not_found() {
    let r = app_router();
    assert!(matches!(r.dispatch(Method::Get, &["static", "img", "a.png"]), Dispatch::NotFound));
    assert!(matches!(r.dispatch(Method::Get, &["statik", "css", "a.css"]), Dispatch::NotFound));
    assert!(matches!(r.dispatch(Method::Post, &["lamp", "on"]), Dispatch::NotFound));
    assert!(matches!(r.dispatch(Method::Get, &["a", "b"]), Dispatch::NotFound));
}

#[test]
fn wrong_method_is_not_found() {
    let r = app_router();
    assert!(matches!(r.dispatch(Method::Get, &["led", "on"]), Dispatch::NotFound));
    assert!(matches!(r.dispatch(Method::Post, &["index.html"]), Dispatch::NotFound));
}

#[test]
fn bogus_led_state_is_bad_request() {
    let r = app_router();
    assert!(matches!(r.dispatch(Method::Post, &["led", "bogus"]), Dispatch::BadRequest));
}

#[test]
fn capture_is_url_decoded() {
    let r = app_router();
    let (_, c) = found(r.dispatch(Method::Get, &["static", "css", "a%20b+c.css"]));
    assert_eq!(text(c), "a b c.css");
    let (_, c) = found(r.dispatch(Method::Post, &["led", "%6Fn"]));
    assert!(matches!(c, Capture::Led(LedState::On)));
}

#[test]
fn malformed_escape_is_bad_request() {
    let r = app_router();
    assert!(matches!(r.dispatch(Method::Get, &["static", "js", "a%zz.js"]), Dispatch::BadRequest));
}

#[test]
fn capture_longer_than_buffer_is_bad_request() {
    let r = app_router();
    let fits = "a".repeat(32);
    let (_, c) = found(r.dispatch(Method::Get, &[fits.as_str()]));
    assert_eq!(text(c), fits);
    let long = "a".repeat(33);
    assert!(matches!(r.dispatch(Method::Get, &[long.as_str()]), Dispatch::BadRequest));
}

#[test]
fn first_registered_route_wins() {
    let mut r = Router::new();
    r.route(Route { method: Method::Get, literals: vec!["x"], capture: None, handler: Handler::Script });
    r.route(Route { method: Method::Get, literals: vec!["x"], capture: None, handler: Handler::Style });
    r.route(Route {
        method: Method::Get,
        literals: vec![],
        capture: Some(CaptureKind::Text),
        handler: Handler::Page,
    });
    let (h, c) = found(r.dispatch(Method::Get, &["x"]));
    assert_eq!(h, Handler::Script);
    assert!(matches!(c, Capture::Empty));
    let (h, _) = found(r.dispatch(Method::Get, &["y"]));
    assert_eq!(h, Handler::Page);
}

#[test]
fn empty_router_finds_nothing() {
    let r = Router::new();
    assert!(matches!(r.dispatch(Method::Get, &[""]), Dispatch::NotFound));
}

#[test]
fn ff_escape_is_bad_request_not_a_panic() {
    let r = app_router();
    assert!(matches!(r.dispatch(Method::Post, &["led", "%FF"]), Dispatch::BadRequest));
    assert!(matches!(r.dispatch(Method::Post, &["led", "%ff"]), Dispatch::BadRequest));
    assert!(matches!(r.dispatch(Method::Get, &["static", "css", "a%Ff.css"]), Dispatch::BadRequest));
    assert!(matches!(r.dispatch(Method::Get, &["x%fF"]), Dispatch::BadRequest));
}

#[test]
fn ff_escape_in_literal_position_is_not_found() {
    let r = app_router();
    assert!(matches!(r.dispatch(Method::Get, &["%FF", "css", "a.css"]), Dispatch::NotFound));
}

#[test]
fn literal_segments_compare_decoded() {
    let r = app_router();
    let (h, c) = found(r.dispatch(Method::Get, &["st%61tic", "css", "app.css"]));
    assert_eq!(h, Handler::Style);
    assert_eq!(text(c), "app.css");
    let (h, _) = found(r.dispatch(Method::Post, &["%6Ced", "off"]));
    assert_eq!(h, Handler::SetLed);
}
