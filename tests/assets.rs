use http_rp::http::css::{self, Css};
use http_rp::http::html::{self, Html};
use http_rp::http::js::{self, Js};
use http_rp::http::Status;
use http_rp::led::LedState;
use http_rp::router::Method;
use http_rp::server::{app_router, respond, Assets, ContentKind};

const HTML: [(&str, Html<'static>); 2] =
    [("index.html", Html("<h1>hi</h1>")), ("about.html", Html("<p>about</p>"))];
const JS: [(&str, Js<'static>); 1] = [("app.js", Js("let a = 1;"))];
const CSS: [(&str, Css<'static>); 1] = [("app.css", Css(".a{color:red}"))];

fn assets() -> Assets<'static> {
    Assets { html: &HTML, js: &JS, css: &CSS }
}

#[test]
fn style_sheet_served_with_its_type() {
    let r = respond(&app_router(), &assets(), Method::Get, &["static", "css", "app.css"]);
    assert_eq!(r.status.code(), 200);
    assert_eq!(r.kind.content_type(), "text/css");
    assert_eq!(r.body, ".a{color:red}");
    assert_eq!(r.led, None);
}

#[test]
fn missing_style_sheet_is_typed_not_found() {
    let r = respond(&app_router(), &assets(), Method::Get, &["static", "css", "missing.css"]);
    assert_eq!(r.status.code(), 404);
    assert_eq!(r.kind.content_type(), "text/css");
    assert_eq!(r.body, "");
}

#[test]
fn script_served_and_missing() {
    let r = respond(&app_router(), &assets(), Method::Get, &["static", "js", "app.js"]);
    assert_eq!(r.status, Status::Success);
    assert_eq!(r.kind, ContentKind::Script);
    assert_eq!(r.kind.content_type(), "text/javascript");
    assert_eq!(r.body, "let a = 1;");
    let r = respond(&app_router(), &assets(), Method::Get, &["static", "js", "nope.js"]);
    assert_eq!(r.status.code(), 404);
    assert_eq!(r.kind.content_type(), "text/javascript");
    assert_eq!(r.body, "");
}

#[test]
fn root_serves_index_page() {
    let r = respond(&app_router(), &assets(), Method::Get, &[""]);
    assert_eq!(r.status.code(), 200);
    assert_eq!(r.kind.content_type(), "text/html");
    assert_eq!(r.body, "<h1>hi</h1>");
    let r = respond(&app_router(), &assets(), Method::Get, &["about.html"]);
    assert_eq!(r.body, "<p>about</p>");
    let r = respond(&app_router(), &assets(), Method::Get, &["gone.html"]);
    assert_eq!(r.status.code(), 404);
    assert_eq!(r.kind, ContentKind::Markup);
    assert_eq!(r.body, "");
}

#[test]
fn bogus_led_post_is_bad_request() {
    let r = respond(&app_router(), &assets(), Method::Post, &["led", "bogus"]);
    assert_eq!(r.status.code(), 400);
    assert_eq!(r.led, None);
}

#[test]
fn led_posts_ask_for_the_actuator() {
    let r = respond(&app_router(), &assets(), Method::Post, &["led", "on"]);
    assert_eq!(r.status.code(), 200);
    assert_eq!(r.led, Some(LedState::On));
    assert_eq!(r.body, "");
    let r = respond(&app_router(), &assets(), Method::Post, &["led", "off"]);
    assert_eq!(r.led, Some(LedState::Off));
}

#[test]
fn unknown_path_is_not_found() {
    let r = respond(&app_router(), &assets(), Method::Get, &["x", "y", "z", "w"]);
    assert_eq!(r.status.code(), 404);
    assert_eq!(r.kind.content_type(), "text/plain");
}

#[test]
fn table_lookup_is_exact_and_first_wins() {
    let table = [("a.css", Css::new("one")), ("a.css", Css::new("two")), ("b.css", Css::new("three"))];
    let (s, c) = css::get_resource(&table, "a.css");
    assert_eq!(s, Status::Success);
    assert_eq!(c.content(), "one");
    let (s, c) = css::get_resource(&table, "A.css");
    assert_eq!(s, Status::NotFound);
    assert_eq!(c.content(), "");
    assert_eq!(c.content_type(), "text/css");
    let (s, _) = css::get_resource(&[], "a.css");
    assert_eq!(s, Status::NotFound);
}

#[test]
fn empty_page_name_means_index() {
    let table = [("index.html", Html::new("home"))];
    let (s, p) = html::get_resource(&table, "");
    assert_eq!(s, Status::Success);
    assert_eq!(p.content(), "home");
    assert_eq!(p.content_type(), "text/html");
    let (s, p) = html::get_resource(&[], "");
    assert_eq!(s, Status::NotFound);
    assert_eq!(p.content_length(), 0);
}

#[test]
fn content_length_counts_bytes() {
    assert_eq!(Css::new(".a{color:red}").content_length(), 13);
    assert_eq!(Js::new("é").content_length(), 2);
    assert_eq!(Js::new("x").content_type(), "text/javascript");
    let (s, j) = js::get_resource(&JS, "app.js");
    assert_eq!(s.code(), 200);
    assert_eq!(j.content_length(), 10);
    assert_eq!(Status::BadRequest.code(), 400);
}

#[test]
fn encoded_literal_path_serves_sheet() {
    let r = respond(&app_router(), &assets(), Method::Get, &["st%61tic", "css", "app.css"]);
    assert_eq!(r.status.code(), 200);
    assert_eq!(r.body, ".a{color:red}");
    let r = respond(&app_router(), &assets(), Method::Post, &["led", "%FF"]);
    assert_eq!(r.status.code(), 400);
    assert_eq!(r.led, None);
}
