use catcher::catcher::{compose, enclose, Catcher, StaticCatcherInfo};
use catcher::handler::{Cloneable, DefaultHandler, ErrorHandler};
use catcher::http::{Request, Response, Status};
use catcher::uri::{Error, Origin};
use std::borrow::Cow;
use yansi::Paint;

fn request(path: &str) -> Request {
    Request { uri: Origin::new(path, None), accept: None }
}

fn respond(status: Status, text: String) -> Result<Response, Status> {
    let mut response = Response::new();
    response.status = status;
    response.set_sized_body(text.len(), text);
    Ok(response)
}

fn handle_404(status: Status, req: &Request) -> Result<Response, Status> {
    respond(status, format!("404: {}", req.uri().to_string()))
}

fn handle_default(status: Status, req: &Request) -> Result<Response, Status> {
    respond(status, format!("{}: {}", status.code, req.uri().to_string()))
}

fn failing(_: Status, _: &Request) -> Result<Response, Status> {
    Err(Status::new(500))
}

#[derive(Copy, Clone)]
enum Kind {
    Simple,
    Intermediate,
    Complex,
}

#[derive(Clone)]
struct CustomHandler(Kind);

impl ErrorHandler for CustomHandler {
    fn handle(&self, status: Status, _: &Request) -> Result<Response, Status> {
        let text = match self.0 {
            Kind::Simple => "simple",
            Kind::Intermediate => "intermediate",
            Kind::Complex => "complex",
        };
        respond(status, text.to_string())
    }
}

fn body(answer: Result<Response, Status>) -> String {
    answer.unwrap().body.unwrap().data
}

#[test]
fn new_catchers() {
    let not_found = Catcher::new(404, handle_404);
    assert_eq!(not_found.name, None);
    assert_eq!(not_found.base.path(), "/");
    assert_eq!(not_found.base.query(), None);
    assert_eq!(not_found.code, Some(404));
    let answer = not_found.handler.handle(Status::new(404), &request("/x"));
    assert_eq!(body(answer), "404: /x");

    let default = Catcher::new(None, handle_default);
    assert_eq!(default.code, None);
    let answer = default.handler.handle(Status::new(503), &request("/x"));
    assert_eq!(body(answer), "503: /x");

    assert_eq!(Catcher::new(Some(400), DefaultHandler).code, Some(400));
    assert_eq!(Catcher::new(599, DefaultHandler).code, Some(599));
}

#[test]
fn handlers_may_fail() {
    let c = Catcher::new(500, failing);
    let answer = c.handler.handle(Status::new(500), &request("/"));
    assert!(matches!(answer, Err(Status { code: 500 })));
}

#[test]
fn custom_handlers_keep_state() {
    for (kind, text) in [
        (Kind::Simple, "simple"),
        (Kind::Intermediate, "intermediate"),
        (Kind::Complex, "complex"),
    ] {
        let c = Catcher::new(404, CustomHandler(kind));
        let answer = c.handler.handle(Status::new(404), &request("/"));
        assert_eq!(answer.as_ref().unwrap().status.code, 404);
        assert_eq!(body(answer), text);
        let cloned = c.handler.clone_handler();
        assert_eq!(body(cloned.handle(Status::new(404), &request("/"))), text);
    }
}

#[test]
fn mapped_bases() {
    let c = Catcher::new(404, handle_404);
    assert_eq!(c.base.path(), "/");

    let c = c.map_base(|_| format!("/bar")).unwrap_or_else(|_| panic!());
    assert_eq!(c.base.path(), "/bar");

    let c = c.map_base(|base| format!("/foo{}", base.to_string())).unwrap_or_else(|_| panic!());
    assert_eq!(c.base.path(), "/foo/bar");
    assert_eq!(c.code, Some(404));
    assert_eq!(c.name, None);
    let answer = c.handler.handle(Status::new(404), &request("/x"));
    assert_eq!(body(answer), "404: /x");

    let c = c.map_base(|base| format!("/foo ? {}", base.to_string()));
    assert!(matches!(c, Err(Error)));
}

#[test]
fn mapping_ignores_the_query_and_empty_segments() {
    let c = Catcher::new(404, DefaultHandler);
    let c = c.map_base(|_| "/a//b/?c=d".to_string()).unwrap_or_else(|_| panic!());
    assert_eq!(c.base.path(), "/a/b");
    assert_eq!(c.base.query(), None);
    let c = c.map_base(|base| base.to_string()).unwrap_or_else(|_| panic!());
    assert_eq!(c.base.to_string(), "/a/b");
    let c = c.map_base(|base| format!("/{}", base.to_string())).unwrap_or_else(|_| panic!());
    assert_eq!(c.base.path(), "/a/b");
}

#[test]
fn last_base_counts() {
    let c = Catcher::new(404, DefaultHandler);
    let c = c.map_base(|_| "/first".to_string()).unwrap_or_else(|_| panic!());
    let c = c.map_base(|_| "/second".to_string()).unwrap_or_else(|_| panic!());
    assert_eq!(c.base.path(), "/second");
}

#[test]
fn generated_catchers() {
    let info = StaticCatcherInfo { name: "not_found", code: Some(404), handler: handle_404 };
    let c = Catcher::from(info);
    assert_eq!(c.name.as_deref(), Some("not_found"));
    assert_eq!(c.base.path(), "/");
    assert_eq!(c.code, Some(404));
    assert_eq!(body(c.handler.handle(Status::new(404), &request("/y"))), "404: /y");

    let info = StaticCatcherInfo { name: "default", code: None, handler: handle_default };
    assert_eq!(Catcher::from(info).code, None);
}

#[test]
fn cloned_catchers() {
    let mut c = Catcher::new(404, CustomHandler(Kind::Complex));
    let c2 = c.clone();
    assert_eq!(c2.name, None);
    c.name = Some(Cow::Owned("owned".to_string()));
    c.base = Origin::new("/a", Some("b"));
    let c2 = c.clone();
    assert_eq!(c2.name.as_deref(), Some("owned"));
    assert_eq!(c2.base.to_string(), "/a?b");
    assert_eq!(c2.code, Some(404));
    assert_eq!(body(c2.handler.handle(Status::new(404), &request("/"))), "complex");
    c.name = Some(Cow::Borrowed("borrowed"));
    assert_eq!(c.clone().name.as_deref(), Some("borrowed"));
}

/// A handler whose clones count from zero again.
struct Counting(u32);

impl Clone for Counting {
    fn clone(&self) -> Counting {
        Counting(0)
    }
}

impl ErrorHandler for Counting {
    fn handle(&self, status: Status, _: &Request) -> Result<Response, Status> {
        respond(status, format!("{}", self.0))
    }
}

#[test]
fn clones_are_what_clone_gives() {
    let c = Catcher::new(404, Counting(7));
    let boxed = c.handler.clone_handler();
    assert_eq!(boxed.0, 0);
    assert_eq!(body(boxed.handle(Status::new(404), &request("/"))), "0");
    assert_eq!(c.clone().handler.0, 0);
    assert_eq!(c.handler.0, 7);
}

/// `text` without its escape sequences.
fn visible(text: &str) -> String {
    let mut inside = false;
    let mut out = String::new();
    for c in text.chars() {
        if inside {
            inside = c != 'm';
        } else if c == '\x1B' {
            inside = true;
        } else {
            out.push(c);
        }
    }
    out
}

#[test]
fn shown_catchers() {
    let mut c = Catcher::new(404, DefaultHandler);
    c.name = Some(Cow::Borrowed("nf"));
    c.base = Origin::new("/a", None);
    let default: Catcher<DefaultHandler> = Default::default();

    Paint::enable();
    assert_eq!(
        c.to_string(),
        "\x1B[36m(\x1B[0m\x1B[37mnf\x1B[0m\x1B[36m)\x1B[0m \x1B[32m/a\x1B[0m \x1B[34m404\x1B[0m"
    );
    assert_eq!(Catcher::new(500, DefaultHandler).to_string(), "\x1B[34m500\x1B[0m");
    let colored = c.to_string();
    let mut other = Catcher::new(404, failing);
    other.name = Some(Cow::Borrowed("nf"));
    other.base = Origin::new("/a", None);
    assert_eq!(other.to_string(), colored);

    Paint::disable();
    assert_eq!(c.to_string(), "(nf) /a 404");
    assert_eq!(visible(&colored), "(nf) /a 404");
    assert_eq!(default.to_string(), "(<Rocket Catcher>) default");
    assert_eq!(Catcher::new(500, DefaultHandler).to_string(), "500");
    c.name = Some(Cow::Owned("owned".to_string()));
    assert_eq!(c.to_string(), "(owned) /a 404");
    c.name = None;
    c.base = Origin::new("/", Some("q"));
    assert_eq!(c.to_string(), "404");
}

#[test]
fn composed_lines() {
    let s = |text: &str| text.to_string();
    assert_eq!(compose(Some(s("n")), Some(s("b")), s("c")), "n b c");
    assert_eq!(compose(None, Some(s("b")), s("c")), "b c");
    assert_eq!(compose(Some(s("n")), None, s("c")), "n c");
    assert_eq!(compose(None, None, s("")), "");
    assert_eq!(enclose(s("("), s("n"), s("]")), "(n]");
    assert_eq!(enclose(s(""), s(""), s("")), "");
}
