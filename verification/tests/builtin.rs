use catcher::builtin::{describe, html_error, json_error};
use catcher::catcher::Catcher;
use catcher::handler::{Cloneable, DefaultHandler, ErrorHandler};
use catcher::http::{Accept, ContentType, MediaType, Request, Response, Status};
use catcher::text::{decimal_string, eq_ignoring_case};
use catcher::uri::Origin;

fn request(accept: Option<(&str, &str)>) -> Request {
    Request {
        uri: Origin::new("/a", None),
        accept: accept.map(|(top, sub)| Accept { preferred: MediaType::new(top, sub) }),
    }
}

const HTML_404: &str = "<!DOCTYPE html>
<html lang=\"en\">
<head>
    <meta charset=\"utf-8\">
    <title>404 Not Found</title>
</head>
<body align=\"center\">
    <div role=\"main\" align=\"center\">
        <h1>404: Not Found</h1>
        <p>The requested resource could not be found.</p>
        <hr />
    </div>
    <div role=\"contentinfo\" align=\"center\">
        <small>Rocket</small>
    </div>
</body>
</html>";

const JSON_404: &str = "{
  \"error\": {
    \"code\": 404,
    \"reason\": \"Not Found\",
    \"description\": \"The requested resource could not be found.\"
  }
}";

const JSON_599: &str = "{
  \"error\": {
    \"code\": 599,
    \"reason\": \"Unknown Error\",
    \"description\": \"An unknown error has occurred.\"
  }
}";

#[test]
fn bodies_are_exact() {
    assert_eq!(html_error(404), HTML_404);
    assert_eq!(json_error(404), JSON_404);
    assert_eq!(json_error(599), JSON_599);
    let unknown = html_error(599);
    assert!(unknown.contains("<title>599 Unknown Error</title>"));
    assert!(unknown.contains("<h1>599: Unknown Error</h1>"));
    assert!(unknown.contains("<p>An unknown error has occurred.</p>"));
}

#[test]
fn every_code_with_a_description() {
    let known = [
        (400, "Bad Request", "The request could not be understood by the server due to malformed syntax."),
        (401, "Unauthorized", "The request requires user authentication."),
        (402, "Payment Required", "The request could not be processed due to lack of payment."),
        (403, "Forbidden", "The server refused to authorize the request."),
        (404, "Not Found", "The requested resource could not be found."),
        (405, "Method Not Allowed", "The request method is not supported for the requested resource."),
        (406, "Not Acceptable", "The requested resource is capable of generating only content not acceptable according to the Accept headers sent in the request."),
        (407, "Proxy Authentication Required", "Authentication with the proxy is required."),
        (408, "Request Timeout", "The server timed out waiting for the request."),
        (409, "Conflict", "The request could not be processed because of a conflict in the request."),
        (410, "Gone", "The resource requested is no longer available and will not be available again."),
        (411, "Length Required", "The request did not specify the length of its content, which is required by the requested resource."),
        (412, "Precondition Failed", "The server does not meet one of the preconditions specified in the request."),
        (413, "Payload Too Large", "The request is larger than the server is willing or able to process."),
        (414, "URI Too Long", "The URI provided was too long for the server to process."),
        (415, "Unsupported Media Type", "The request entity has a media type which the server or resource does not support."),
        (416, "Range Not Satisfiable", "The portion of the requested file cannot be supplied by the server."),
        (417, "Expectation Failed", "The server cannot meet the requirements of the Expect request-header field."),
        (418, "I'm a teapot", "I was requested to brew coffee, and I am a teapot."),
        (421, "Misdirected Request", "The server cannot produce a response for this request."),
        (422, "Unprocessable Entity", "The request was well-formed but was unable to be followed due to semantic errors."),
        (426, "Upgrade Required", "Switching to the protocol in the Upgrade header field is required."),
        (428, "Precondition Required", "The server requires the request to be conditional."),
        (429, "Too Many Requests", "Too many requests have been received recently."),
        (431, "Request Header Fields Too Large", "The server is unwilling to process the request because either an individual header field, or all the header fields collectively, are too large."),
        (451, "Unavailable For Legal Reasons", "The requested resource is unavailable due to a legal demand to deny access to this resource."),
        (500, "Internal Server Error", "The server encountered an internal error while processing this request."),
        (501, "Not Implemented", "The server either does not recognize the request method, or it lacks the ability to fulfill the request."),
        (503, "Service Unavailable", "The server is currently unavailable."),
        (504, "Gateway Timeout", "The server did not receive a timely response from an upstream server."),
        (510, "Not Extended", "Further extensions to the request are required for the server to fulfill it."),
    ];
    for (code, reason, description) in known.iter() {
        assert_eq!(describe(*code), (*reason, *description));
    }
    for code in 0..=u16::MAX {
        if !known.iter().any(|entry| entry.0 == code) {
            assert_eq!(describe(code), ("Unknown Error", "An unknown error has occurred."));
        }
    }
}

#[test]
fn descriptions_need_no_escape() {
    for code in 400..600 {
        let (reason, description) = describe(code);
        for c in reason.chars().chain(description.chars()) {
            assert!(c.is_ascii() && !c.is_ascii_control());
            assert!(!"\"\\<>&".contains(c));
        }
    }
}

#[test]
fn body_determines_code() {
    assert_ne!(json_error(599), json_error(598));
    assert_ne!(html_error(599), html_error(59));
}

#[test]
fn json_is_written_for_those_who_prefer_it() {
    let json = request(Some(("application", "json")));
    let r = catcher::builtin::default(Status::new(404), &json);
    assert_eq!(r.status, Status::new(404));
    assert_eq!(r.content_type, Some(ContentType::JSON));
    let body = r.body.unwrap();
    assert_eq!(body.data, JSON_404);
    assert_eq!(body.size, JSON_404.len());

    let upper = request(Some(("Application", "JSON")));
    let r = catcher::builtin::default(Status::new(599), &upper);
    assert_eq!(r.body.unwrap().data, JSON_599);
}

#[test]
fn html_is_written_for_all_others() {
    for accept in [None, Some(("text", "html")), Some(("text", "json")), Some(("application", "*"))] {
        let r = catcher::builtin::default(Status::new(404), &request(accept));
        assert_eq!(r.status, Status::new(404));
        assert_eq!(r.content_type, Some(ContentType::HTML));
        let body = r.body.unwrap();
        assert_eq!(body.data, HTML_404);
        assert_eq!(body.size, HTML_404.len());
    }
}

#[test]
fn builtin_catcher_handles_all_errors() {
    let c: Catcher<DefaultHandler> = Default::default();
    assert_eq!(c.name.as_deref(), Some("<Rocket Catcher>"));
    assert_eq!(c.base.path(), "/");
    assert_eq!(c.base.query(), None);
    assert_eq!(c.code, None);
    for code in [0, 200, 400, 404, 500, 599, 600, 65535] {
        let r = c.handler.handle(Status::new(code), &request(None)).unwrap();
        assert_eq!(r.status.code, code);
        assert_eq!(r.body.unwrap().data, html_error(code));
    }
    let boxed = c.handler.clone_handler();
    assert!(boxed.handle(Status::new(500), &request(None)).is_ok());
}

#[test]
fn numbers_in_base_ten() {
    assert_eq!(decimal_string(0), "0");
    assert_eq!(decimal_string(7), "7");
    assert_eq!(decimal_string(10), "10");
    assert_eq!(decimal_string(404), "404");
    assert_eq!(decimal_string(65535), "65535");
}

#[test]
fn letter_case_is_ignored() {
    assert!(eq_ignoring_case("JsOn", "json"));
    assert!(eq_ignoring_case("", ""));
    assert!(!eq_ignoring_case("json", "jso"));
    assert!(!eq_ignoring_case("[", "{"));
    assert!(!eq_ignoring_case("é", "É"));
}

#[test]
fn empty_response() {
    let mut r = Response::new();
    assert_eq!(r.status.code, 200);
    assert_eq!(r.content_type, None);
    assert!(r.body.is_none());
    r.set_sized_body(2, "hi".to_string());
    let body = r.body.unwrap();
    assert_eq!((body.size, body.data.as_str()), (2, "hi"));
}

#[test]
fn request_parts() {
    let r = request(Some(("text", "html")));
    assert_eq!(r.uri().to_string(), "/a");
    let preferred = r.accept().unwrap().preferred();
    assert_eq!((preferred.top.as_str(), preferred.sub.as_str()), ("text", "html"));
    assert!(!preferred.is_json());
    assert!(request(None).accept().is_none());
}
