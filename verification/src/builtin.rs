//! The built-in description of an error, in HTML or in JSON.

use crate::http::{ContentType, Request, Response, Status};
use crate::json;
use crate::json::{
    law_last_member_is_read, law_member_is_read, law_number_value_is_read,
    law_object_value_is_read, law_text_value_is_read, member, Json,
};
use crate::text::{
    decimal, decimal_string, law_decimal_determines_number, law_decimal_is_digits,
};
use vstd::prelude::*;

verus! {

pub const HTML_TITLE: &'static str = r#"<!DOCTYPE html>
<html lang="en">
<head>
    <meta charset="utf-8">
    <title>"#;

pub const HTML_HEADING: &'static str = r#"</title>
</head>
<body align="center">
    <div role="main" align="center">
        <h1>"#;

pub const HTML_DESCRIPTION: &'static str = r#"</h1>
        <p>"#;

pub const HTML_END: &'static str = r#"</p>
        <hr />
    </div>
    <div role="contentinfo" align="center">
        <small>Rocket</small>
    </div>
</body>
</html>"#;

pub const JSON_CODE: &'static str = r#"{
  "error": {
    "code": "#;

pub const JSON_REASON: &'static str = r#",
    "reason": ""#;

pub const JSON_DESCRIPTION: &'static str = r#"",
    "description": ""#;

pub const JSON_END: &'static str = r#""
  }
}"#;

/// The reason phrase for a status code.
pub open spec fn reason(code: u16) -> Seq<char> {
    match code {
        400 => "Bad Request"@,
        401 => "Unauthorized"@,
        402 => "Payment Required"@,
        403 => "Forbidden"@,
        404 => "Not Found"@,
        405 => "Method Not Allowed"@,
        406 => "Not Acceptable"@,
        407 => "Proxy Authentication Required"@,
        408 => "Request Timeout"@,
        409 => "Conflict"@,
        410 => "Gone"@,
        411 => "Length Required"@,
        412 => "Precondition Failed"@,
        413 => "Payload Too Large"@,
        414 => "URI Too Long"@,
        415 => "Unsupported Media Type"@,
        416 => "Range Not Satisfiable"@,
        417 => "Expectation Failed"@,
        418 => "I'm a teapot"@,
        421 => "Misdirected Request"@,
        422 => "Unprocessable Entity"@,
        426 => "Upgrade Required"@,
        428 => "Precondition Required"@,
        429 => "Too Many Requests"@,
        431 => "Request Header Fields Too Large"@,
        451 => "Unavailable For Legal Reasons"@,
        500 => "Internal Server Error"@,
        501 => "Not Implemented"@,
        503 => "Service Unavailable"@,
        504 => "Gateway Timeout"@,
        510 => "Not Extended"@,
        _ => "Unknown Error"@,
    }
}

/// The sentence that explains a status code.
pub open spec fn description(code: u16) -> Seq<char> {
    match code {
        400 => "The request could not be understood by the server due to malformed syntax."@,
        401 => "The request requires user authentication."@,
        402 => "The request could not be processed due to lack of payment."@,
        403 => "The server refused to authorize the request."@,
        404 => "The requested resource could not be found."@,
        405 => "The request method is not supported for the requested resource."@,
        406 => "The requested resource is capable of generating only content not acceptable according to the Accept headers sent in the request."@,
        407 => "Authentication with the proxy is required."@,
        408 => "The server timed out waiting for the request."@,
        409 => "The request could not be processed because of a conflict in the request."@,
        410 => "The resource requested is no longer available and will not be available again."@,
        411 => "The request did not specify the length of its content, which is required by the requested resource."@,
        412 => "The server does not meet one of the preconditions specified in the request."@,
        413 => "The request is larger than the server is willing or able to process."@,
        414 => "The URI provided was too long for the server to process."@,
        415 => "The request entity has a media type which the server or resource does not support."@,
        416 => "The portion of the requested file cannot be supplied by the server."@,
        417 => "The server cannot meet the requirements of the Expect request-header field."@,
        418 => "I was requested to brew coffee, and I am a teapot."@,
        421 => "The server cannot produce a response for this request."@,
        422 => "The request was well-formed but was unable to be followed due to semantic errors."@,
        426 => "Switching to the protocol in the Upgrade header field is required."@,
        428 => "The server requires the request to be conditional."@,
        429 => "Too many requests have been received recently."@,
        431 => "The server is unwilling to process the request because either an individual header field, or all the header fields collectively, are too large."@,
        451 => "The requested resource is unavailable due to a legal demand to deny access to this resource."@,
        500 => "The server encountered an internal error while processing this request."@,
        501 => "The server either does not recognize the request method, or it lacks the ability to fulfill the request."@,
        503 => "The server is currently unavailable."@,
        504 => "The server did not receive a timely response from an upstream server."@,
        510 => "Further extensions to the request are required for the server to fulfill it."@,
        _ => "An unknown error has occurred."@,
    }
}

/// The reason phrase and the sentence for a status code.
pub fn describe(code: u16) -> (text: (&'static str, &'static str))
    ensures
        text.0@ == reason(code),
        text.1@ == description(code),
{
    match code {
        400 => (
            "Bad Request",
            "The request could not be understood by the server due to malformed syntax.",
        ),
        401 => (
            "Unauthorized",
            "The request requires user authentication.",
        ),
        402 => (
            "Payment Required",
            "The request could not be processed due to lack of payment.",
        ),
        403 => (
            "Forbidden",
            "The server refused to authorize the request.",
        ),
        404 => (
            "Not Found",
            "The requested resource could not be found.",
        ),
        405 => (
            "Method Not Allowed",
            "The request method is not supported for the requested resource.",
        ),
        406 => (
            "Not Acceptable",
            "The requested resource is capable of generating only content not acceptable according to the Accept headers sent in the request.",
        ),
        407 => (
            "Proxy Authentication Required",
            "Authentication with the proxy is required.",
        ),
        408 => (
            "Request Timeout",
            "The server timed out waiting for the request.",
        ),
        409 => (
            "Conflict",
            "The request could not be processed because of a conflict in the request.",
        ),
        410 => (
            "Gone",
            "The resource requested is no longer available and will not be available again.",
        ),
        411 => (
            "Length Required",
            "The request did not specify the length of its content, which is required by the requested resource.",
        ),
        412 => (
            "Precondition Failed",
            "The server does not meet one of the preconditions specified in the request.",
        ),
        413 => (
            "Payload Too Large",
            "The request is larger than the server is willing or able to process.",
        ),
        414 => (
            "URI Too Long",
            "The URI provided was too long for the server to process.",
        ),
        415 => (
            "Unsupported Media Type",
            "The request entity has a media type which the server or resource does not support.",
        ),
        416 => (
            "Range Not Satisfiable",
            "The portion of the requested file cannot be supplied by the server.",
        ),
        417 => (
            "Expectation Failed",
            "The server cannot meet the requirements of the Expect request-header field.",
        ),
        418 => (
            "I'm a teapot",
            "I was requested to brew coffee, and I am a teapot.",
        ),
        421 => (
            "Misdirected Request",
            "The server cannot produce a response for this request.",
        ),
        422 => (
            "Unprocessable Entity",
            "The request was well-formed but was unable to be followed due to semantic errors.",
        ),
        426 => (
            "Upgrade Required",
            "Switching to the protocol in the Upgrade header field is required.",
        ),
        428 => (
            "Precondition Required",
            "The server requires the request to be conditional.",
        ),
        429 => (
            "Too Many Requests",
            "Too many requests have been received recently.",
        ),
        431 => (
            "Request Header Fields Too Large",
            "The server is unwilling to process the request because either an individual header field, or all the header fields collectively, are too large.",
        ),
        451 => (
            "Unavailable For Legal Reasons",
            "The requested resource is unavailable due to a legal demand to deny access to this resource.",
        ),
        500 => (
            "Internal Server Error",
            "The server encountered an internal error while processing this request.",
        ),
        501 => (
            "Not Implemented",
            "The server either does not recognize the request method, or it lacks the ability to fulfill the request.",
        ),
        503 => (
            "Service Unavailable",
            "The server is currently unavailable.",
        ),
        504 => (
            "Gateway Timeout",
            "The server did not receive a timely response from an upstream server.",
        ),
        510 => (
            "Not Extended",
            "Further extensions to the request are required for the server to fulfill it.",
        ),
        _ => ("Unknown Error", "An unknown error has occurred."),
    }
}

/// The page that describes an error in HTML.
pub open spec fn html_page(code: Seq<char>, reason: Seq<char>, description: Seq<char>) -> Seq<
    char,
> {
    HTML_TITLE@ + code + " "@ + reason + HTML_HEADING@ + code + ": "@ + reason + HTML_DESCRIPTION@
        + description + HTML_END@
}

/// The object that describes an error in JSON.
pub open spec fn json_object(code: Seq<char>, reason: Seq<char>, description: Seq<char>) -> Seq<
    char,
> {
    JSON_CODE@ + code + JSON_REASON@ + reason + JSON_DESCRIPTION@ + description + JSON_END@
}

/// The body that describes a status code.
pub open spec fn error_body(json: bool, code: u16) -> Seq<char> {
    let digits = decimal(code as nat);
    if json {
        json_object(digits, reason(code), description(code))
    } else {
        html_page(digits, reason(code), description(code))
    }
}

/// `response` is the built-in answer to a request that ended in `status`: it
/// keeps the status and describes it in JSON if the client prefers that, in
/// HTML if it does not or did not say.
pub open spec fn is_default_response(status: Status, req: Request, response: Response) -> bool {
    &&& response.status == status
    &&& response.content_type == Some(
        if req.prefers_json() {
            ContentType::JSON
        } else {
            ContentType::HTML
        },
    )
    &&& response.body matches Some(body) && body.wf() && body.data@ == error_body(
        req.prefers_json(),
        status.code,
    )
}

/// Writes the HTML page for a status code.
pub fn html_error(code: u16) -> (page: String)
    ensures
        page@ == error_body(false, code),
{
    let digits = decimal_string(code);
    let (reason, description) = describe(code);
    let mut page = HTML_TITLE.to_owned();
    page.append(digits.as_str());
    page.append(" ");
    page.append(reason);
    page.append(HTML_HEADING);
    page.append(digits.as_str());
    page.append(": ");
    page.append(reason);
    page.append(HTML_DESCRIPTION);
    page.append(description);
    page.append(HTML_END);
    page
}

/// Writes the JSON object for a status code.
pub fn json_error(code: u16) -> (object: String)
    ensures
        object@ == error_body(true, code),
{
    let digits = decimal_string(code);
    let (reason, description) = describe(code);
    let mut object = JSON_CODE.to_owned();
    object.append(digits.as_str());
    object.append(JSON_REASON);
    object.append(reason);
    object.append(JSON_DESCRIPTION);
    object.append(description);
    object.append(JSON_END);
    object
}

/// The built-in answer to a request that ended in an error.
pub fn default(status: Status, req: &Request) -> (response: Response)
    ensures
        is_default_response(status, *req, response),
{
    let json = match req.accept() {
        None => false,
        Some(accept) => accept.preferred().is_json(),
    };
    let (content_type, text) = if json {
        (ContentType::JSON, json_error(status.code))
    } else {
        (ContentType::HTML, html_error(status.code))
    };
    let mut response = Response { status, content_type: Some(content_type), body: None };
    let size = text.as_str().as_bytes().len();
    response.set_sized_body(size, text);
    response
}

/// Each character of `s` stands for itself both in the text of an HTML
/// element and between the quotes of a JSON string.
pub open spec fn needs_no_escape(s: Seq<char>) -> bool {
    forall|i: int|
        0 <= i < s.len() ==> ' ' <= #[trigger] s[i] <= '~' && s[i] != '"' && s[i] != '\\' && s[i]
            != '<' && s[i] != '>' && s[i] != '&'
}

/// The reason phrase and the description of every code are not empty and can
/// stand in either body as they are.
pub proof fn law_descriptions_need_no_escape(code: u16)
    ensures
        reason(code).len() > 0,
        description(code).len() > 0,
        needs_no_escape(reason(code)),
        needs_no_escape(description(code)),
{
    match code {
        400 => {
            reveal_strlit("Bad Request");
            reveal_strlit("The request could not be understood by the server due to malformed syntax.");
        },
        401 => {
            reveal_strlit("Unauthorized");
            reveal_strlit("The request requires user authentication.");
        },
        402 => {
            reveal_strlit("Payment Required");
            reveal_strlit("The request could not be processed due to lack of payment.");
        },
        403 => {
            reveal_strlit("Forbidden");
            reveal_strlit("The server refused to authorize the request.");
        },
        404 => {
            reveal_strlit("Not Found");
            reveal_strlit("The requested resource could not be found.");
        },
        405 => {
            reveal_strlit("Method Not Allowed");
            reveal_strlit("The request method is not supported for the requested resource.");
        },
        406 => {
            reveal_strlit("Not Acceptable");
            reveal_strlit("The requested resource is capable of generating only content not acceptable according to the Accept headers sent in the request.");
        },
        407 => {
            reveal_strlit("Proxy Authentication Required");
            reveal_strlit("Authentication with the proxy is required.");
        },
        408 => {
            reveal_strlit("Request Timeout");
            reveal_strlit("The server timed out waiting for the request.");
        },
        409 => {
            reveal_strlit("Conflict");
            reveal_strlit("The request could not be processed because of a conflict in the request.");
        },
        410 => {
            reveal_strlit("Gone");
            reveal_strlit("The resource requested is no longer available and will not be available again.");
        },
        411 => {
            reveal_strlit("Length Required");
            reveal_strlit("The request did not specify the length of its content, which is required by the requested resource.");
        },
        412 => {
            reveal_strlit("Precondition Failed");
            reveal_strlit("The server does not meet one of the preconditions specified in the request.");
        },
        413 => {
            reveal_strlit("Payload Too Large");
            reveal_strlit("The request is larger than the server is willing or able to process.");
        },
        414 => {
            reveal_strlit("URI Too Long");
            reveal_strlit("The URI provided was too long for the server to process.");
        },
        415 => {
            reveal_strlit("Unsupported Media Type");
            reveal_strlit("The request entity has a media type which the server or resource does not support.");
        },
        416 => {
            reveal_strlit("Range Not Satisfiable");
            reveal_strlit("The portion of the requested file cannot be supplied by the server.");
        },
        417 => {
            reveal_strlit("Expectation Failed");
            reveal_strlit("The server cannot meet the requirements of the Expect request-header field.");
        },
        418 => {
            reveal_strlit("I'm a teapot");
            reveal_strlit("I was requested to brew coffee, and I am a teapot.");
        },
        421 => {
            reveal_strlit("Misdirected Request");
            reveal_strlit("The server cannot produce a response for this request.");
        },
        422 => {
            reveal_strlit("Unprocessable Entity");
            reveal_strlit("The request was well-formed but was unable to be followed due to semantic errors.");
        },
        426 => {
            reveal_strlit("Upgrade Required");
            reveal_strlit("Switching to the protocol in the Upgrade header field is required.");
        },
        428 => {
            reveal_strlit("Precondition Required");
            reveal_strlit("The server requires the request to be conditional.");
        },
        429 => {
            reveal_strlit("Too Many Requests");
            reveal_strlit("Too many requests have been received recently.");
        },
        431 => {
            reveal_strlit("Request Header Fields Too Large");
            reveal_strlit("The server is unwilling to process the request because either an individual header field, or all the header fields collectively, are too large.");
        },
        451 => {
            reveal_strlit("Unavailable For Legal Reasons");
            reveal_strlit("The requested resource is unavailable due to a legal demand to deny access to this resource.");
        },
        500 => {
            reveal_strlit("Internal Server Error");
            reveal_strlit("The server encountered an internal error while processing this request.");
        },
        501 => {
            reveal_strlit("Not Implemented");
            reveal_strlit("The server either does not recognize the request method, or it lacks the ability to fulfill the request.");
        },
        503 => {
            reveal_strlit("Service Unavailable");
            reveal_strlit("The server is currently unavailable.");
        },
        504 => {
            reveal_strlit("Gateway Timeout");
            reveal_strlit("The server did not receive a timely response from an upstream server.");
        },
        510 => {
            reveal_strlit("Not Extended");
            reveal_strlit("Further extensions to the request are required for the server to fulfill it.");
        },
        _ => {
            reveal_strlit("Unknown Error");
            reveal_strlit("An unknown error has occurred.");
        },
    }
}

/// `body` starts with `head` and the digits of `code`, and then comes `mark`.
spec fn shows_code(body: Seq<char>, head: Seq<char>, code: u16, mark: char) -> bool {
    let digits = decimal(code as nat);
    &&& body.len() > head.len() + digits.len()
    &&& body.subrange(head.len() as int, (head.len() + digits.len()) as int) == digits
    &&& body[(head.len() + digits.len()) as int] == mark
}

proof fn lemma_body_shows_code(json: bool, code: u16)
    ensures
        json ==> shows_code(error_body(json, code), JSON_CODE@, code, ','),
        !json ==> shows_code(error_body(json, code), HTML_TITLE@, code, ' '),
{
    let body = error_body(json, code);
    let digits = decimal(code as nat);
    if json {
        let start = JSON_CODE@.len() as int;
        reveal_strlit(
            r#",
    "reason": ""#,
        );
        assert(body.subrange(start, start + digits.len()) =~= digits);
        assert(body[start + digits.len()] == JSON_REASON@[0]);
    } else {
        let start = HTML_TITLE@.len() as int;
        reveal_strlit(" ");
        assert(body.subrange(start, start + digits.len()) =~= digits);
        assert(body[start + digits.len()] == " "@[0]);
    }
}

/// The body tells which code it describes, also among the codes that share
/// one reason phrase and description.
pub proof fn law_body_determines_code(json: bool, a: u16, b: u16)
    requires
        error_body(json, a) == error_body(json, b),
    ensures
        a == b,
{
    let body = error_body(json, a);
    let start = if json {
        JSON_CODE@.len() as int
    } else {
        HTML_TITLE@.len() as int
    };
    let x = decimal(a as nat);
    let y = decimal(b as nat);
    lemma_body_shows_code(json, a);
    lemma_body_shows_code(json, b);
    law_decimal_is_digits(a as nat);
    law_decimal_is_digits(b as nat);
    if x.len() < y.len() {
        assert(body[start + x.len()] == y[x.len() as int]);
    } else if y.len() < x.len() {
        assert(body[start + y.len()] == x[y.len() as int]);
    }
    law_decimal_determines_number(a as nat, b as nat);
}

/// The status codes with a reason phrase and a description of their own.
pub open spec fn is_described(code: u16) -> bool {
    ||| 400 <= code <= 418
    ||| code == 421 || code == 422 || code == 426 || code == 428 || code == 429 || code == 431
    ||| code == 451
    ||| code == 500 || code == 501 || code == 503 || code == 504 || code == 510
}

/// Every code but the described ones is an unknown error, and no described
/// one is. The described codes are HTTP errors.
pub proof fn law_other_codes_are_unknown(code: u16)
    ensures
        reason(code) == "Unknown Error"@ <==> !is_described(code),
        description(code) == "An unknown error has occurred."@ <==> !is_described(code),
        is_described(code) ==> 400 <= code < 600,
{
    let unknown = "Unknown Error"@;
    let occurred = "An unknown error has occurred."@;
    reveal_strlit("Unknown Error");
    reveal_strlit("An unknown error has occurred.");
    match code {
        400 => {
            reveal_strlit("Bad Request");
            reveal_strlit("The request could not be understood by the server due to malformed syntax.");
        },
        401 => {
            reveal_strlit("Unauthorized");
            reveal_strlit("The request requires user authentication.");
        },
        402 => {
            reveal_strlit("Payment Required");
            reveal_strlit("The request could not be processed due to lack of payment.");
        },
        403 => {
            reveal_strlit("Forbidden");
            reveal_strlit("The server refused to authorize the request.");
        },
        404 => {
            reveal_strlit("Not Found");
            reveal_strlit("The requested resource could not be found.");
        },
        405 => {
            reveal_strlit("Method Not Allowed");
            reveal_strlit("The request method is not supported for the requested resource.");
        },
        406 => {
            reveal_strlit("Not Acceptable");
            reveal_strlit("The requested resource is capable of generating only content not acceptable according to the Accept headers sent in the request.");
        },
        407 => {
            reveal_strlit("Proxy Authentication Required");
            reveal_strlit("Authentication with the proxy is required.");
        },
        408 => {
            reveal_strlit("Request Timeout");
            reveal_strlit("The server timed out waiting for the request.");
        },
        409 => {
            reveal_strlit("Conflict");
            reveal_strlit("The request could not be processed because of a conflict in the request.");
        },
        410 => {
            reveal_strlit("Gone");
            reveal_strlit("The resource requested is no longer available and will not be available again.");
        },
        411 => {
            reveal_strlit("Length Required");
            reveal_strlit("The request did not specify the length of its content, which is required by the requested resource.");
        },
        412 => {
            reveal_strlit("Precondition Failed");
            reveal_strlit("The server does not meet one of the preconditions specified in the request.");
        },
        413 => {
            reveal_strlit("Payload Too Large");
            reveal_strlit("The request is larger than the server is willing or able to process.");
        },
        414 => {
            reveal_strlit("URI Too Long");
            reveal_strlit("The URI provided was too long for the server to process.");
        },
        415 => {
            reveal_strlit("Unsupported Media Type");
            reveal_strlit("The request entity has a media type which the server or resource does not support.");
        },
        416 => {
            reveal_strlit("Range Not Satisfiable");
            reveal_strlit("The portion of the requested file cannot be supplied by the server.");
        },
        417 => {
            reveal_strlit("Expectation Failed");
            reveal_strlit("The server cannot meet the requirements of the Expect request-header field.");
        },
        418 => {
            reveal_strlit("I'm a teapot");
            reveal_strlit("I was requested to brew coffee, and I am a teapot.");
        },
        421 => {
            reveal_strlit("Misdirected Request");
            reveal_strlit("The server cannot produce a response for this request.");
        },
        422 => {
            reveal_strlit("Unprocessable Entity");
            reveal_strlit("The request was well-formed but was unable to be followed due to semantic errors.");
        },
        426 => {
            reveal_strlit("Upgrade Required");
            reveal_strlit("Switching to the protocol in the Upgrade header field is required.");
        },
        428 => {
            reveal_strlit("Precondition Required");
            reveal_strlit("The server requires the request to be conditional.");
        },
        429 => {
            reveal_strlit("Too Many Requests");
            reveal_strlit("Too many requests have been received recently.");
        },
        431 => {
            reveal_strlit("Request Header Fields Too Large");
            reveal_strlit("The server is unwilling to process the request because either an individual header field, or all the header fields collectively, are too large.");
        },
        451 => {
            reveal_strlit("Unavailable For Legal Reasons");
            reveal_strlit("The requested resource is unavailable due to a legal demand to deny access to this resource.");
        },
        500 => {
            reveal_strlit("Internal Server Error");
            reveal_strlit("The server encountered an internal error while processing this request.");
        },
        501 => {
            reveal_strlit("Not Implemented");
            reveal_strlit("The server either does not recognize the request method, or it lacks the ability to fulfill the request.");
        },
        503 => {
            reveal_strlit("Service Unavailable");
            reveal_strlit("The server is currently unavailable.");
        },
        504 => {
            reveal_strlit("Gateway Timeout");
            reveal_strlit("The server did not receive a timely response from an upstream server.");
        },
        510 => {
            reveal_strlit("Not Extended");
            reveal_strlit("Further extensions to the request are required for the server to fulfill it.");
        },
        _ => {},
    }
    if is_described(code) {
        assert(reason(code).len() != unknown.len() || reason(code)[0] != unknown[0]);
        assert(description(code).len() != occurred.len() || description(code)[0] != occurred[0]);
    }
}

/// What the JSON body for a status code says: an object with one member, the
/// error, whose members are the code, the reason phrase and the description.
pub open spec fn error_value(code: u16) -> Json {
    Json::Object(
        seq![
            (
                "error"@,
                Json::Object(
                    seq![
                        ("code"@, Json::Number(code as nat)),
                        ("reason"@, Json::Text(reason(code))),
                        ("description"@, Json::Text(description(code))),
                    ],
                ),
            ),
        ],
    )
}

/// The white space in front of a member of the error.
spec fn indent() -> Seq<char> {
    seq!['\n', ' ', ' ', ' ', ' ']
}

/// The text of a string value, a space in front of it, and what follows it.
spec fn text_value(text: Seq<char>, rest: Seq<char>) -> Seq<char> {
    seq![' '] + (seq!['"'] + (text + (seq!['"'] + rest)))
}

/// What follows the description in the JSON body.
spec fn closing() -> Seq<char> {
    seq!['\n', ' ', ' '] + (seq!['}'] + seq!['\n', '}'])
}

proof fn lemma_json_head(rest: Seq<char>)
    ensures
        JSON_CODE@ + rest == seq!['{'] + (seq!['\n', ' ', ' '] + member(
            "error"@,
            seq![' '] + (seq!['{'] + (indent() + member("code"@, seq![' '] + rest))),
        )),
{
    reveal_strlit(
        r#"{
  "error": {
    "code": "#,
    );
    reveal_strlit("error");
    reveal_strlit("code");
    assert(JSON_CODE@ + rest =~= seq!['{'] + (seq!['\n', ' ', ' '] + member(
        "error"@,
        seq![' '] + (seq!['{'] + (indent() + member("code"@, seq![' '] + rest))),
    )));
}

proof fn lemma_json_reason(text: Seq<char>, rest: Seq<char>)
    ensures
        JSON_REASON@ + (text + (seq!['"'] + rest)) == seq![','] + (indent() + member(
            "reason"@,
            text_value(text, rest),
        )),
{
    reveal_strlit(
        r#",
    "reason": ""#,
    );
    reveal_strlit("reason");
    assert(JSON_REASON@ + (text + (seq!['"'] + rest)) =~= seq![','] + (indent() + member(
        "reason"@,
        text_value(text, rest),
    )));
}

proof fn lemma_json_description(text: Seq<char>, rest: Seq<char>)
    ensures
        JSON_DESCRIPTION@ + (text + (seq!['"'] + rest)) == seq!['"'] + (seq![','] + (indent()
            + member("description"@, text_value(text, rest)))),
{
    reveal_strlit(
        r#"",
    "description": ""#,
    );
    reveal_strlit("description");
    assert(JSON_DESCRIPTION@ + (text + (seq!['"'] + rest)) =~= seq!['"'] + (seq![','] + (indent()
        + member("description"@, text_value(text, rest)))));
}

proof fn lemma_json_end()
    ensures
        JSON_END@ == seq!['"'] + closing(),
{
    reveal_strlit(
        r#""
  }
}"#,
    );
    assert(JSON_END@ =~= seq!['"'] + closing());
}

proof fn lemma_json_object_nested(code: Seq<char>, reason: Seq<char>, description: Seq<char>)
    ensures
        json_object(code, reason, description) == JSON_CODE@ + (code + (JSON_REASON@ + (reason + (
        JSON_DESCRIPTION@ + (description + JSON_END@))))),
{
    assert(json_object(code, reason, description) =~= JSON_CODE@ + (code + (JSON_REASON@ + (reason
        + (JSON_DESCRIPTION@ + (description + JSON_END@))))));
}

/// The JSON body for a status code is a JSON text: it is read as one object
/// that holds the code, the reason phrase and the description, of which
/// neither is empty.
pub proof fn law_json_body_reads_back(code: u16)
    ensures
        json::read(error_body(true, code)) == Some(error_value(code)),
        reason(code).len() > 0,
        description(code).len() > 0,
{
    let why = reason(code);
    let text = description(code);
    let digits = decimal(code as nat);
    law_descriptions_need_no_escape(code);

    let last = member("description"@, text_value(text, closing()));
    let after_reason = seq![','] + (indent() + last);
    let middle = member("reason"@, text_value(why, after_reason));
    let after_code = seq![','] + (indent() + middle);
    let first = member("code"@, seq![' '] + (digits + after_code));
    let object = seq![' '] + (seq!['{'] + (indent() + first));
    let outer = member("error"@, object);
    let body = error_body(true, code);

    lemma_json_object_nested(digits, why, text);
    lemma_json_end();
    lemma_json_description(text, closing());
    lemma_json_reason(why, after_reason);
    lemma_json_head(digits + after_code);
    assert(body == seq!['{'] + (seq!['\n', ' ', ' '] + outer));

    let steps = body.len();
    assert(steps > 10) by {
        reveal_strlit(
            r#"{
  "error": {
    "code": "#,
        );
    }
    reveal_strlit("error");
    reveal_strlit("code");
    reveal_strlit("reason");
    reveal_strlit("description");
    let none = Seq::<char>::empty();

    // the members of the error, from the last to the first
    let text_member = ("description"@, Json::Text(text));
    law_text_value_is_read(seq![' '], text, closing(), (steps - 6) as nat);
    law_last_member_is_read(
        indent(),
        "description"@,
        text_value(text, closing()),
        Json::Text(text),
        seq!['\n', ' ', ' '],
        seq!['\n', '}'],
        (steps - 5) as nat,
    );
    let why_member = ("reason"@, Json::Text(why));
    law_text_value_is_read(seq![' '], why, after_reason, (steps - 5) as nat);
    law_member_is_read(
        indent(),
        "reason"@,
        text_value(why, after_reason),
        Json::Text(why),
        indent() + last,
        (steps - 4) as nat,
    );
    let code_member = ("code"@, Json::Number(code as nat));
    law_number_value_is_read(seq![' '], code as nat, after_code, (steps - 4) as nat);
    law_member_is_read(
        none,
        "code"@,
        seq![' '] + (digits + after_code),
        Json::Number(code as nat),
        indent() + middle,
        (steps - 3) as nat,
    );
    assert(none + first =~= first);
    let members = seq![code_member, why_member, text_member];
    assert(seq![code_member] + (seq![why_member] + seq![text_member]) =~= members);

    // the error, and the object around it
    law_object_value_is_read(
        seq![' '],
        indent(),
        "code"@,
        seq![' '] + (digits + after_code),
        (steps - 2) as nat,
    );
    assert(seq!['\n', '}'] =~= seq!['\n'] + (seq!['}'] + none));
    law_last_member_is_read(
        none,
        "error"@,
        object,
        Json::Object(members),
        seq!['\n'],
        none,
        (steps - 1) as nat,
    );
    assert(none + outer =~= outer);
    law_object_value_is_read(none, seq!['\n', ' ', ' '], "error"@, object, steps);
    assert(none + body =~= body);
}

/// `part` stands somewhere in `s`.
pub open spec fn holds(s: Seq<char>, part: Seq<char>) -> bool {
    exists|before: Seq<char>, after: Seq<char>| s == #[trigger] (before + part + after)
}

proof fn lemma_holds(s: Seq<char>, before: Seq<char>, part: Seq<char>, after: Seq<char>)
    requires
        s == before + part + after,
    ensures
        holds(s, part),
{
}

/// The HTML body for a status code shows what the JSON body says: the code and
/// the reason phrase as its title and as its heading, and the description in a
/// paragraph.
pub proof fn law_html_body_shows_the_same(code: u16)
    ensures
        holds(
            error_body(false, code),
            "<title>"@ + decimal(code as nat) + " "@ + reason(code) + "</title>"@,
        ),
        holds(
            error_body(false, code),
            "<h1>"@ + decimal(code as nat) + ": "@ + reason(code) + "</h1>"@,
        ),
        holds(error_body(false, code), "<p>"@ + description(code) + "</p>"@),
{
    lemma_html_parts(decimal(code as nat), reason(code), description(code));
}

proof fn lemma_html_parts(code: Seq<char>, reason: Seq<char>, description: Seq<char>)
    ensures
        holds(
            html_page(code, reason, description),
            "<title>"@ + code + " "@ + reason + "</title>"@,
        ),
        holds(html_page(code, reason, description), "<h1>"@ + code + ": "@ + reason + "</h1>"@),
        holds(html_page(code, reason, description), "<p>"@ + description + "</p>"@),
{
    reveal_strlit("<title>");
    reveal_strlit("</title>");
    reveal_strlit("<h1>");
    reveal_strlit("</h1>");
    reveal_strlit("<p>");
    reveal_strlit("</p>");
    reveal_strlit(
        r#"<!DOCTYPE html>
<html lang="en">
<head>
    <meta charset="utf-8">
    <title>"#,
    );
    reveal_strlit(
        r#"</title>
</head>
<body align="center">
    <div role="main" align="center">
        <h1>"#,
    );
    reveal_strlit(
        r#"</h1>
        <p>"#,
    );
    reveal_strlit(
        r#"</p>
        <hr />
    </div>
    <div role="contentinfo" align="center">
        <small>Rocket</small>
    </div>
</body>
</html>"#,
    );
    // the constants, cut where the elements start and end
    let head = HTML_TITLE@.take(HTML_TITLE@.len() - 7);
    let body = HTML_HEADING@.subrange(8, HTML_HEADING@.len() - 4);
    let gap = HTML_DESCRIPTION@.subrange(5, HTML_DESCRIPTION@.len() - 3);
    let foot = HTML_END@.skip(4);
    assert(HTML_TITLE@ =~= head + "<title>"@);
    assert(HTML_HEADING@ =~= "</title>"@ + body + "<h1>"@);
    assert(HTML_DESCRIPTION@ =~= "</h1>"@ + gap + "<p>"@);
    assert(HTML_END@ =~= "</p>"@ + foot);
    lemma_html_cut(
        code,
        reason,
        description,
        (head, body, gap, foot),
        ("<title>"@, "</title>"@),
        ("<h1>"@, "</h1>"@),
        ("<p>"@, "</p>"@),
    );
}

proof fn lemma_html_cut(
    code: Seq<char>,
    reason: Seq<char>,
    description: Seq<char>,
    between: (Seq<char>, Seq<char>, Seq<char>, Seq<char>),
    title: (Seq<char>, Seq<char>),
    heading: (Seq<char>, Seq<char>),
    paragraph: (Seq<char>, Seq<char>),
)
    requires
        HTML_TITLE@ == between.0 + title.0,
        HTML_HEADING@ == title.1 + between.1 + heading.0,
        HTML_DESCRIPTION@ == heading.1 + between.2 + paragraph.0,
        HTML_END@ == paragraph.1 + between.3,
    ensures
        holds(html_page(code, reason, description), title.0 + code + " "@ + reason + title.1),
        holds(html_page(code, reason, description), heading.0 + code + ": "@ + reason + heading.1),
        holds(html_page(code, reason, description), paragraph.0 + description + paragraph.1),
{
    let page = html_page(code, reason, description);
    let t = title.0 + code + " "@ + reason + title.1;
    let h = heading.0 + code + ": "@ + reason + heading.1;
    let p = paragraph.0 + description + paragraph.1;
    let after_t = between.1 + h + between.2 + p + between.3;
    assert(page =~= between.0 + t + after_t);
    lemma_holds(page, between.0, t, after_t);
    let before_h = between.0 + t + between.1;
    let after_h = between.2 + p + between.3;
    assert(page =~= before_h + h + after_h);
    lemma_holds(page, before_h, h, after_h);
    let before_p = before_h + h + between.2;
    assert(page =~= before_p + p + between.3);
    lemma_holds(page, before_p, p, between.3);
}

} // verus!
