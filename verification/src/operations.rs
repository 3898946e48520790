//! What each operation does, stated of its arguments and its result alone.
//!
//! The texts are spelled out and the characters given by their codes.

use crate::builtin::{describe, html_error, json_error};
use crate::catcher::{compose, enclose, parse_base, Catcher, StaticCatcherInfo};
use crate::handler::{Cloneable, DefaultHandler, ErrorHandler};
use crate::http::{Accept, ContentType, MediaType, Request, Response, Status};
use crate::text::{chars_of, decimal, decimal_string, eq_ignoring_case};
use crate::uri::{Error, Origin};
use std::borrow::Cow;
use vstd::prelude::*;
use vstd::utf8::encode_utf8;

verus! {

// Text

/// The digits of a number below 100000, by their character codes.
pub open spec fn digits_of(n: int) -> Seq<char> {
    let ones = (48 + n % 10) as char;
    let tens = (48 + n / 10 % 10) as char;
    let hundreds = (48 + n / 100 % 10) as char;
    let thousands = (48 + n / 1000 % 10) as char;
    if n < 10 {
        seq![ones]
    } else if n < 100 {
        seq![tens, ones]
    } else if n < 1000 {
        seq![hundreds, tens, ones]
    } else if n < 10000 {
        seq![thousands, hundreds, tens, ones]
    } else {
        seq![(48 + n / 10000) as char, thousands, hundreds, tens, ones]
    }
}

/// The characters `x` and `y` are the same, or the two cases of one ASCII letter.
pub open spec fn same_letter(x: char, y: char) -> bool {
    ||| x == y
    ||| 65 <= x as int <= 90 && y as int == x as int + 32
    ||| 65 <= y as int <= 90 && x as int == y as int + 32
}

/// The texts `a` and `b` are the same but for the case of ASCII letters.
pub open spec fn same_word(a: Seq<char>, b: Seq<char>) -> bool {
    &&& a.len() == b.len()
    &&& forall|i: int| 0 <= i < a.len() ==> same_letter(#[trigger] a[i], b[i])
}

/// A number is written with the digits of its decimal places.
pub proof fn law_decimal_places(n: u16)
    ensures
        decimal(n as nat) == digits_of(n as int),
{
    reveal_with_fuel(decimal, 5);
}

/// `decimal_string` writes the decimal places of its argument.
pub proof fn law_decimal_string(n: u16, s: String)
    ensures
        call_requires(decimal_string, (n,)),
        call_ensures(decimal_string, (n,), s) ==> s@ == digits_of(n as int),
{
    law_decimal_places(n);
}

/// Texts are the same in lower case if they are the same but for letter case.
pub proof fn law_same_word(a: Seq<char>, b: Seq<char>)
    ensures
        crate::text::same_ignoring_case(a, b) <==> same_word(a, b),
{
    assert(forall|x: char, y: char|
        crate::text::lower(x) == crate::text::lower(y) <==> #[trigger] same_letter(x, y));
    if crate::text::same_ignoring_case(a, b) {
        assert forall|i: int| 0 <= i < a.len() implies same_letter(#[trigger] a[i], b[i]) by {
            assert(crate::text::lower(a[i]) == crate::text::lower(b[i]));
        }
    }
    if same_word(a, b) {
        assert forall|i: int| 0 <= i < a.len() implies crate::text::lower(#[trigger] a[i])
            == crate::text::lower(b[i]) by {
            assert(same_letter(a[i], b[i]));
        }
    }
}

/// `eq_ignoring_case` tells whether two texts are the same but for letter case.
pub proof fn law_eq_ignoring_case(a: &str, b: &str, same: bool)
    ensures
        call_requires(eq_ignoring_case, (a, b)),
        call_ensures(eq_ignoring_case, (a, b), same) ==> same == same_word(a@, b@),
{
    law_same_word(a@, b@);
}

/// `chars_of` gives the characters of a text.
pub proof fn law_chars_of(s: &str, chars: Vec<char>)
    ensures
        call_requires(chars_of, (s,)),
        call_ensures(chars_of, (s,), chars) ==> chars@ == s@,
{
}

// Requests and responses

/// The request names a preferred media type, and it is `application/json`.
pub open spec fn asks_for_json(req: Request) -> bool {
    req.accept matches Some(accept) && same_word(accept.preferred.top@, "application"@)
        && same_word(accept.preferred.sub@, "json"@)
}

/// A request prefers JSON if and only if the media type that it prefers is
/// `application/json`; with any other, or with none, it does not.
pub proof fn law_prefers_json(req: Request)
    ensures
        req.prefers_json() <==> asks_for_json(req),
{
    if let Some(accept) = req.accept {
        law_same_word(accept.preferred.top@, "application"@);
        law_same_word(accept.preferred.sub@, "json"@);
    }
}

/// `MediaType::is_json` tells `application/json` from every other media type.
pub proof fn law_is_json(media: MediaType, b: bool)
    ensures
        call_requires(MediaType::is_json, (&media,)),
        call_ensures(MediaType::is_json, (&media,), b) ==> b == (same_word(
            media.top@,
            "application"@,
        ) && same_word(media.sub@, "json"@)),
{
    law_same_word(media.top@, "application"@);
    law_same_word(media.sub@, "json"@);
}

/// `MediaType::new` keeps both names as they are.
pub proof fn law_media_type_new(top: &str, sub: &str, media: MediaType)
    ensures
        call_requires(MediaType::new, (top, sub)),
        call_ensures(MediaType::new, (top, sub), media) ==> media.top@ == top@ && media.sub@
            == sub@,
{
}

/// `Status::new` keeps the code.
pub proof fn law_status_new(code: u16, status: Status)
    ensures
        call_requires(Status::new, (code,)),
        call_ensures(Status::new, (code,), status) ==> status.code == code,
{
}

/// `Accept::preferred` gives the preferred media type.
pub proof fn law_accept_preferred(accept: Accept, media: &MediaType)
    ensures
        call_requires(Accept::preferred, (&accept,)),
        call_ensures(Accept::preferred, (&accept,), media) ==> *media == accept.preferred,
{
}

/// `Request::uri` gives what was requested.
pub proof fn law_request_uri(req: Request, uri: &Origin)
    ensures
        call_requires(Request::uri, (&req,)),
        call_ensures(Request::uri, (&req,), uri) ==> *uri == req.uri,
{
}

/// `Request::accept` gives the `Accept` header, if there is one.
pub proof fn law_request_accept(req: Request, accept: Option<&Accept>)
    ensures
        call_requires(Request::accept, (&req,)),
        call_ensures(Request::accept, (&req,), accept) ==> {
            &&& accept is Some <==> req.accept is Some
            &&& accept matches Some(a) ==> *a == req.accept->0
        },
{
}

/// `Response::new` gives an empty response with status 200.
pub proof fn law_response_new(r: Response)
    ensures
        call_requires(Response::new, ()),
        call_ensures(Response::new, (), r) ==> r.status.code == 200 && r.content_type is None
            && r.body is None,
{
}

/// `Response::set_sized_body` sets the body and its announced length, and
/// leaves the rest.
pub proof fn law_set_sized_body(r: &mut Response, size: usize, data: String)
    ensures
        call_requires(Response::set_sized_body, (r, size, data)),
        call_ensures(Response::set_sized_body, (r, size, data), ()) ==> {
            &&& final(r).status == old(r).status
            &&& final(r).content_type == old(r).content_type
            &&& final(r).body is Some
            &&& final(r).body->0.size == size
            &&& final(r).body->0.data@ == data@
        },
{
}

// The built-in answer

/// The HTML page with these parts.
pub open spec fn html_text(code: Seq<char>, reason: Seq<char>, description: Seq<char>) -> Seq<
    char,
> {
    r#"<!DOCTYPE html>
<html lang="en">
<head>
    <meta charset="utf-8">
    <title>"#@ + code + " "@ + reason + r#"</title>
</head>
<body align="center">
    <div role="main" align="center">
        <h1>"#@ + code + ": "@ + reason + r#"</h1>
        <p>"#@ + description + r#"</p>
        <hr />
    </div>
    <div role="contentinfo" align="center">
        <small>Rocket</small>
    </div>
</body>
</html>"#@
}

/// The JSON object with these parts.
pub open spec fn json_text(code: Seq<char>, reason: Seq<char>, description: Seq<char>) -> Seq<
    char,
> {
    r#"{
  "error": {
    "code": "#@ + code + r#",
    "reason": ""#@ + reason + r#"",
    "description": ""#@ + description + r#""
  }
}"#@
}

/// `html_error` writes the page with the digits of the code and with what
/// `describe` says of it.
pub proof fn law_html_error(code: u16, text: (&'static str, &'static str), page: String)
    ensures
        call_requires(html_error, (code,)),
        call_ensures(describe, (code,), text) && call_ensures(html_error, (code,), page) ==> page@
            == html_text(digits_of(code as int), text.0@, text.1@),
{
    law_decimal_places(code);
}

/// `json_error` writes the object with the digits of the code and with what
/// `describe` says of it.
pub proof fn law_json_error(code: u16, text: (&'static str, &'static str), object: String)
    ensures
        call_requires(json_error, (code,)),
        call_ensures(describe, (code,), text) && call_ensures(json_error, (code,), object)
            ==> object@ == json_text(digits_of(code as int), text.0@, text.1@),
{
    law_decimal_places(code);
}

/// `response` answers an error with `status`, of which `describe` says `text`,
/// in the form that the request asks for.
pub open spec fn answers_error(
    status: Status,
    req: Request,
    text: (&'static str, &'static str),
    response: Response,
) -> bool {
    let digits = digits_of(status.code as int);
    &&& response.status.code == status.code
    &&& response.body matches Some(body) && body.size == encode_utf8(body.data@).len() && body.data@
        == if asks_for_json(req) {
        json_text(digits, text.0@, text.1@)
    } else {
        html_text(digits, text.0@, text.1@)
    }
    &&& asks_for_json(req) ==> response.content_type == Some(ContentType::JSON)
    &&& !asks_for_json(req) ==> response.content_type == Some(ContentType::HTML)
}

/// `default` answers every error with its own status, and describes that
/// status in JSON if the request asks for it, else in HTML.
pub proof fn law_default(
    status: Status,
    req: Request,
    text: (&'static str, &'static str),
    response: Response,
)
    ensures
        call_requires(crate::builtin::default, (status, &req)),
        call_ensures(describe, (status.code,), text) && call_ensures(
            crate::builtin::default,
            (status, &req),
            response,
        ) ==> answers_error(status, req, text, response),
{
    law_decimal_places(status.code);
    law_prefers_json(req);
}

/// The built-in handler can be called with every error, never fails, and
/// answers as `default` does.
pub proof fn law_default_handler(
    handler: DefaultHandler,
    status: Status,
    req: Request,
    text: (&'static str, &'static str),
    answer: Result<Response, Status>,
)
    ensures
        handler.accepts(status, req),
        call_requires(<DefaultHandler as ErrorHandler>::handle, (&handler, status, &req)),
        call_ensures(describe, (status.code,), text) && call_ensures(
            <DefaultHandler as ErrorHandler>::handle,
            (&handler, status, &req),
            answer,
        ) ==> answer is Ok && answers_error(status, req, text, answer->Ok_0),
        call_ensures(describe, (status.code,), text) && handler.answers(status, req, answer)
            ==> answer is Ok && answers_error(status, req, text, answer->Ok_0),
{
    law_decimal_places(status.code);
    law_prefers_json(req);
}

// Handlers

/// A function that is a handler is called with the very status and request
/// that the handler is given, and its result is the answer.
pub proof fn law_function_handler<F>(
    f: F,
    status: Status,
    req: Request,
    answer: Result<Response, Status>,
) where F: Clone + Sync + Send + 'static + Fn(Status, &Request) -> Result<Response, Status>
    ensures
        f.accepts(status, req) <==> call_requires(f, (status, &req)),
        f.answers(status, req, answer) ==> call_ensures(f, (status, &req), answer),
        call_requires(f, (status, &req)) ==> call_requires(
            <F as ErrorHandler>::handle,
            (&f, status, &req),
        ),
        call_ensures(<F as ErrorHandler>::handle, (&f, status, &req), answer) ==> call_ensures(
            f,
            (status, &req),
            answer,
        ),
{
}

/// `clone_handler` puts what the handler's own `clone` gives into a box.
pub proof fn law_clone_handler<T: ErrorHandler>(handler: T, boxed: Box<T>)
    ensures
        call_requires(<T as Cloneable>::clone_handler, (&handler,)),
        call_ensures(<T as Cloneable>::clone_handler, (&handler,), boxed) ==> call_ensures(
            T::clone,
            (&handler,),
            *boxed,
        ),
{
}

// Origin URIs

/// A character that stands for itself in an origin URI, by its code: a letter,
/// a digit, or one of `! $ & ' ( ) * + , - . / : ; = ? @ _ ~`.
pub open spec fn is_uri_code(c: int) -> bool {
    ||| 97 <= c <= 122
    ||| 65 <= c <= 90
    ||| 48 <= c <= 57
    ||| c == 33 || c == 36 || 38 <= c <= 47 || c == 58 || c == 59 || c == 61 || c == 63 || c == 64
    ||| c == 95 || c == 126
}

/// A hexadecimal digit, by its code.
pub open spec fn is_hex_code(c: int) -> bool {
    48 <= c <= 57 || 65 <= c <= 70 || 97 <= c <= 102
}

/// `text` is that of an origin URI: it starts with a slash, and each character
/// stands for itself or is a percent sign with two hexadecimal digits behind it.
pub open spec fn is_uri_text(text: Seq<char>) -> bool {
    &&& text.len() > 0
    &&& text[0] as int == 47
    &&& forall|i: int|
        #![trigger text[i]]
        0 <= i < text.len() ==> is_uri_code(text[i] as int) || (text[i] as int == 37 && i + 2
            < text.len() && is_hex_code(text[i + 1] as int) && is_hex_code(text[i + 2] as int))
}

/// `path` has no two slashes in a row, and none at its end unless it is `/`.
pub open spec fn is_plain_path(path: Seq<char>) -> bool {
    ||| path == seq!['/']
    ||| {
        &&& path.len() > 0
        &&& path[path.len() - 1] as int != 47
        &&& forall|i: int|
            #![trigger path[i]]
            0 <= i < path.len() - 1 && path[i] as int == 47 ==> path[i + 1] as int != 47
    }
}

/// The texts of origin URIs are those that can be parsed.
pub proof fn law_uri_text(text: Seq<char>)
    ensures
        crate::uri::parsed(text) is Some <==> is_uri_text(text),
{
    crate::uri::law_parsed_iff(text);
    if crate::uri::parsed(text) is Some {
        assert forall|i: int|
            #![trigger text[i]]
            0 <= i < text.len() implies is_uri_code(text[i] as int) || (text[i] as int == 37 && i
            + 2 < text.len() && is_hex_code(text[i + 1] as int) && is_hex_code(
            text[i + 2] as int,
        )) by {
            if text[i] == '%' {
                assert(crate::uri::is_hex(text[i + 1]));
            }
        }
    }
}

/// `Origin::new` takes the path and the query as they are.
pub proof fn law_origin_new(path: &str, query: Option<&str>, o: Origin)
    ensures
        call_requires(Origin::new, (path, query)),
        call_ensures(Origin::new, (path, query), o) ==> {
            &&& o.path@ == path@
            &&& o.query is Some <==> query is Some
            &&& query is Some ==> o.query->0@ == query->0@
        },
{
    if call_ensures(Origin::new, (path, query), o) {
        assert(o@.path == path@);
    }
}

/// `Origin::path` and `Origin::query` give the two parts.
pub proof fn law_origin_parts(o: Origin, path: &str, query: Option<&str>)
    ensures
        call_requires(Origin::path, (&o,)),
        call_ensures(Origin::path, (&o,), path) ==> path@ == o.path@,
        call_requires(Origin::query, (&o,)),
        call_ensures(Origin::query, (&o,), query) ==> {
            &&& query is Some <==> o.query is Some
            &&& query is Some ==> query->0@ == o.query->0@
        },
{
}

/// `Origin::is_root` tells whether the path is a single slash.
pub proof fn law_origin_is_root(o: Origin, b: bool)
    ensures
        call_requires(Origin::is_root, (&o,)),
        call_ensures(Origin::is_root, (&o,), b) ==> b == (o.path@.len() == 1 && o.path@[0] as int
            == 47),
{
    assert(o.path@.len() == 1 && o.path@[0] == '/' ==> o.path@ =~= seq!['/']);
}

/// `Origin::to_string` writes the path and, behind a question mark, the query.
pub proof fn law_origin_to_string(o: Origin, s: String)
    ensures
        call_requires(Origin::to_string, (&o,)),
        call_ensures(Origin::to_string, (&o,), s) && o.query is None ==> s@ == o.path@,
        call_ensures(Origin::to_string, (&o,), s) && o.query is Some ==> s@ == o.path@ + seq!['?']
            + o.query->0@,
{
    assert(o.query is Some ==> o.path@.push('?') + o.query->0@ =~= o.path@ + seq!['?']
        + o.query->0@);
}

/// A clone of an origin URI is equal to it.
pub proof fn law_origin_clone(o: Origin, c: Origin)
    ensures
        call_requires(<Origin as Clone>::clone, (&o,)),
        call_ensures(<Origin as Clone>::clone, (&o,), c) ==> c == o,
{
}

/// `Origin::clear_query` drops the query and leaves the path.
pub proof fn law_origin_clear_query(o: &mut Origin)
    ensures
        call_requires(Origin::clear_query, (o,)),
        call_ensures(Origin::clear_query, (o,), ()) ==> final(o).query is None && final(o).path@
            == old(o).path@,
{
}

/// `Origin::parse_owned` accepts the texts of origin URIs and no others, and
/// cuts them at the first question mark.
pub proof fn law_parse_owned(text: String, r: Result<Origin, Error>)
    ensures
        call_requires(Origin::parse_owned, (text,)),
        call_ensures(Origin::parse_owned, (text,), r) ==> {
            &&& r is Ok <==> is_uri_text(text@)
            &&& r matches Ok(o) ==> {
                &&& forall|i: int| 0 <= i < o.path@.len() ==> #[trigger] o.path@[i] as int != 63
                &&& o.query is None ==> text@ == o.path@
                &&& o.query is Some ==> text@ == o.path@ + seq!['?'] + o.query->0@
            }
        },
{
    law_uri_text(text@);
    if call_ensures(Origin::parse_owned, (text,), r) && r is Ok {
        let o = r->Ok_0;
        crate::uri::law_parsed_parts(text@);
        assert(o@.query is Some ==> o.path@.push('?') + o@.query->0 =~= o.path@ + seq!['?']
            + o@.query->0);
    }
}

/// `Origin::into_normalized` leaves a plain path and every query as they are.
pub proof fn law_normalize_keeps(o: Origin, n: Origin)
    requires
        call_ensures(Origin::into_normalized, (o,), n),
    ensures
        call_requires(Origin::into_normalized, (o,)),
        is_plain_path(o.path@) ==> n.path@ == o.path@,
        n.query is Some <==> o.query is Some,
        n.query is Some ==> n.query->0@ == o.query->0@,
{
    if is_plain_path(o.path@) {
        crate::uri::law_plain_unchanged(o.path@);
    }
    assert(n@.path == crate::uri::normalized(o.path@));
    assert(n@.query == o@.query);
}

/// `Origin::into_normalized` takes two slashes in a row for one.
pub proof fn law_normalize_double_slash(
    a: Seq<char>,
    b: Seq<char>,
    two: Origin,
    two_normal: Origin,
    one: Origin,
    one_normal: Origin,
)
    requires
        two.path@ == a + seq!['/', '/'] + b,
        one.path@ == a + seq!['/'] + b,
        call_ensures(Origin::into_normalized, (two,), two_normal),
        call_ensures(Origin::into_normalized, (one,), one_normal),
    ensures
        two_normal.path@ == one_normal.path@,
{
    crate::uri::law_double_slash(a, b);
    assert(two_normal@.path == one_normal@.path);
}

/// `Origin::into_normalized` drops a slash at the end.
pub proof fn law_normalize_last_slash(
    long: Origin,
    long_normal: Origin,
    short: Origin,
    short_normal: Origin,
)
    requires
        long.path@ == short.path@ + seq!['/'],
        call_ensures(Origin::into_normalized, (long,), long_normal),
        call_ensures(Origin::into_normalized, (short,), short_normal),
    ensures
        long_normal.path@ == short_normal.path@,
{
    assert(long.path@ =~= short.path@.push('/'));
    crate::uri::law_last_slash(short.path@);
    assert(long_normal@.path == short_normal@.path);
}

// Bases

/// `base` is what the text of a base gives: an error if the text is not that
/// of an origin URI; else a path without a query, which is the text itself
/// where that is a plain path.
pub open spec fn is_base_of(text: Seq<char>, base: Result<Origin, Error>) -> bool {
    &&& base is Ok <==> is_uri_text(text)
    &&& base matches Ok(o) ==> {
        &&& o.query is None
        &&& is_plain_path(text) && (forall|i: int|
            0 <= i < text.len() ==> #[trigger] text[i] as int != 63) ==> o.path@ == text
    }
}

/// Every text of an origin URI stands for a base, and no other text does.
pub proof fn law_base_of_uri_text(text: Seq<char>)
    ensures
        crate::catcher::base_of(text) is Some <==> is_uri_text(text),
{
    law_uri_text(text);
}

/// A slash, then slashes and characters that stand for themselves, but no
/// question mark: such a text stands for a base.
pub proof fn law_base_of_plain_text(text: Seq<char>)
    requires
        text.len() > 0,
        text[0] as int == 47,
        forall|i: int|
            0 <= i < text.len() ==> is_uri_code(#[trigger] text[i] as int) && text[i] as int != 63,
    ensures
        crate::catcher::base_of(text) is Some,
        is_plain_path(text) ==> crate::catcher::base_of(text)->0.path == text,
{
    law_uri_text(text);
    crate::uri::law_parsed_parts(text);
    assert(crate::uri::parsed(text)->0.path =~= text);
    if is_plain_path(text) {
        crate::uri::law_plain_unchanged(text);
    }
}

/// `parse_base` accepts the texts of origin URIs and no others, drops the
/// query, and leaves a plain path as it is.
pub proof fn law_parse_base(text: String, base: Result<Origin, Error>)
    ensures
        call_requires(parse_base, (text,)),
        call_ensures(parse_base, (text,), base) ==> is_base_of(text@, base),
{
    law_uri_text(text@);
    if call_ensures(parse_base, (text,), base) && base is Ok {
        lemma_base(text@, base->Ok_0);
    }
}

proof fn lemma_base(text: Seq<char>, o: Origin)
    requires
        crate::catcher::base_of(text) == Some(o@),
    ensures
        is_base_of(text, Ok(o)),
{
    law_uri_text(text);
    crate::uri::law_parsed_parts(text);
    let path = crate::uri::parsed(text)->0.path;
    assert(o@.path == crate::uri::normalized(path));
    assert(o@.query is None);
    if is_plain_path(text) && (forall|i: int|
        0 <= i < text.len() ==> #[trigger] text[i] as int != 63) {
        assert(path =~= text) by {
            if path.len() < text.len() {
                assert(text[path.len() as int] as int == 63);
            }
        }
        crate::uri::law_plain_unchanged(text);
    }
}

/// `parse_base` ignores a query.
pub proof fn law_parse_base_query(
    text: String,
    base: Origin,
    query: Seq<char>,
    longer: String,
    same: Origin,
)
    requires
        longer@ == text@ + seq!['?'] + query,
        call_ensures(parse_base, (text,), Ok(base)),
        call_ensures(parse_base, (longer,), Ok(same)),
    ensures
        same.path@ == base.path@,
{
    assert(longer@ =~= text@.push('?') + query);
    crate::uri::law_query_leaves_path(text@, query);
    assert(same@.path == base@.path);
}

/// `parse_base` takes two slashes in a row for one.
pub proof fn law_parse_base_double_slash(
    a: Seq<char>,
    b: Seq<char>,
    two: String,
    two_base: Origin,
    one: String,
    one_base: Origin,
)
    requires
        two@ == a + seq!['/', '/'] + b,
        one@ == a + seq!['/'] + b,
        call_ensures(parse_base, (two,), Ok(two_base)),
        call_ensures(parse_base, (one,), Ok(one_base)),
    ensures
        two_base.path@ == one_base.path@,
{
    let s = two@;
    let t = one@;
    crate::uri::law_parsed_parts(s);
    crate::uri::law_parsed_parts(t);
    let p = crate::uri::parsed(s)->0.path;
    let q = crate::uri::parsed(t)->0.path;
    let n = a.len() as int;
    assert(s[n] == '/' && s[n + 1] == '/' && t[n] == '/');
    assert forall|i: int| n + 1 <= i < t.len() implies #[trigger] t[i] == s[i + 1] by {}
    if p.len() <= n {
        assert(t[p.len() as int] == s[p.len() as int]);
        if q.len() < p.len() {
            assert(s[q.len() as int] == t[q.len() as int]);
        }
        assert(p =~= q);
    } else {
        let k = p.len() - n - 2;
        assert(k >= 0) by {
            if p.len() < s.len() {
                assert(s[p.len() as int] == '?');
            }
        }
        if q.len() < p.len() - 1 {
            if q.len() < n {
                assert(s[q.len() as int] == t[q.len() as int]);
            } else {
                assert(t[q.len() as int] == '?');
                assert(t[q.len() as int] == s[q.len() as int + 1]);
            }
        }
        if q.len() > p.len() - 1 {
            assert(t[p.len() - 1] == s[p.len() as int]);
        }
        assert(p =~= a + seq!['/', '/'] + b.take(k));
        assert(q =~= a + seq!['/'] + b.take(k));
        crate::uri::law_double_slash(a, b.take(k));
    }
    assert(two_base@.path == one_base@.path);
}

/// `parse_base` drops a slash at the end of the path.
pub proof fn law_parse_base_last_slash(
    long: String,
    long_base: Origin,
    short: String,
    short_base: Origin,
)
    requires
        long@ == short@ + seq!['/'],
        forall|i: int| 0 <= i < short@.len() ==> #[trigger] short@[i] as int != 63,
        call_ensures(parse_base, (long,), Ok(long_base)),
        call_ensures(parse_base, (short,), Ok(short_base)),
    ensures
        long_base.path@ == short_base.path@,
{
    let s = long@;
    let t = short@;
    assert(s =~= t.push('/'));
    crate::uri::law_parsed_parts(s);
    crate::uri::law_parsed_parts(t);
    let p = crate::uri::parsed(s)->0.path;
    let q = crate::uri::parsed(t)->0.path;
    if q.len() < t.len() {
        assert(t[q.len() as int] as int == 63);
    }
    if p.len() < s.len() {
        assert(s[p.len() as int] == '?');
        if p.len() < t.len() {
            assert(t[p.len() as int] as int == 63);
        }
    }
    assert(p =~= s);
    assert(q =~= t);
    crate::uri::law_last_slash(t);
    assert(long_base@.path == short_base@.path);
}

// Catchers

/// `Catcher::new` takes every code in `[400, 600)`, and keeps it and the
/// handler; the catcher has no name and is mounted at `/`.
pub proof fn law_catcher_new<H: ErrorHandler>(code: u16, handler: H, c: Catcher<H>)
    ensures
        400 <= code < 600 ==> call_requires(Catcher::<H>::new::<u16>, (code, handler)),
        call_ensures(Catcher::<H>::new::<u16>, (code, handler), c) ==> {
            &&& c.name is None
            &&& c.base.path@ == seq!['/']
            &&& c.base.query is None
            &&& c.code == Some(code)
            &&& c.handler == handler
        },
{
    if call_ensures(Catcher::<H>::new::<u16>, (code, handler), c) {
        assert(c.base@.query is None);
    }
}

/// `Catcher::new` takes an optional code too; without one, the catcher is a
/// default one.
pub proof fn law_catcher_new_optional<H: ErrorHandler>(
    code: Option<u16>,
    handler: H,
    c: Catcher<H>,
)
    ensures
        (code matches Some(k) ==> 400 <= k < 600) ==> call_requires(
            Catcher::<H>::new::<Option<u16>>,
            (code, handler),
        ),
        call_ensures(Catcher::<H>::new::<Option<u16>>, (code, handler), c) ==> {
            &&& c.name is None
            &&& c.base.path@ == seq!['/']
            &&& c.base.query is None
            &&& c.code == code
            &&& c.handler == handler
        },
{
    if call_ensures(Catcher::<H>::new::<Option<u16>>, (code, handler), c) {
        assert(c.base@.query is None);
    }
}

/// `Catcher::from` keeps the name, the code and the handler; the catcher is
/// mounted at `/`.
pub proof fn law_catcher_from<H: ErrorHandler>(info: StaticCatcherInfo<H>, c: Catcher<H>)
    ensures
        (info.code matches Some(k) ==> 400 <= k < 600) ==> call_requires(
            Catcher::<H>::from,
            (info,),
        ),
        call_ensures(Catcher::<H>::from, (info,), c) ==> {
            &&& c.name is Some
            &&& c.name->0@ == info.name@
            &&& c.base.path@ == seq!['/']
            &&& c.base.query is None
            &&& c.code == info.code
            &&& c.handler == info.handler
        },
{
    if call_ensures(Catcher::<H>::from, (info,), c) {
        assert(c.base@.query is None);
    }
}

/// The built-in catcher is called `<Rocket Catcher>`, is mounted at `/` and
/// has no code.
pub proof fn law_builtin_catcher(c: Catcher<DefaultHandler>)
    ensures
        call_requires(<Catcher<DefaultHandler> as Default>::default, ()),
        call_ensures(<Catcher<DefaultHandler> as Default>::default, (), c) ==> {
            &&& c.name is Some
            &&& c.name->0@ == "<Rocket Catcher>"@
            &&& c.base.path@ == seq!['/']
            &&& c.base.query is None
            &&& c.code is None
        },
{
    if call_ensures(<Catcher<DefaultHandler> as Default>::default, (), c) {
        assert(c.base@.query is None);
    }
}

/// A clone of a catcher has its name, base and code, and a clone of its handler.
pub proof fn law_catcher_clone<H: ErrorHandler>(c: Catcher<H>, d: Catcher<H>)
    ensures
        call_requires(<Catcher<H> as Clone>::clone, (&c,)),
        call_ensures(<Catcher<H> as Clone>::clone, (&c,), d) ==> {
            &&& d.name == c.name
            &&& d.base == c.base
            &&& d.code == c.code
            &&& call_ensures(H::clone, (&c.handler,), d.handler)
        },
{
}

/// `Catcher::map_base` can be called if the mapper can. The mapper is given
/// the current base, and the text that it returns decides as it does for
/// `parse_base`; the name, the code and the handler stay.
pub proof fn law_map_base<H: ErrorHandler, F: FnOnce(Origin) -> String>(
    c: Catcher<H>,
    mapper: F,
    result: Result<Catcher<H>, Error>,
)
    ensures
        call_requires(mapper, (c.base,)) ==> call_requires(
            Catcher::<H>::map_base::<F>,
            (c, mapper),
        ),
        call_ensures(Catcher::<H>::map_base::<F>, (c, mapper), result) ==> exists|text: String|
            #[trigger] call_ensures(mapper, (c.base,), text) && is_mapped(c, text, result),
{
    if call_ensures(Catcher::<H>::map_base::<F>, (c, mapper), result) {
        let text = choose|text: String| #[trigger]
            call_ensures(mapper, (c.base,), text) && c.moved_to(text@, result);
        law_uri_text(text@);
        if let Ok(d) = result {
            lemma_base(text@, d.base);
            assert forall|base: Origin| #[trigger]
                call_ensures(parse_base, (text,), Ok(base)) implies base.path@
                == d.base.path@ by {
                assert(base@.path == d.base@.path);
            }
        }
        assert(is_mapped(c, text, result));
    }
}

/// `result` is `c` with the base that `text` stands for.
pub open spec fn is_mapped<H>(c: Catcher<H>, text: String, result: Result<Catcher<H>, Error>) -> bool {
    match result {
        Err(e) => is_base_of(text@, Err(e)),
        Ok(d) => {
            &&& is_base_of(text@, Ok(d.base))
            &&& forall|base: Origin| #[trigger]
                call_ensures(parse_base, (text,), Ok(base)) ==> base.path@ == d.base.path@
            &&& d.name == c.name
            &&& d.code == c.code
            &&& d.handler == c.handler
        },
    }
}

// Lines

/// `text` behind the escape sequence `start` and before the one that ends it,
/// or `text` alone.
pub open spec fn tinted(start: Seq<char>, text: Seq<char>, on: bool) -> Seq<char> {
    if on {
        start + text + "\x1B[0m"@
    } else {
        text
    }
}

/// The line for a catcher with this name, path and code: the name in
/// parentheses, if there is one; the path, unless it is `/`; and the code, or
/// `default`; with a space between any two. Each flag colors one part.
pub open spec fn line_of(
    name: Option<Cow<'static, str>>,
    path: Seq<char>,
    code: Option<u16>,
    on: (bool, bool, bool, bool, bool),
) -> Seq<char> {
    let first = match name {
        None => seq![],
        Some(n) => tinted("\x1B[36m"@, "("@, on.0) + tinted("\x1B[37m"@, n@, on.1) + tinted(
            "\x1B[36m"@,
            ")"@,
            on.2,
        ) + " "@,
    };
    let second = if path.len() == 1 && path[0] as int == 47 {
        seq![]
    } else {
        tinted("\x1B[32m"@, path, on.3) + " "@
    };
    let third = match code {
        None => tinted("\x1B[34m"@, "default"@, on.4),
        Some(k) => tinted("\x1B[34m"@, digits_of(k as int), on.4),
    };
    first + second + third
}

/// What is shown of a catcher is its name, its path and its code, in a line.
pub proof fn law_shown_line<H>(c: Catcher<H>, on: (bool, bool, bool, bool, bool))
    ensures
        c.shown(on.0, on.1, on.2, on.3, on.4) == line_of(c.name, c.base.path@, c.code, on),
{
    let path = c.base.path@;
    assert(path.len() == 1 && path[0] == '/' ==> path =~= seq!['/']);
    if let Some(k) = c.code {
        law_decimal_places(k);
    }
}

/// `Catcher::to_string` writes that line, each part in color or not.
pub proof fn law_catcher_to_string<H: ErrorHandler>(c: Catcher<H>, line: String)
    ensures
        call_requires(Catcher::<H>::to_string, (&c,)),
        call_ensures(Catcher::<H>::to_string, (&c,), line) ==> exists|
            on: (bool, bool, bool, bool, bool),
        |
            line@ == #[trigger] line_of(c.name, c.base.path@, c.code, on),
{
    if call_ensures(Catcher::<H>::to_string, (&c,), line) {
        let (o, n, z, b, k) = choose|o: bool, n: bool, z: bool, b: bool, k: bool|
            line@ == #[trigger] c.shown(o, n, z, b, k);
        law_shown_line(c, (o, n, z, b, k));
        assert(line@ == line_of(c.name, c.base.path@, c.code, (o, n, z, b, k)));
    }
}

/// Two catchers with the same name and code that are shown alike without
/// colors have the same path.
pub proof fn law_line_determines_path<G, H>(a: Catcher<G>, b: Catcher<H>)
    requires
        a.name == b.name,
        a.code == b.code,
        a.shown(false, false, false, false, false) == b.shown(false, false, false, false, false),
    ensures
        a.base.path@ == b.base.path@,
{
    let off = (false, false, false, false, false);
    law_shown_line(a, off);
    law_shown_line(b, off);
    reveal_strlit(" ");
    let p = a.base.path@;
    let q = b.base.path@;
    let first = match a.name {
        None => seq![],
        Some(n) => "("@ + n@ + ")"@ + " "@,
    };
    let third = match a.code {
        None => "default"@,
        Some(k) => digits_of(k as int),
    };
    let x = if p.len() == 1 && p[0] as int == 47 {
        seq![]
    } else {
        p + " "@
    };
    let y = if q.len() == 1 && q[0] as int == 47 {
        seq![]
    } else {
        q + " "@
    };
    lemma_middle(first, x, y, third);
    if x.len() == 0 {
        assert(p =~= q);
    } else {
        assert(p =~= x.drop_last());
        assert(q =~= y.drop_last());
    }
}

proof fn lemma_middle(a: Seq<char>, x: Seq<char>, y: Seq<char>, b: Seq<char>)
    requires
        a + x + b == a + y + b,
    ensures
        x == y,
{
    let s = a + x + b;
    let n = a.len() as int;
    assert((a + x + b).len() == (a + y + b).len());
    assert(x =~= s.subrange(n, n + x.len()));
    assert(y =~= s.subrange(n, n + y.len()));
}

/// `enclose` puts its arguments one behind the other.
pub proof fn law_enclose(open: String, name: String, close: String, s: String)
    ensures
        call_requires(enclose, (open, name, close)),
        call_ensures(enclose, (open, name, close), s) ==> s@ == open@ + name@ + close@,
{
}

/// `compose` puts its arguments one behind the other, with a space between.
pub proof fn law_compose(name: Option<String>, base: Option<String>, code: String, s: String)
    ensures
        call_requires(compose, (name, base, code)),
        call_ensures(compose, (name, base, code), s) ==> {
            &&& name is None && base is None ==> s@ == code@
            &&& name is None && base is Some ==> s@ == base->0@ + " "@ + code@
            &&& name is Some && base is None ==> s@ == name->0@ + " "@ + code@
            &&& name is Some && base is Some ==> s@ == name->0@ + " "@ + base->0@ + " "@ + code@
        },
{
    let none = Seq::<char>::empty();
    if call_ensures(compose, (name, base, code), s) {
        assert(none + none + code@ =~= code@);
        if let Some(n) = name {
            assert((n@ + " "@) + none + code@ =~= n@ + " "@ + code@);
        }
        if let Some(b) = base {
            assert(none + (b@ + " "@) + code@ =~= b@ + " "@ + code@);
        }
        if name is Some && base is Some {
            let n = name->0@;
            let b = base->0@;
            assert((n + " "@) + (b + " "@) + code@ =~= n + " "@ + b + " "@ + code@);
        }
    }
}

} // verus!
