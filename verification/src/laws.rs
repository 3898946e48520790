//! What holds of catchers as a whole.

use crate::catcher::{base_of, composed, is_error_code, Catcher};
use crate::handler::{DefaultHandler, ErrorHandler};
use crate::http::{ContentType, Request, Response, Status};
use crate::operations::{asks_for_json, digits_of, law_decimal_places, law_prefers_json};
use crate::paint::{
    law_painting_is_invisible, law_plain_text_is_visible, no_escape, painted, visible, Color,
};
use crate::text::law_decimal_is_digits;
use crate::uri::{is_hex, is_normalized, is_path, is_query, parsed, root, OriginView};
use vstd::prelude::*;

verus! {

/// A base is always a valid origin URI, normalized and without a query.
pub proof fn law_base_is_well_formed(text: Seq<char>)
    ensures
        base_of(text) matches Some(b) ==> b.valid() && is_normalized(b.path) && b.query is None,
{
    if let Some(o) = crate::uri::parsed(text) {
        crate::uri::law_normalized_valid(o.path);
        crate::uri::law_normalized_has_no_empty_segment(o.path);
    }
}

/// A text is a base if and only if it is that of a valid origin URI.
pub proof fn law_base_of_valid_text(text: Seq<char>)
    ensures
        base_of(text) is Some <==> exists|o: OriginView| #[trigger] o.valid() && o.text() == text,
{
}

/// The base that a valid path stands for is that path, normalized; so it has
/// the same segments, save the empty ones.
pub proof fn law_base_of_path(path: Seq<char>)
    requires
        is_path(path),
    ensures
        base_of(path) == Some(
            OriginView { path: crate::uri::normalized(path), query: None },
        ),
        crate::uri::segments(base_of(path)->0.path) == crate::uri::segments(path),
{
    crate::uri::law_parsed_text(OriginView { path, query: None });
    crate::uri::law_normalized_keeps_segments(path);
}

/// A query in the text of a base is ignored, also one behind another query.
pub proof fn law_query_is_ignored(text: Seq<char>, query: Seq<char>)
    requires
        parsed(text) is Some,
        parsed(text.push('?') + query) is Some,
    ensures
        base_of(text.push('?') + query) == base_of(text),
{
    crate::uri::law_query_leaves_path(text, query);
}

/// A query can stand behind the text of any base.
pub proof fn law_query_can_follow(text: Seq<char>, query: Seq<char>)
    requires
        parsed(text) is Some,
        is_query(query),
    ensures
        parsed(text.push('?') + query) is Some,
{
    let o = parsed(text)->0;
    let s = text.push('?') + query;
    match o.query {
        None => {
            crate::uri::law_parsed_text(OriginView { path: o.path, query: Some(query) });
        },
        Some(first) => {
            let both = first.push('?') + query;
            assert forall|i: int| 0 <= i < both.len() && #[trigger] both[i] == '%' implies i + 2
                < both.len() && is_hex(both[i + 1]) && is_hex(both[i + 2]) by {
                if i < first.len() {
                    assert(first[i] == '%');
                } else {
                    assert(query[i - first.len() - 1] == '%');
                }
            }
            assert(s =~= o.path.push('?') + both);
            crate::uri::law_parsed_text(OriginView { path: o.path, query: Some(both) });
        },
    }
}

/// Mapping the base of a well-formed catcher to itself changes nothing.
pub proof fn law_base_of_base<H>(c: Catcher<H>)
    requires
        c.wf(),
    ensures
        base_of(c.base@.text()) == Some(c.base@),
        c.moved_to(c.base@.text(), Ok(c)),
{
    crate::uri::law_parsed_text(c.base@);
    crate::uri::law_normalized_unchanged(c.base@.path);
}

/// Moving a catcher to another base keeps it well-formed, whatever its base was.
pub proof fn law_moving_keeps_well_formed<H>(
    c: Catcher<H>,
    text: Seq<char>,
    result: Result<Catcher<H>, crate::uri::Error>,
)
    requires
        is_error_code(c.code),
        c.moved_to(text, result),
    ensures
        result matches Ok(moved) ==> moved.wf(),
{
    law_base_is_well_formed(text);
}

/// Moving a catcher twice is moving it once, to the second base.
pub proof fn law_last_move_counts<H>(
    c: Catcher<H>,
    first: Seq<char>,
    between: Catcher<H>,
    second: Seq<char>,
    result: Result<Catcher<H>, crate::uri::Error>,
)
    requires
        c.moved_to(first, Ok(between)),
        between.moved_to(second, result),
    ensures
        c.moved_to(second, result),
{
}

/// The path `inner` mounted under the path `outer`.
pub open spec fn nested(outer: Seq<char>, inner: Seq<char>) -> Seq<char> {
    if outer == root().path {
        inner
    } else if inner == root().path {
        outer
    } else {
        outer + inner
    }
}

/// Writing one base before another nests the second under the first; `/` on
/// either side leaves the other as it is.
pub proof fn law_prefix_nests(outer: Seq<char>, inner: Seq<char>)
    requires
        is_path(outer),
        is_normalized(outer),
        is_path(inner),
        is_normalized(inner),
    ensures
        base_of(outer + inner) == Some(OriginView { path: nested(outer, inner), query: None }),
{
    crate::uri::law_concatenated_path_valid(outer, inner);
    crate::uri::law_parsed_text(OriginView { path: outer + inner, query: None });
    crate::uri::law_concatenated_path_normalized(outer, inner);
}

/// The built-in handler takes every error and answers it with the built-in
/// description: it never fails, it keeps the status, and it writes JSON if and
/// only if the client prefers that.
pub proof fn law_builtin_handles_all_errors(
    status: Status,
    req: Request,
    answer: Result<Response, Status>,
)
    ensures
        DefaultHandler.accepts(status, req),
        DefaultHandler.answers(status, req, answer) ==> {
            &&& answer is Ok
            &&& answer->Ok_0.status == status
            &&& answer->Ok_0.content_type == Some(ContentType::JSON) <==> req.prefers_json()
            &&& answer->Ok_0.content_type == Some(ContentType::HTML) <==> !req.prefers_json()
        },
{
}

/// To a client that prefers JSON, the built-in handler sends a JSON text that
/// reads as the status code, its reason phrase and its description.
pub proof fn law_builtin_json_reads_back(
    status: Status,
    req: Request,
    answer: Result<Response, Status>,
)
    requires
        req.prefers_json(),
        DefaultHandler.answers(status, req, answer),
    ensures
        answer matches Ok(response) && response.body matches Some(body) && crate::json::read(
            body.data@,
        ) == Some(crate::builtin::error_value(status.code)),
{
    crate::builtin::law_json_body_reads_back(status.code);
}

/// To every other client, the built-in handler sends a page that shows the
/// status code with its reason phrase, as title and as heading, and its
/// description in a paragraph.
pub proof fn law_builtin_html_shows(status: Status, req: Request, answer: Result<Response, Status>)
    requires
        !asks_for_json(req),
        DefaultHandler.answers(status, req, answer),
    ensures
        answer is Ok,
        answer->Ok_0.body is Some,
        ({
            let page = answer->Ok_0.body->0.data@;
            let digits = digits_of(status.code as int);
            let why = crate::builtin::reason(status.code);
            &&& exists|a: Seq<char>, z: Seq<char>|
                page == #[trigger] (a + ("<title>"@ + digits + " "@ + why + "</title>"@) + z)
            &&& exists|a: Seq<char>, z: Seq<char>|
                page == #[trigger] (a + ("<h1>"@ + digits + ": "@ + why + "</h1>"@) + z)
            &&& exists|a: Seq<char>, z: Seq<char>|
                page == #[trigger] (a + ("<p>"@ + crate::builtin::description(status.code)
                    + "</p>"@) + z)
        }),
{
    law_prefers_json(req);
    law_decimal_places(status.code);
    crate::builtin::law_html_body_shows_the_same(status.code);
}

/// What follows the name in the line that shows a catcher.
spec fn shown_after_name<H>(c: Catcher<H>, base: bool, code: bool) -> Seq<char> {
    composed(None, c.shown_base(base), c.shown_code(code))
}

proof fn lemma_code_visible<H>(c: Catcher<H>, code: bool)
    ensures
        visible(c.shown_code(code), false) == c.shown_code(false),
        no_escape(c.shown_code(false)),
{
    reveal_strlit("default");
    let empty = Seq::<char>::empty();
    let text = c.shown_code(false);
    if let Some(k) = c.code {
        law_decimal_is_digits(k as nat);
    }
    law_painting_is_invisible(Color::Blue, text, code, empty);
    assert(c.shown_code(code) + empty =~= c.shown_code(code));
    assert(text + visible(empty, false) =~= text);
}

proof fn lemma_after_name_visible<H>(c: Catcher<H>, base: bool, code: bool)
    requires
        no_escape(c.base@.path),
    ensures
        visible(shown_after_name(c, base, code), false) == shown_after_name(c, false, false),
        no_escape(shown_after_name(c, false, false)),
{
    reveal_strlit(" ");
    lemma_code_visible(c, code);
    let path = c.base@.path;
    let shown = c.shown_code(code);
    if path == root().path {
        assert(shown_after_name(c, base, code) =~= shown);
        assert(shown_after_name(c, false, false) =~= c.shown_code(false));
    } else {
        let spaced = " "@ + shown;
        law_plain_text_is_visible(" "@, shown);
        law_painting_is_invisible(Color::Green, path, base, spaced);
        assert(shown_after_name(c, base, code) =~= painted(Color::Green, path, base) + spaced);
        assert(shown_after_name(c, false, false) =~= path + (" "@ + c.shown_code(false)));
    }
}

/// Colors only add escape sequences: without them, a line shown with any parts
/// painted is the line with none painted, which holds no escape character.
/// The name and the path of the base must hold none of their own.
pub proof fn law_colors_only_add_escapes<H>(
    c: Catcher<H>,
    open: bool,
    name: bool,
    close: bool,
    base: bool,
    code: bool,
)
    requires
        c.name matches Some(n) ==> no_escape(n@),
        no_escape(c.base@.path),
    ensures
        visible(c.shown(open, name, close, base, code), false) == c.shown(
            false,
            false,
            false,
            false,
            false,
        ),
        no_escape(c.shown(false, false, false, false, false)),
{
    lemma_after_name_visible(c, base, code);
    let end = shown_after_name(c, base, code);
    let plain_end = shown_after_name(c, false, false);
    match c.name {
        None => {},
        Some(n) => {
            lemma_named_line_visible(n@, end, plain_end, open, name, close);
            lemma_line_after_name(
                painted(Color::Cyan, "("@, open),
                painted(Color::White, n@, name),
                painted(Color::Cyan, ")"@, close),
                c.shown_base(base),
                c.shown_code(code),
            );
            lemma_line_after_name("("@, n@, ")"@, c.shown_base(false), c.shown_code(false));
        },
    }
}

proof fn lemma_line_after_name(
    open: Seq<char>,
    name: Seq<char>,
    close: Seq<char>,
    base: Option<Seq<char>>,
    code: Seq<char>,
)
    ensures
        composed(Some(open + name + close), base, code) == open + (name + (close + (" "@ + composed(
            None,
            base,
            code,
        )))),
{
    assert(composed(Some(open + name + close), base, code) =~= open + (name + (close + (" "@
        + composed(None, base, code)))));
}

/// A painted name between painted parentheses, a space, and `end`.
spec fn named_line(n: Seq<char>, end: Seq<char>, open: bool, name: bool, close: bool) -> Seq<char> {
    let spaced = " "@ + end;
    let closed = painted(Color::Cyan, ")"@, close) + spaced;
    painted(Color::Cyan, "("@, open) + (painted(Color::White, n, name) + closed)
}

proof fn lemma_named_line_visible(
    n: Seq<char>,
    end: Seq<char>,
    plain_end: Seq<char>,
    open: bool,
    name: bool,
    close: bool,
)
    requires
        no_escape(n),
        no_escape(plain_end),
        visible(end, false) == plain_end,
    ensures
        visible(named_line(n, end, open, name, close), false) == named_line(
            n,
            plain_end,
            false,
            false,
            false,
        ),
        no_escape(named_line(n, plain_end, false, false, false)),
{
    reveal_strlit("(");
    reveal_strlit(")");
    reveal_strlit(" ");
    let spaced = " "@ + end;
    let closed = painted(Color::Cyan, ")"@, close) + spaced;
    let named = painted(Color::White, n, name) + closed;
    law_plain_text_is_visible(" "@, end);
    law_painting_is_invisible(Color::Cyan, ")"@, close, spaced);
    law_painting_is_invisible(Color::White, n, name, closed);
    law_painting_is_invisible(Color::Cyan, "("@, open, named);
}

/// What is shown of a catcher does not depend on its handler.
pub proof fn law_handler_is_not_shown<G, H>(
    a: Catcher<G>,
    b: Catcher<H>,
    open: bool,
    name: bool,
    close: bool,
    base: bool,
    code: bool,
)
    requires
        a.name == b.name,
        a.base == b.base,
        a.code == b.code,
    ensures
        a.shown(open, name, close, base, code) == b.shown(open, name, close, base, code),
{
}

} // verus!
