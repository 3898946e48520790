//! Origin URIs: an absolute path and an optional query, as in the request
//! target of an HTTP request line (RFC 7230, section 5.3.1).

use crate::text::chars_of;
use vstd::prelude::*;

verus! {

/// What an [`Origin`] stands for: the path and, after a `?`, the query.
pub struct OriginView {
    pub path: Seq<char>,
    pub query: Option<Seq<char>>,
}

/// A hexadecimal digit.
pub open spec fn is_hex(c: char) -> bool {
    ||| '0' <= c <= '9'
    ||| 'a' <= c <= 'f'
    ||| 'A' <= c <= 'F'
}

/// A character that stands for itself in a path segment: `pchar` of RFC 3986
/// without the percent escapes.
pub open spec fn is_pchar(c: char) -> bool {
    ||| 'a' <= c <= 'z'
    ||| 'A' <= c <= 'Z'
    ||| '0' <= c <= '9'
    // the marks of `unreserved`
    ||| c == '-' || c == '.' || c == '_' || c == '~'
    // `sub-delims`
    ||| c == '!' || c == '$' || c == '&' || c == '\'' || c == '(' || c == ')'
    ||| c == '*' || c == '+' || c == ',' || c == ';' || c == '='
    ||| c == ':' || c == '@'
}

/// Every `%` in `s` starts an escape: two hexadecimal digits follow it.
pub open spec fn escapes_complete(s: Seq<char>) -> bool {
    forall|i: int|
        0 <= i < s.len() && #[trigger] s[i] == '%' ==> i + 2 < s.len() && is_hex(s[i + 1])
            && is_hex(s[i + 2])
}

/// A path: it starts with `/` and holds path characters, slashes and escapes.
pub open spec fn is_path(s: Seq<char>) -> bool {
    &&& s.len() > 0
    &&& s[0] == '/'
    &&& forall|i: int|
        0 <= i < s.len() ==> is_pchar(#[trigger] s[i]) || s[i] == '/' || s[i] == '%'
    &&& escapes_complete(s)
}

/// A query: path characters, slashes, question marks and escapes.
pub open spec fn is_query(s: Seq<char>) -> bool {
    &&& forall|i: int|
        0 <= i < s.len() ==> is_pchar(#[trigger] s[i]) || s[i] == '/' || s[i] == '?' || s[i] == '%'
    &&& escapes_complete(s)
}

/// `path` without each slash that ends an empty segment: one that another
/// slash follows, or that stands last.
pub open spec fn squeezed(path: Seq<char>) -> Seq<char>
    decreases path.len(),
{
    if path.len() == 0 {
        path
    } else if path[0] == '/' && (path.len() == 1 || path[1] == '/') {
        squeezed(path.drop_first())
    } else {
        seq![path[0]] + squeezed(path.drop_first())
    }
}

/// `path` without its empty segments; `/` if it has no other.
pub open spec fn normalized(path: Seq<char>) -> Seq<char> {
    if squeezed(path).len() == 0 {
        seq!['/']
    } else {
        squeezed(path)
    }
}

/// The segments of `path` that are not empty.
pub open spec fn segments(path: Seq<char>) -> Seq<Seq<char>>
    decreases path.len(),
{
    if path.len() == 0 {
        seq![]
    } else {
        let rest = segments(path.drop_first());
        if path[0] == '/' {
            rest
        } else if path.len() == 1 || path[1] == '/' {
            seq![seq![path[0]]] + rest
        } else {
            seq![seq![path[0]] + rest[0]] + rest.drop_first()
        }
    }
}

/// `path` has no empty segment, or is `/` alone.
pub open spec fn is_normalized(path: Seq<char>) -> bool {
    ||| path == seq!['/']
    ||| {
        &&& path.len() > 0
        &&& path[0] == '/'
        &&& path.last() != '/'
        &&& forall|i: int|
            0 <= i < path.len() - 1 && #[trigger] path[i] == '/' ==> path[i + 1] != '/'
    }
}

impl OriginView {
    /// The path and the query are what RFC 3986 lets them be.
    pub open spec fn valid(self) -> bool {
        &&& is_path(self.path)
        &&& self.query matches Some(q) ==> is_query(q)
    }

    /// The URI as it is written.
    pub open spec fn text(self) -> Seq<char> {
        match self.query {
            None => self.path,
            Some(q) => self.path.push('?') + q,
        }
    }

    /// The same URI with a normalized path.
    pub open spec fn normalized(self) -> OriginView {
        OriginView { path: normalized(self.path), query: self.query }
    }

    /// The same URI without its query.
    pub open spec fn without_query(self) -> OriginView {
        OriginView { path: self.path, query: None }
    }
}

/// `s` is the text of a valid origin URI.
pub open spec fn is_origin_text(s: Seq<char>) -> bool {
    exists|o: OriginView| #[trigger] o.valid() && o.text() == s
}

/// The valid origin URI that `s` is the text of, if there is one.
pub open spec fn parsed(s: Seq<char>) -> Option<OriginView> {
    if is_origin_text(s) {
        Some(choose|o: OriginView| #[trigger] o.valid() && o.text() == s)
    } else {
        None
    }
}

/// The path `/`, without a query.
pub open spec fn root() -> OriginView {
    OriginView { path: seq!['/'], query: None }
}

/// The text is not that of a valid origin URI.
#[derive(Clone, Copy, Debug, PartialEq, Eq)]
pub struct Error;

/// An origin URI.
#[derive(Debug)]
pub struct Origin {
    /// The path, up to the query.
    pub path: String,
    /// What follows the first `?`, if there is one.
    pub query: Option<String>,
}

impl View for Origin {
    type V = OriginView;

    open spec fn view(&self) -> OriginView {
        OriginView {
            path: self.path@,
            query: match self.query {
                None => None,
                Some(q) => Some(q@),
            },
        }
    }
}

fn pchar(c: char) -> (b: bool)
    ensures
        b == is_pchar(c),
{
    ('a' <= c && c <= 'z') || ('A' <= c && c <= 'Z') || ('0' <= c && c <= '9') || c == '-' || c
        == '.' || c == '_' || c == '~' || c == '!' || c == '$' || c == '&' || c == '\'' || c == '('
        || c == ')' || c == '*' || c == '+' || c == ',' || c == ';' || c == '=' || c == ':' || c
        == '@'
}

fn hex(c: char) -> (b: bool)
    ensures
        b == is_hex(c),
{
    ('0' <= c && c <= '9') || ('a' <= c && c <= 'f') || ('A' <= c && c <= 'F')
}

/// A character that may stand in an origin URI.
spec fn is_uri_char(c: char) -> bool {
    is_pchar(c) || c == '/' || c == '?' || c == '%'
}

/// The characters and escapes of `s` are those of an origin URI.
spec fn scans(s: Seq<char>) -> bool {
    &&& s.len() > 0
    &&& s[0] == '/'
    &&& forall|i: int| 0 <= i < s.len() ==> is_uri_char(#[trigger] s[i])
    &&& escapes_complete(s)
}

/// `s` cut at its first `?`, which is at `cut`; there is none if `cut` is its length.
spec fn cut_at(s: Seq<char>, cut: int) -> OriginView {
    if cut == s.len() {
        OriginView { path: s, query: None }
    } else {
        OriginView { path: s.take(cut), query: Some(s.skip(cut + 1)) }
    }
}

proof fn lemma_valid_scans(o: OriginView)
    requires
        o.valid(),
    ensures
        scans(o.text()),
{
    let s = o.text();
    assert(s[0] == o.path[0]);
    assert forall|i: int| 0 <= i < s.len() implies is_uri_char(#[trigger] s[i]) by {
        if i < o.path.len() {
            assert(s[i] == o.path[i]);
        } else if i > o.path.len() {
            assert(s[i] == o.query->0[i - o.path.len() - 1]);
        }
    }
    assert forall|i: int| 0 <= i < s.len() && #[trigger] s[i] == '%' implies i + 2 < s.len()
        && is_hex(s[i + 1]) && is_hex(s[i + 2]) by {
        if i < o.path.len() {
            assert(o.path[i] == '%');
        } else if i > o.path.len() {
            assert(o.query->0[i - o.path.len() - 1] == '%');
        }
    }
}

proof fn lemma_cut_valid(s: Seq<char>, cut: int)
    requires
        scans(s),
        0 <= cut <= s.len(),
        forall|i: int| 0 <= i < cut ==> #[trigger] s[i] != '?',
        cut < s.len() ==> s[cut] == '?',
    ensures
        cut_at(s, cut).valid(),
        cut_at(s, cut).text() == s,
{
    let o = cut_at(s, cut);
    assert(o.text() =~= s);
    assert(cut > 0);
    assert(escapes_complete(o.path)) by {
        assert forall|i: int|
            0 <= i < o.path.len() && #[trigger] o.path[i] == '%' implies i + 2 < o.path.len()
            && is_hex(o.path[i + 1]) && is_hex(o.path[i + 2]) by {
            assert(s[i] == '%');
            assert(is_hex(s[i + 1]) && is_hex(s[i + 2]));
        }
    }
    if cut < s.len() {
        let q = s.skip(cut + 1);
        assert(is_query(q)) by {
            assert forall|i: int| 0 <= i < q.len() implies is_uri_char(#[trigger] q[i]) by {
                assert(q[i] == s[i + cut + 1]);
            }
            assert forall|i: int| 0 <= i < q.len() && #[trigger] q[i] == '%' implies i + 2 < q.len()
                && is_hex(q[i + 1]) && is_hex(q[i + 2]) by {
                assert(s[i + cut + 1] == '%');
            }
        }
    }
}

/// Two valid origin URIs are written alike only if they are the same.
pub proof fn law_text_determines_origin(a: OriginView, b: OriginView)
    requires
        a.valid(),
        b.valid(),
        a.text() == b.text(),
    ensures
        a == b,
{
    let s = a.text();
    if a.path.len() < b.path.len() {
        assert(s[a.path.len() as int] == b.path[a.path.len() as int]);
    }
    if b.path.len() < a.path.len() {
        assert(s[b.path.len() as int] == a.path[b.path.len() as int]);
    }
    assert(a.path =~= s.take(a.path.len() as int));
    assert(b.path =~= s.take(a.path.len() as int));
    if a.query is Some && b.query is Some {
        assert(a.query->0 =~= s.skip(a.path.len() as int + 1));
        assert(b.query->0 =~= s.skip(a.path.len() as int + 1));
    }
}

/// Reading the text of a valid origin URI gives the URI back.
pub proof fn law_parsed_text(o: OriginView)
    requires
        o.valid(),
    ensures
        parsed(o.text()) == Some(o),
{
    let p = parsed(o.text())->0;
    law_text_determines_origin(o, p);
}

/// Where the first `?` of `s` stands; its length if there is none.
spec fn mark_at(s: Seq<char>) -> nat
    decreases s.len(),
{
    if s.len() == 0 || s[0] == '?' {
        0
    } else {
        1 + mark_at(s.drop_first())
    }
}

proof fn lemma_mark_at(s: Seq<char>)
    ensures
        mark_at(s) <= s.len(),
        forall|i: int| 0 <= i < mark_at(s) ==> #[trigger] s[i] != '?',
        mark_at(s) < s.len() ==> s[mark_at(s) as int] == '?',
    decreases s.len(),
{
    if s.len() > 0 && s[0] != '?' {
        let rest = s.drop_first();
        lemma_mark_at(rest);
        assert forall|i: int| 0 <= i < mark_at(s) implies #[trigger] s[i] != '?' by {
            if i > 0 {
                assert(rest[i - 1] == s[i]);
            }
        }
    }
}

/// A text is that of a valid origin URI if and only if it starts with `/` and
/// holds the characters and escapes of a query.
pub proof fn law_parsed_iff(s: Seq<char>)
    ensures
        parsed(s) is Some <==> s.len() > 0 && s[0] == '/' && is_query(s),
{
    if parsed(s) is Some {
        lemma_valid_scans(parsed(s)->0);
    }
    if s.len() > 0 && s[0] == '/' && is_query(s) {
        lemma_mark_at(s);
        lemma_cut_valid(s, mark_at(s) as int);
    }
}

/// The path of an origin URI is its text up to the first `?`, and the query
/// is what follows that.
pub proof fn law_parsed_parts(s: Seq<char>)
    requires
        parsed(s) is Some,
    ensures
        ({
            let o = parsed(s)->0;
            let n = o.path.len() as int;
            &&& n <= s.len()
            &&& o.path == s.take(n)
            &&& forall|i: int| 0 <= i < n ==> #[trigger] s[i] != '?'
            &&& n < s.len() ==> s[n] == '?' && o.query == Some(s.skip(n + 1))
            &&& n == s.len() ==> o.query is None
        }),
{
    let o = parsed(s)->0;
    let n = o.path.len() as int;
    assert(o.path =~= s.take(n));
    assert forall|i: int| 0 <= i < n implies #[trigger] s[i] != '?' by {
        assert(s[i] == o.path[i]);
    }
    if o.query is Some {
        assert(o.query->0 =~= s.skip(n + 1));
    }
}

/// One of two slashes in a row does not count in a normal path.
pub proof fn law_double_slash(a: Seq<char>, b: Seq<char>)
    ensures
        normalized(a + seq!['/', '/'] + b) == normalized(a + seq!['/'] + b),
{
    lemma_double_slash(a, b);
}

proof fn lemma_double_slash(a: Seq<char>, b: Seq<char>)
    ensures
        squeezed(a + seq!['/', '/'] + b) == squeezed(a + seq!['/'] + b),
    decreases a.len(),
{
    let two = a + seq!['/', '/'] + b;
    let one = a + seq!['/'] + b;
    if a.len() == 0 {
        assert(two.drop_first() =~= one);
    } else {
        lemma_double_slash(a.drop_first(), b);
        assert(two.drop_first() =~= a.drop_first() + seq!['/', '/'] + b);
        assert(one.drop_first() =~= a.drop_first() + seq!['/'] + b);
        assert(two[1] == one[1]);
    }
}

/// A slash at the end does not count in a normal path.
pub proof fn law_last_slash(a: Seq<char>)
    ensures
        normalized(a.push('/')) == normalized(a),
{
    lemma_last_slash(a);
}

proof fn lemma_last_slash(a: Seq<char>)
    ensures
        squeezed(a.push('/')) == squeezed(a),
    decreases a.len(),
{
    let s = a.push('/');
    if a.len() == 0 {
        assert(s.drop_first() =~= a);
    } else {
        lemma_last_slash(a.drop_first());
        assert(s.drop_first() =~= a.drop_first().push('/'));
        if a.len() > 1 {
            assert(s[1] == a[1]);
        } else {
            reveal_with_fuel(squeezed, 2);
        }
    }
}

/// A query behind the text of an origin URI leaves the path as it is.
pub proof fn law_query_leaves_path(text: Seq<char>, query: Seq<char>)
    requires
        parsed(text) is Some,
        parsed(text.push('?') + query) is Some,
    ensures
        parsed(text.push('?') + query)->0.path == parsed(text)->0.path,
{
    let s = text.push('?') + query;
    let a = parsed(text)->0;
    let b = parsed(s)->0;
    let n = a.path.len() as int;
    let m = b.path.len() as int;
    // the first `?` of `s` follows the path of either
    assert(s[n] == '?') by {
        if a.query is Some {
            assert(text[n] == '?');
        }
    }
    assert(s.take(n) =~= a.path);
    if n < m {
        assert(s[n] == b.path[n]);
    }
    if m < n {
        assert(s[m] == a.path[m]);
    }
    assert(s.take(m) =~= b.path);
}

proof fn lemma_squeezed_shape(p: Seq<char>)
    ensures
        squeezed(p).len() > 0 ==> squeezed(p).last() != '/',
        forall|i: int|
            0 <= i < squeezed(p).len() - 1 && #[trigger] squeezed(p)[i] == '/' ==> squeezed(p)[i
                + 1] != '/',
        p.len() > 0 && p[0] != '/' ==> squeezed(p).len() > 0,
        p.len() > 0 && squeezed(p).len() > 0 ==> squeezed(p)[0] == p[0],
    decreases p.len(),
{
    if p.len() > 0 {
        lemma_squeezed_shape(p.drop_first());
    }
}

proof fn lemma_squeezed_valid(p: Seq<char>)
    requires
        forall|i: int| 0 <= i < p.len() ==> is_pchar(#[trigger] p[i]) || p[i] == '/' || p[i] == '%',
        escapes_complete(p),
    ensures
        forall|i: int|
            0 <= i < squeezed(p).len() ==> is_pchar(#[trigger] squeezed(p)[i]) || squeezed(p)[i]
                == '/' || squeezed(p)[i] == '%',
        escapes_complete(squeezed(p)),
    decreases p.len(),
{
    if p.len() > 0 {
        let rest = p.drop_first();
        assert(escapes_complete(rest)) by {
            assert forall|i: int|
                0 <= i < rest.len() && #[trigger] rest[i] == '%' implies i + 2 < rest.len()
                && is_hex(rest[i + 1]) && is_hex(rest[i + 2]) by {
                assert(p[i + 1] == '%');
            }
        }
        lemma_squeezed_valid(rest);
        if p[0] == '%' {
            // the two digits that follow stay where they are
            let last = rest.drop_first();
            lemma_squeezed_shape(last);
            assert(rest[0] == p[1] && last[0] == p[2]);
            assert(squeezed(rest) == seq![p[1]] + squeezed(last));
            assert(squeezed(p) == seq![p[0]] + squeezed(rest));
        }
        let s = squeezed(p);
        if !(p[0] == '/' && (p.len() == 1 || p[1] == '/')) {
            assert forall|i: int| 0 <= i < s.len() && #[trigger] s[i] == '%' implies i + 2 < s.len()
                && is_hex(s[i + 1]) && is_hex(s[i + 2]) by {
                if i > 0 {
                    assert(squeezed(rest)[i - 1] == '%');
                }
            }
        }
    }
}

proof fn lemma_squeezed_fixed(p: Seq<char>)
    requires
        p.len() > 0 ==> p.last() != '/',
        forall|i: int| 0 <= i < p.len() - 1 && #[trigger] p[i] == '/' ==> p[i + 1] != '/',
    ensures
        squeezed(p) == p,
        p.len() > 0 ==> squeezed(p.push('/')) == p,
    decreases p.len(),
{
    if p.len() > 0 {
        let rest = p.drop_first();
        assert forall|i: int| 0 <= i < rest.len() - 1 && #[trigger] rest[i] == '/' implies rest[i
            + 1] != '/' by {
            assert(p[i + 1] == '/');
        }
        lemma_squeezed_fixed(rest);
        assert(seq![p[0]] + rest =~= p);
        assert(p.push('/').drop_first() =~= rest.push('/'));
        assert(p.len() > 1 ==> p[0] == '/' ==> p[1] != '/');
        if rest.len() == 0 {
            assert(squeezed(rest.push('/')) =~= rest) by {
                reveal_with_fuel(squeezed, 2);
            }
        }
    }
}

/// Normalizing an absolute path leaves no empty segment in it.
pub proof fn law_normalized_has_no_empty_segment(path: Seq<char>)
    requires
        path.len() > 0,
        path[0] == '/',
    ensures
        is_normalized(normalized(path)),
{
    lemma_squeezed_shape(path);
}

/// Normalizing leaves a normalized path as it is.
pub proof fn law_normalized_unchanged(path: Seq<char>)
    requires
        is_normalized(path),
    ensures
        normalized(path) == path,
{
    if path == seq!['/'] {
        reveal_with_fuel(squeezed, 2);
    } else {
        lemma_squeezed_fixed(path);
    }
}

/// Normalizing leaves a text as it is that has no two slashes in a row and
/// none at its end, and also `/`.
pub proof fn law_plain_unchanged(path: Seq<char>)
    requires
        path == seq!['/'] || {
            &&& path.len() > 0
            &&& path.last() != '/'
            &&& forall|i: int|
                0 <= i < path.len() - 1 && #[trigger] path[i] == '/' ==> path[i + 1] != '/'
        },
    ensures
        normalized(path) == path,
{
    if path == seq!['/'] {
        law_normalized_unchanged(path);
    } else {
        lemma_squeezed_fixed(path);
    }
}

/// Normalizing keeps a valid path valid.
pub proof fn law_normalized_valid(path: Seq<char>)
    requires
        is_path(path),
    ensures
        is_path(normalized(path)),
{
    lemma_squeezed_valid(path);
    lemma_squeezed_shape(path);
}

/// A valid path after a valid path is a valid path.
pub proof fn law_concatenated_path_valid(a: Seq<char>, b: Seq<char>)
    requires
        is_path(a),
        is_path(b),
    ensures
        is_path(a + b),
{
    let s = a + b;
    assert forall|i: int| 0 <= i < s.len() && #[trigger] s[i] == '%' implies i + 2 < s.len()
        && is_hex(s[i + 1]) && is_hex(s[i + 2]) by {
        if i < a.len() {
            assert(a[i] == '%');
        } else {
            assert(b[i - a.len()] == '%');
        }
    }
}

/// Normalizing one normalized path after another drops `/` where it is one of
/// them, and nothing else.
pub proof fn law_concatenated_path_normalized(a: Seq<char>, b: Seq<char>)
    requires
        is_normalized(a),
        is_normalized(b),
    ensures
        a == root().path ==> normalized(a + b) == b,
        b == root().path ==> normalized(a + b) == a,
        a != root().path && b != root().path ==> normalized(a + b) == a + b,
{
    if a == root().path {
        assert((a + b).drop_first() =~= b);
        law_normalized_unchanged(b);
    }
    if b == root().path && a != root().path {
        assert(a + b =~= a.push('/'));
        lemma_squeezed_fixed(a);
    }
    if a != root().path && b != root().path {
        let s = a + b;
        assert(is_normalized(s)) by {
            assert forall|i: int| 0 <= i < s.len() - 1 && #[trigger] s[i] == '/' implies s[i + 1]
                != '/' by {
                if i < a.len() - 1 {
                    assert(a[i] == '/');
                } else if i >= a.len() {
                    assert(b[i - a.len()] == '/');
                }
            }
        }
        law_normalized_unchanged(s);
    }
}

proof fn lemma_squeezed_segments(p: Seq<char>)
    ensures
        segments(squeezed(p)) == segments(p),
    decreases p.len(),
{
    if p.len() > 0 {
        let rest = p.drop_first();
        lemma_squeezed_segments(rest);
        lemma_squeezed_shape(rest);
        assert(p.len() > 1 ==> rest[0] == p[1]);
        if !(p[0] == '/' && (p.len() == 1 || p[1] == '/')) {
            assert(squeezed(p).drop_first() =~= squeezed(rest));
        }
    }
}

/// Normalizing keeps the segments that are not empty, in their order.
pub proof fn law_normalized_keeps_segments(path: Seq<char>)
    ensures
        segments(normalized(path)) == segments(path),
{
    lemma_squeezed_segments(path);
    if squeezed(path).len() == 0 {
        reveal_with_fuel(segments, 2);
    }
}

impl Origin {
    /// The origin URI with this path and query, which are taken as they are.
    pub fn new(path: &str, query: Option<&str>) -> (o: Origin)
        ensures
            o@.path == path@,
            o@.query == (match query {
                None => None::<Seq<char>>,
                Some(q) => Some(q@),
            }),
    {
        Origin {
            path: path.to_owned(),
            query: match query {
                None => None,
                Some(q) => Some(q.to_owned()),
            },
        }
    }

    /// Reads an origin URI. It is an error if `text` is not that of a valid one.
    pub fn parse_owned(text: String) -> (r: Result<Origin, Error>)
        ensures
            match r {
                Ok(o) => o@.valid() && o@.text() == text@ && parsed(text@) == Some(o@),
                Err(_) => parsed(text@) is None,
            },
    {
        let s = chars_of(text.as_str());
        let n = s.len();
        if n == 0 || s[0] != '/' {
            proof {
                assert forall|o: OriginView| #[trigger] o.valid() implies o.text() != text@ by {
                    lemma_valid_scans(o);
                }
            }
            return Err(Error);
        }
        let mut cut: usize = n;
        for i in 0..n
            invariant
                n == s.len(),
                s@ == text@,
                n > 0,
                s[0] == '/',
                cut == n || cut < i,
                forall|k: int| 0 <= k < i && k < cut ==> #[trigger] s@[k] != '?',
                cut < n ==> s@[cut as int] == '?',
                forall|k: int| 0 <= k < i ==> is_uri_char(#[trigger] s@[k]),
                forall|k: int|
                    0 <= k < i && #[trigger] s@[k] == '%' ==> k + 2 < n && is_hex(s@[k + 1])
                        && is_hex(s@[k + 2]),
        {
            let c = s[i];
            let ok = if c == '%' {
                n - i > 2 && hex(s[i + 1]) && hex(s[i + 2])
            } else {
                pchar(c) || c == '/' || c == '?'
            };
            if !ok {
                proof {
                    assert forall|o: OriginView| #[trigger] o.valid() implies o.text() != text@ by {
                        lemma_valid_scans(o);
                        assert(s@[i as int] == c);
                    }
                }
                return Err(Error);
            }
            if c == '?' && cut == n {
                cut = i;
            }
        }
        proof {
            lemma_cut_valid(text@, cut as int);
            law_parsed_text(cut_at(text@, cut as int));
        }
        if cut == n {
            Ok(Origin { path: text, query: None })
        } else {
            Ok(
                Origin {
                    path: text.as_str().substring_char(0, cut).to_owned(),
                    query: Some(text.as_str().substring_char(cut + 1, n).to_owned()),
                },
            )
        }
    }

    /// The path.
    pub fn path(&self) -> (path: &str)
        ensures
            path@ == self@.path,
    {
        self.path.as_str()
    }

    /// The query.
    pub fn query(&self) -> (query: Option<&str>)
        ensures
            match query {
                None => self@.query is None,
                Some(q) => self@.query == Some(q@),
            },
    {
        match &self.query {
            None => None,
            Some(q) => Some(q.as_str()),
        }
    }

    /// The path is `/`.
    pub fn is_root(&self) -> (b: bool)
        ensures
            b == (self@.path == root().path),
    {
        let s = chars_of(self.path.as_str());
        assert(s.len() == 1 && s@[0] == '/' ==> s@ =~= seq!['/']);
        s.len() == 1 && s[0] == '/'
    }

    /// Leaves the empty segments out of the path.
    pub fn into_normalized(self) -> (o: Origin)
        ensures
            o@ == self@.normalized(),
    {
        let s = chars_of(self.path.as_str());
        let n = s.len();
        let mut path = String::new();
        assert(s@.skip(0) =~= s@);
        for i in 0..n
            invariant
                n == s.len(),
                s@ == self.path@,
                path@ + squeezed(s@.skip(i as int)) == squeezed(s@),
        {
            let ghost rest = s@.skip(i as int);
            assert(rest.drop_first() =~= s@.skip(i + 1));
            assert(i + 1 < n ==> rest[1] == s@[i + 1]);
            let c = s[i];
            if !(c == '/' && (i + 1 == n || s[i + 1] == '/')) {
                let ghost before = path@;
                path.push(c);
                assert(path@ + squeezed(rest.drop_first()) =~= before + (seq![c] + squeezed(
                    rest.drop_first(),
                )));
            }
        }
        assert(path@ =~= squeezed(s@));
        if path.as_str().is_empty() {
            path.push('/');
            assert(path@ =~= seq!['/']);
        }
        Origin { path, query: self.query }
    }

    /// Drops the query.
    pub fn clear_query(&mut self)
        ensures
            final(self)@ == old(self)@.without_query(),
    {
        self.query = None;
    }

    /// The URI as it is written.
    pub fn to_string(&self) -> (s: String)
        ensures
            s@ == self@.text(),
    {
        let mut s = self.path.clone();
        match &self.query {
            None => {},
            Some(q) => {
                s.push('?');
                s.append(q.as_str());
            },
        }
        s
    }
}

impl Clone for Origin {
    fn clone(&self) -> (o: Origin)
        ensures
            o == *self,
    {
        Origin {
            path: self.path.clone(),
            query: match &self.query {
                None => None,
                Some(q) => Some(q.clone()),
            },
        }
    }
}

} // verus!
