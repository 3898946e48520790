//! Catchers: the routes that run when a request ends in an error.

use crate::handler::{Cloneable, DefaultHandler, ErrorHandler};
use crate::paint::{
    blue, cyan, green, is_blue, is_cyan, is_green, is_white, painted, white, Color,
};
use crate::text::{decimal, decimal_string};
use crate::uri::{is_normalized, parsed, root, Error, Origin, OriginView};
use std::borrow::Cow;
use vstd::prelude::*;

verus! {

/// `From<A> for A` returns its argument.
pub assume_specification<A>[ <A as std::convert::From<A>>::from ](value: A) -> (same: A)
    ensures
        same == value,
;

/// `From<A> for Option<A>` moves its argument into a `Some`.
pub assume_specification<A>[ <std::option::Option<A> as std::convert::From<A>>::from ](
    value: A,
) -> (some: std::option::Option<A>)
    ensures
        some == Some(value),
;

/// `code` is an HTTP error, client or server, or stands for all of them.
pub open spec fn is_error_code(code: Option<u16>) -> bool {
    code matches Some(c) ==> 400 <= c < 600
}

/// The base that `text` stands for: the origin URI that it is, normalized and
/// without its query. None if it is no valid origin URI.
pub open spec fn base_of(text: Seq<char>) -> Option<OriginView> {
    match parsed(text) {
        None => None,
        Some(o) => Some(o.normalized().without_query()),
    }
}

/// Reads the text of a base.
pub fn parse_base(text: String) -> (base: Result<Origin, Error>)
    ensures
        match base {
            Ok(o) => base_of(text@) == Some(o@),
            Err(_) => base_of(text@) is None,
        },
{
    match Origin::parse_owned(text) {
        Err(e) => Err(e),
        Ok(o) => {
            let mut base = o.into_normalized();
            base.clear_query();
            Ok(base)
        },
    }
}

/// An error catching route.
///
/// It handles the errors of one status code or, if it has none, those that no
/// other catcher is for; then it is a default catcher.
pub struct Catcher<H> {
    /// The name of this catcher, if one was given.
    pub name: Option<Cow<'static, str>>,
    /// The mount point.
    pub base: Origin,
    /// The HTTP status to match against if this catcher is not a default one.
    pub code: Option<u16>,
    /// The catcher's error handler.
    pub handler: H,
}

/// What code generation knows of a catcher.
pub struct StaticCatcherInfo<H> {
    /// The catcher's name, that of the function that handles the error.
    pub name: &'static str,
    /// The catcher's status code, if it is for one.
    pub code: Option<u16>,
    /// The catcher's error handler.
    pub handler: H,
}

/// What a string holds, if there is one.
pub open spec fn text_of(s: Option<String>) -> Option<Seq<char>> {
    match s {
        None => None,
        Some(s) => Some(s@),
    }
}

/// What is shown of a catcher, from what is shown of its name, its base and
/// its code; a space follows each of the first two.
pub open spec fn composed(
    name: Option<Seq<char>>,
    base: Option<Seq<char>>,
    code: Seq<char>,
) -> Seq<char> {
    let before = match name {
        None => seq![],
        Some(n) => n + " "@,
    };
    let between = match base {
        None => seq![],
        Some(b) => b + " "@,
    };
    before + between + code
}

/// Puts what is shown of a name between what is shown of its parentheses.
pub fn enclose(open: String, name: String, close: String) -> (s: String)
    ensures
        s@ == open@ + name@ + close@,
{
    let mut s = open;
    s.append(name.as_str());
    s.append(close.as_str());
    s
}

/// Puts what is shown of a catcher's name, base and code on one line.
pub fn compose(name: Option<String>, base: Option<String>, code: String) -> (line: String)
    ensures
        line@ == composed(text_of(name), text_of(base), code@),
{
    let mut line = String::new();
    match name {
        None => {},
        Some(n) => {
            line.append(n.as_str());
            line.append(" ");
        },
    }
    match base {
        None => {},
        Some(b) => {
            line.append(b.as_str());
            line.append(" ");
        },
    }
    line.append(code.as_str());
    line
}

impl<H> Catcher<H> {
    /// The catcher is for HTTP errors, and its base is one that [`base_of`] gives.
    pub open spec fn wf(self) -> bool {
        &&& is_error_code(self.code)
        &&& self.base@.valid()
        &&& is_normalized(self.base@.path)
        &&& self.base@.query is None
    }

    /// `result` is this catcher moved to the base that `text` stands for, and
    /// otherwise unchanged; an error if `text` stands for none.
    pub open spec fn moved_to(self, text: Seq<char>, result: Result<Catcher<H>, Error>) -> bool {
        match result {
            Ok(c) => {
                &&& base_of(text) == Some(c.base@)
                &&& c.name == self.name
                &&& c.code == self.code
                &&& c.handler == self.handler
            },
            Err(_) => base_of(text) is None,
        }
    }

    /// The name between parentheses, if there is one; parentheses in cyan,
    /// the name in white.
    pub open spec fn shown_name(self, open: bool, name: bool, close: bool) -> Option<Seq<char>> {
        match self.name {
            None => None,
            Some(n) => Some(
                painted(Color::Cyan, "("@, open) + painted(Color::White, n@, name) + painted(
                    Color::Cyan,
                    ")"@,
                    close,
                ),
            ),
        }
    }

    /// The base, unless it is `/`, in green.
    pub open spec fn shown_base(self, on: bool) -> Option<Seq<char>> {
        if self.base@.path == root().path {
            None
        } else {
            Some(painted(Color::Green, self.base@.path, on))
        }
    }

    /// The status code, or `default`, in blue.
    pub open spec fn shown_code(self, on: bool) -> Seq<char> {
        match self.code {
            None => painted(Color::Blue, "default"@, on),
            Some(c) => painted(Color::Blue, decimal(c as nat), on),
        }
    }

    /// What is shown of the catcher, where each flag says whether painting is
    /// on for one part.
    pub open spec fn shown(
        self,
        open: bool,
        name: bool,
        close: bool,
        base: bool,
        code: bool,
    ) -> Seq<char> {
        composed(self.shown_name(open, name, close), self.shown_base(base), self.shown_code(code))
    }
}

impl<H> Catcher<H> {
    /// `s` is the name as the terminal library paints it: what it makes of the
    /// opening parenthesis in cyan, of the name in white and of the closing
    /// parenthesis in cyan. None if the catcher has no name.
    pub closed spec fn paints_name(self, s: Option<String>) -> bool {
        match self.name {
            None => s is None,
            Some(n) => exists|open: String, name: String, close: String|
                {
                    &&& #[trigger] is_cyan("("@, open)
                    &&& #[trigger] is_white(n@, name)
                    &&& #[trigger] is_cyan(")"@, close)
                    &&& text_of(s) == Some(open@ + name@ + close@)
                },
        }
    }

    /// `s` is what the terminal library makes of the path of the base in
    /// green. None if the path is `/`.
    pub closed spec fn paints_base(self, s: Option<String>) -> bool {
        if self.base@.path == root().path {
            s is None
        } else {
            s matches Some(shown) && is_green(self.base@.path, shown)
        }
    }

    /// `s` is what the terminal library makes of the status code, or of
    /// `default`, in blue.
    pub closed spec fn paints_code(self, s: String) -> bool {
        is_blue(self.shown_code(false), s)
    }

    /// `line` is made of the painted name, base and code.
    pub open spec fn paints_line(self, line: Seq<char>) -> bool {
        exists|name: Option<String>, base: Option<String>, code: String|
            {
                &&& #[trigger] self.paints_name(name)
                &&& #[trigger] self.paints_base(base)
                &&& #[trigger] self.paints_code(code)
                &&& line == composed(text_of(name), text_of(base), code@)
            }
    }
}

/// How a catcher is painted does not depend on its handler.
pub proof fn law_handler_is_not_painted<G, H>(a: Catcher<G>, b: Catcher<H>, line: Seq<char>)
    requires
        a.name == b.name,
        a.base == b.base,
        a.code == b.code,
    ensures
        a.paints_line(line) == b.paints_line(line),
{
    assert(forall|s: Option<String>| a.paints_name(s) == b.paints_name(s));
    assert(forall|s: Option<String>| a.paints_base(s) == b.paints_base(s));
    assert(forall|s: String| a.paints_code(s) == b.paints_code(s));
}

impl<H: ErrorHandler> Catcher<H> {
    /// Creates a catcher for errors with the given status code, or a default
    /// catcher if `code` is `None`, mounted at `/`.
    ///
    /// The code has to be that of an HTTP error: in `[400, 600)`.
    pub fn new<S: Into<Option<u16>>>(code: S, handler: H) -> (c: Catcher<H>)
        requires
            forall|to: Option<u16>| #[trigger]
                call_ensures(S::into, (code,), to) ==> is_error_code(to),
        ensures
            c.name is None,
            c.base@ == root(),
            call_ensures(S::into, (code,), c.code),
            c.handler == handler,
            c.wf(),
    {
        let code = code.into();
        proof {
            reveal_strlit("/");
            assert("/"@ =~= seq!['/']);
        }
        Catcher { name: None, base: Origin::new("/", None), code, handler }
    }

    /// Maps the base of this catcher with `mapper`, which is called with the
    /// current base and returns the text of the new one. A query in that text
    /// is ignored; it is an error if it is not a valid origin URI.
    pub fn map_base<F: FnOnce(Origin) -> String>(self, mapper: F) -> (result: Result<
        Catcher<H>,
        Error,
    >)
        requires
            call_requires(mapper, (self.base,)),
        ensures
            exists|text: String| #[trigger]
                call_ensures(mapper, (self.base,), text) && self.moved_to(text@, result),
            is_error_code(self.code) ==> (result matches Ok(c) ==> c.wf()),
    {
        let Catcher { name, base, code, handler } = self;
        let text = mapper(base);
        proof {
            crate::laws::law_base_is_well_formed(text@);
        }
        match parse_base(text) {
            Err(e) => Err(e),
            Ok(base) => Ok(Catcher { name, base, code, handler }),
        }
    }

    /// The catcher that `info` describes.
    pub fn from(info: StaticCatcherInfo<H>) -> (c: Catcher<H>)
        requires
            is_error_code(info.code),
        ensures
            c.name matches Some(n) && n@ == info.name@,
            c.base@ == root(),
            c.code == info.code,
            c.handler == info.handler,
            c.wf(),
    {
        let mut catcher = Catcher::new(info.code, info.handler);
        catcher.name = Some(Cow::Borrowed(info.name));
        catcher
    }

    /// Writes the name between parentheses, if there is one.
    fn show_name(&self) -> (s: Option<String>)
        ensures
            self.paints_name(s),
            exists|open: bool, name: bool, close: bool|
                text_of(s) == #[trigger] self.shown_name(open, name, close),
    {
        match &self.name {
            None => {
                assert(text_of(None) == self.shown_name(false, false, false));
                None
            },
            Some(name) => {
                let name = match name {
                    Cow::Borrowed(n) => n,
                    Cow::Owned(n) => n.as_str(),
                };
                let open = cyan("(");
                let shown = white(name);
                let close = cyan(")");
                proof {
                    assert(is_cyan("("@, open) && is_white(name@, shown) && is_cyan(")"@, close));
                    let o = choose|on: bool| open@ == #[trigger] painted(Color::Cyan, "("@, on);
                    let n = choose|on: bool| shown@ == #[trigger] painted(Color::White, name@, on);
                    let c = choose|on: bool| close@ == #[trigger] painted(Color::Cyan, ")"@, on);
                    assert(Some(open@ + shown@ + close@) == self.shown_name(o, n, c));
                }
                Some(enclose(open, shown, close))
            },
        }
    }

    /// Writes the base, unless it is `/`.
    fn show_base(&self) -> (s: Option<String>)
        ensures
            self.paints_base(s),
            exists|on: bool| text_of(s) == #[trigger] self.shown_base(on),
    {
        if self.base.is_root() {
            assert(text_of(None) == self.shown_base(false));
            None
        } else {
            let s = green(self.base.path());
            proof {
                let on = choose|on: bool|
                    s@ == #[trigger] painted(Color::Green, self.base@.path, on);
                assert(text_of(Some(s)) == self.shown_base(on));
            }
            Some(s)
        }
    }

    /// Writes the status code, or `default`.
    fn show_code(&self) -> (s: String)
        ensures
            self.paints_code(s),
            exists|on: bool| s@ == #[trigger] self.shown_code(on),
    {
        let text = match self.code {
            None => "default".to_owned(),
            Some(c) => decimal_string(c),
        };
        let s = blue(text.as_str());
        proof {
            let on = choose|on: bool| s@ == #[trigger] painted(Color::Blue, text@, on);
            assert(s@ == self.shown_code(on));
        }
        s
    }

    /// One line that names the catcher, its base and its code. A part is in
    /// color if painting is switched on in the process when it is written;
    /// the switch can change at any time, so this holds of each part by itself.
    pub fn to_string(&self) -> (line: String)
        ensures
            self.paints_line(line@),
            exists|open: bool, name: bool, close: bool, base: bool, code: bool|
                line@ == #[trigger] self.shown(open, name, close, base, code),
    {
        let name = self.show_name();
        let base = self.show_base();
        let code = self.show_code();
        proof {
            let (o, n, c) = choose|open: bool, n: bool, close: bool|
                text_of(name) == #[trigger] self.shown_name(open, n, close);
            let b = choose|on: bool| text_of(base) == #[trigger] self.shown_base(on);
            let k = choose|on: bool| code@ == #[trigger] self.shown_code(on);
            assert(composed(text_of(name), text_of(base), code@) == self.shown(o, n, c, b, k));
        }
        compose(name, base, code)
    }
}

impl Default for Catcher<DefaultHandler> {
    /// The built-in default catcher, which can handle all errors.
    fn default() -> (c: Catcher<DefaultHandler>)
        ensures
            c.name matches Some(n) && n@ == "<Rocket Catcher>"@,
            c.base@ == root(),
            c.code is None,
            c.wf(),
    {
        let mut catcher = Catcher::new(None, DefaultHandler);
        catcher.name = Some(Cow::Borrowed("<Rocket Catcher>"));
        catcher
    }
}

impl<H: ErrorHandler> Clone for Catcher<H> {
    fn clone(&self) -> (c: Catcher<H>)
        ensures
            c.name == self.name,
            c.base == self.base,
            c.code == self.code,
            call_ensures(H::clone, (&self.handler,), c.handler),
    {
        Catcher {
            name: match &self.name {
                None => None,
                Some(Cow::Borrowed(n)) => Some(Cow::Borrowed(n)),
                Some(Cow::Owned(n)) => Some(Cow::Owned(n.clone())),
            },
            base: self.base.clone(),
            code: self.code,
            handler: *self.handler.clone_handler(),
        }
    }
}

} // verus!
