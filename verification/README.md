# catcher

Error catchers for a web framework, verified with Verus.

A request that ends in an error is answered by a catcher: it has a mount point,
possibly a name and a status code to match, and a handler that writes the
response. The built-in catcher describes every error, in JSON for clients that
prefer it and in HTML for all others.

- `src/catcher.rs`: catchers, their bases and how they are shown
- `src/handler.rs`, `src/private.rs`: error handlers and how they are cloned
- `src/builtin.rs`: the built-in descriptions of errors
- `src/uri.rs`: origin URIs, their grammar and their normal form
- `src/http.rs`, `src/text.rs`: requests, responses and text
- `src/json.rs`: how JSON text is read, in specifications
- `src/paint.rs`: colored text, from the `yansi` crate
- `src/laws.rs`: what holds of catchers as a whole
- `app/`: catchers with asynchronous handlers behind trait objects
