//! Error catchers for a web framework.
//!
//! A request that ends in an error is answered by a [`Catcher`](catcher::Catcher):
//! it has a mount point, possibly a name and a status code to match, and an
//! [`ErrorHandler`](handler::ErrorHandler) that writes the response. The
//! built-in catcher describes every error, in HTML or in JSON.

pub mod builtin;
pub mod catcher;
pub mod handler;
pub mod http;
pub mod json;
pub mod laws;
pub mod operations;
pub mod paint;
mod private;
pub mod text;
pub mod uri;
