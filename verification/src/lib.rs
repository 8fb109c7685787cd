//! A small user directory: the handlers of its two operations, the errors
//! they raise, how an error is written into an HTTP response and read back
//! from one, and a client that does no I/O of its own.

use vstd::prelude::*;

pub mod client;
pub mod handlers;
pub mod json;
pub mod models;
pub mod response;
pub mod text;
pub mod wire;
