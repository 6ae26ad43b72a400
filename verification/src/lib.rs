//! Typed throw and catch with explicit control flow.
//!
//! A throw starts a non-local exit that carries a payload. A boundary shields a
//! body, and turns an exit whose payload it recognises into the exceptional
//! branch of its own outcome; any other exit leaves the boundary unchanged and
//! travels on to the next enclosing one. The exit is an ordinary value,
//! [`Flow`], and the state that the mechanism keeps between a throw and the
//! boundary that meets it is an ordinary value too, [`Runtime`].

pub mod dbg;
pub mod error;
pub mod extensions;
pub mod future;
pub mod imp;
pub mod laws;
pub mod payload;
pub mod reporter;
pub mod result_like;

pub use dbg::{check_tid, Context, TryCatchContext, TryCatchContextGuard};
pub use error::{Location, OptionThrowNone, Uncatchable};
pub use extensions::{TryCatchFutExt, UnwrapThrow};
pub use future::{try_catch_fut, Poll, TryCatchFut};
pub use imp::{start_throw, throw, throw_none, try_catch, Runtime, RuntimeView};
pub use payload::{Flow, Payload, Tagged, TypeKey};
pub use reporter::{Diagnostics, Reporter};
pub use result_like::ResultLike;
