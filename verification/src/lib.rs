//! A verified session protocol over a native dynamic-tracing engine.
//!
//! The native engine (reached over a foreign interface by the embedding
//! program) owns probe resolution, script compilation and event collection.
//! This crate holds the part worth proving: the session state machine that
//! decides, from each native outcome, what the caller sees — the error
//! taxonomy, the capture buffer's drain discipline, and the two callback
//! policies the engine consults during a poll. The embedder performs the
//! foreign calls and hands their raw results (status and error codes, text
//! chunks, record action codes) to the functions here.

use vstd::prelude::*;

pub mod codes;
pub mod filter;
pub mod session;

pub use codes::WorkStatus;
pub use session::Dtrace;
pub use session::Phase;

verus! {

/// The single error kind: a native engine failure, carrying the integer code
/// the engine reported at the point of failure, unmodified.
#[derive(Debug, Clone, Copy, PartialEq, Eq, Structural)]
pub enum Error {
    DTrace(i32),
}

} // verus!
