//! The error taxonomy of the pipeline.

use vstd::prelude::*;

verus! {

/// Every failure a reader, writer or pump can surface.
///
/// `IoEof` is the expected, clean end of a read source; it terminates a pump
/// silently and is never forwarded to a consumer. `ShortBuffer` means the
/// caller's buffer was too small for the marshaled packet; the buffer is left
/// untouched and the call may be retried with a larger one. `Unbound` marks a
/// read or write attempted before the role was bound; the loopback harness
/// binds every role on construction, so it never produces it. `Decode` is a
/// codec parse failure, terminal for the stream's pump. `Transport` covers
/// every other underlying failure, also terminal for a pump.
#[derive(Clone, Copy, Debug, PartialEq, Eq, Structural)]
pub enum Error {
    IoEof,
    ShortBuffer,
    Unbound,
    Decode,
    Transport,
}

} // verus!
