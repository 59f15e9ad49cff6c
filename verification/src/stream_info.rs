//! The immutable description of one bound media stream.

use vstd::prelude::*;

verus! {

/// Identifiers and codec parameters supplied once when a stream is bound;
/// read-only to every interceptor. The all-zero default stands in when no
/// real session metadata is available, as in loopback mode.
#[derive(Clone, Copy, Debug, PartialEq, Eq, Structural)]
pub struct StreamInfo {
    /// The synchronization source the stream carries.
    pub ssrc: u32,
    /// The negotiated payload type of the stream's media.
    pub payload_type: u8,
    /// The clock rate of the media's timestamps, in hertz.
    pub clock_rate: u32,
}

impl Default for StreamInfo {
    /// The documented all-zero default.
    fn default() -> (r: StreamInfo)
        ensures
            r.ssrc == 0,
            r.payload_type == 0,
            r.clock_rate == 0,
    {
        StreamInfo { ssrc: 0, payload_type: 0, clock_rate: 0 }
    }
}

} // verus!
