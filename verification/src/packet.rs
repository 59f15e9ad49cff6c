//! The packet values that cross the pipeline.

use vstd::prelude::*;

verus! {

/// One media packet: a single encoded frame fragment with the header fields
/// the pipeline reads. The wire-format codec that turns it into bytes and
/// back is an external collaborator (see `codec`).
pub struct RtpPacket {
    pub sequence_number: u16,
    pub timestamp: u32,
    pub ssrc: u32,
    pub payload: Vec<u8>,
}

/// The mathematical value of an `RtpPacket`.
pub struct RtpPacketModel {
    pub sequence_number: u16,
    pub timestamp: u32,
    pub ssrc: u32,
    pub payload: Seq<u8>,
}

impl View for RtpPacket {
    type V = RtpPacketModel;

    open spec fn view(&self) -> RtpPacketModel {
        RtpPacketModel {
            sequence_number: self.sequence_number,
            timestamp: self.timestamp,
            ssrc: self.ssrc,
            payload: self.payload@,
        }
    }
}

impl RtpPacket {
    /// A packet with zeroed header fields and an empty payload.
    pub fn empty() -> (r: RtpPacket)
        ensures
            r.sequence_number == 0,
            r.timestamp == 0,
            r.ssrc == 0,
            r@.payload == Seq::<u8>::empty(),
    {
        RtpPacket { sequence_number: 0, timestamp: 0, ssrc: 0, payload: Vec::new() }
    }
}

impl Clone for RtpPacket {
    /// A deep copy of the packet, payload included.
    fn clone(&self) -> (r: Self)
        ensures
            r@ == self@,
    {
        let mut payload: Vec<u8> = Vec::new();
        let n = self.payload.len();
        let mut i: usize = 0;
        while i < n
            invariant
                n == self.payload@.len(),
                i <= n,
                payload@ == self.payload@.subrange(0, i as int),
            decreases n - i,
        {
            payload.push(self.payload[i]);
            i += 1;
        }
        proof {
            assert(payload@ == self.payload@);
        }
        RtpPacket {
            sequence_number: self.sequence_number,
            timestamp: self.timestamp,
            ssrc: self.ssrc,
            payload,
        }
    }
}

/// One control packet out of the report family this library models. The
/// family is open in the protocol; the harness supports these variants and
/// treats any other wire image as a decode failure.
#[derive(Clone, Copy, Debug, PartialEq, Eq, Structural)]
pub enum RtcpPacket {
    /// Asks the sender of `media_ssrc` for a new key frame.
    PictureLossIndication { sender_ssrc: u32, media_ssrc: u32 },
    /// A reception-statistics report from `ssrc` with no report blocks.
    ReceiverReport { ssrc: u32 },
}

impl RtcpPacket {
    /// The deep-clone operation every report variant supports, so that a
    /// chain can fan one received packet out to several consumers.
    pub fn cloned(&self) -> (r: RtcpPacket)
        ensures
            r == *self,
    {
        *self
    }
}

} // verus!
