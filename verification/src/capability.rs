//! The four capability roles a chain link can fill.
//!
//! A bound writer maps the packet an application hands in to the packet it
//! passes to the next, inner writer; a bound reader maps the wire bytes the
//! inner reader produced to the bytes it hands outward. The innermost
//! capability of a stream — the delivery into an observation queue, or the
//! marshaling of an injected packet into the read buffer — is the stream's
//! own, so a chain link is exactly this transformation, and nesting links is
//! function composition. Each trait carries a specification function that
//! names the transformation, and the executable method is bound to it; a
//! bound capability is shared read-only state after binding, so the methods
//! take `&self`.

use vstd::prelude::*;

use crate::attributes::Attributes;
use crate::errors::Error;
use crate::packet::{RtcpPacket, RtpPacket, RtpPacketModel};

verus! {

/// A link of the outbound media path.
pub trait RTPWriter: Sized {
    /// What the link passes to the inner writer for a given packet and
    /// attribute bag, or the error it surfaces instead.
    spec fn write_spec(&self, p: RtpPacketModel, a: Map<u64, u64>) -> Result<
        (RtpPacketModel, Map<u64, u64>),
        Error,
    >;

    /// Transforms one outbound media packet.
    fn write(&self, pkt: &RtpPacket, attributes: &Attributes) -> (r: Result<
        (RtpPacket, Attributes),
        Error,
    >)
        ensures
            ({
                let s = self.write_spec(pkt@, attributes@);
                match r {
                    Ok(out) => s matches Ok(t) && out.0@ == t.0 && out.1@ == t.1,
                    Err(e) => s matches Err(e2) && e == e2,
                }
            }),
    ;
}

/// A link of the inbound media path, applied to the wire bytes the inner
/// reader produced, before they are decoded.
pub trait RTPReader: Sized {
    /// What the link hands outward for given wire bytes and attribute bag,
    /// or the error it surfaces instead.
    spec fn read_spec(&self, data: Seq<u8>, a: Map<u64, u64>) -> Result<
        (Seq<u8>, Map<u64, u64>),
        Error,
    >;

    /// Transforms one inbound wire image.
    fn read(&self, data: &Vec<u8>, attributes: &Attributes) -> (r: Result<
        (Vec<u8>, Attributes),
        Error,
    >)
        ensures
            ({
                let s = self.read_spec(data@, attributes@);
                match r {
                    Ok(out) => s matches Ok(t) && out.0@ == t.0 && out.1@ == t.1,
                    Err(e) => s matches Err(e2) && e == e2,
                }
            }),
    ;
}

/// A link of the outbound control path.
pub trait RTCPWriter: Sized {
    /// What the link passes to the inner writer for a given control packet
    /// and attribute bag, or the error it surfaces instead.
    spec fn write_spec(&self, p: RtcpPacket, a: Map<u64, u64>) -> Result<
        (RtcpPacket, Map<u64, u64>),
        Error,
    >;

    /// Transforms one outbound control packet.
    fn write(&self, pkt: &RtcpPacket, attributes: &Attributes) -> (r: Result<
        (RtcpPacket, Attributes),
        Error,
    >)
        ensures
            ({
                let s = self.write_spec(*pkt, attributes@);
                match r {
                    Ok(out) => s matches Ok(t) && out.0 == t.0 && out.1@ == t.1,
                    Err(e) => s matches Err(e2) && e == e2,
                }
            }),
    ;
}

/// A link of the inbound control path, applied to wire bytes before they
/// are decoded.
pub trait RTCPReader: Sized {
    /// What the link hands outward for given wire bytes and attribute bag,
    /// or the error it surfaces instead.
    spec fn read_spec(&self, data: Seq<u8>, a: Map<u64, u64>) -> Result<
        (Seq<u8>, Map<u64, u64>),
        Error,
    >;

    /// Transforms one inbound control wire image.
    fn read(&self, data: &Vec<u8>, attributes: &Attributes) -> (r: Result<
        (Vec<u8>, Attributes),
        Error,
    >)
        ensures
            ({
                let s = self.read_spec(data@, attributes@);
                match r {
                    Ok(out) => s matches Ok(t) && out.0@ == t.0 && out.1@ == t.1,
                    Err(e) => s matches Err(e2) && e == e2,
                }
            }),
    ;
}

} // verus!
