//! The boundary to the external wire-format codec.
//!
//! Marshaling and parsing of media and control packets is the job of outside
//! codec crates. Each call the pipeline makes goes through one trusted
//! wrapper here, and what a call returns is given an uninterpreted name: the
//! bytes of a packet, and the packet of some bytes, are functions of their
//! arguments alone, so the names pin every caller to the same value without
//! restating the wire format. Everything after a wrapper — dispatch over the
//! report family, filling a caller's buffer — is verified code.

use vstd::prelude::*;

use crate::errors::Error;
use crate::packet::{RtcpPacket, RtpPacket};
use webrtc_util::marshal::{Marshal, Unmarshal};

verus! {

/// The wire image of a media packet with these header fields and payload,
/// or `None` where the codec reports a marshal failure.
pub uninterp spec fn rtp_wire(
    sequence_number: u16,
    timestamp: u32,
    ssrc: u32,
    payload: Seq<u8>,
) -> Option<Seq<u8>>;

/// The media packet the codec parses out of `data`, or `None` where it
/// reports a parse failure.
pub uninterp spec fn rtp_decode(data: Seq<u8>) -> Option<crate::packet::RtpPacketModel>;

/// The wire image of a picture-loss indication, or `None` on a marshal
/// failure.
pub uninterp spec fn pli_wire(sender_ssrc: u32, media_ssrc: u32) -> Option<Seq<u8>>;

/// The sender and media source the codec parses out of a picture-loss
/// indication, or `None` on a parse failure.
pub uninterp spec fn pli_decode(data: Seq<u8>) -> Option<(u32, u32)>;

/// The wire image of a receiver report without report blocks, or `None` on
/// a marshal failure.
pub uninterp spec fn rr_wire(ssrc: u32) -> Option<Seq<u8>>;

/// The reporting source the codec parses out of a receiver report, or
/// `None` on a parse failure.
pub uninterp spec fn rr_decode(data: Seq<u8>) -> Option<u32>;

/// Relies on `rtp::packet::Packet::marshal` (through `webrtc_util`'s
/// `Marshal`): the bytes depend on the packet fields alone.
#[verifier::external_body]
pub(crate) fn marshal_rtp(p: &RtpPacket) -> (r: Result<Vec<u8>, Error>)
    ensures
        ({
            let w = rtp_wire(p.sequence_number, p.timestamp, p.ssrc, p.payload@);
            match r {
                Ok(b) => w matches Some(bs) && b@ == bs,
                Err(e) => w is None && e == Error::Transport,
            }
        }),
{
    let pkt = rtp::packet::Packet {
        header: rtp::header::Header {
            sequence_number: p.sequence_number,
            timestamp: p.timestamp,
            ssrc: p.ssrc,
            ..Default::default()
        },
        payload: bytes::Bytes::from(p.payload.clone()),
    };
    match pkt.marshal() {
        Ok(b) => Ok(b.to_vec()),
        Err(_) => Err(Error::Transport),
    }
}

/// Relies on `rtp::packet::Packet::unmarshal` (through `webrtc_util`'s
/// `Unmarshal`): the parsed packet depends on the bytes alone. The codec
/// reads a header-extension element's declared length without holding it
/// against what remains of the input, and its byte buffer aborts on an
/// over-read, so inputs with the extension bit set are kept out by the
/// precondition; `decode_rtp` refuses them up front. An input shorter than
/// a header is rejected by the codec before any byte is read.
#[verifier::external_body]
pub(crate) fn unmarshal_rtp(data: &Vec<u8>) -> (r: Result<RtpPacket, Error>)
    requires
        data@.len() < 12 || data@[0] & 0x10 == 0,
    ensures
        ({
            let d = rtp_decode(data@);
            match r {
                Ok(p) => d matches Some(m) && p@ == m,
                Err(e) => d is None && e == Error::Decode,
            }
        }),
{
    let mut b = &data[..];
    match rtp::packet::Packet::unmarshal(&mut b) {
        Ok(p) => Ok(RtpPacket {
            sequence_number: p.header.sequence_number,
            timestamp: p.header.timestamp,
            ssrc: p.header.ssrc,
            payload: p.payload.to_vec(),
        }),
        Err(_) => Err(Error::Decode),
    }
}

/// Relies on `rtcp::payload_feedbacks::picture_loss_indication::PictureLossIndication::marshal`:
/// the bytes depend on the two source identifiers alone.
#[verifier::external_body]
fn marshal_pli(sender_ssrc: u32, media_ssrc: u32) -> (r: Result<Vec<u8>, Error>)
    ensures
        ({
            let w = pli_wire(sender_ssrc, media_ssrc);
            match r {
                Ok(b) => w matches Some(bs) && b@ == bs,
                Err(e) => w is None && e == Error::Transport,
            }
        }),
{
    let pkt = rtcp::payload_feedbacks::picture_loss_indication::PictureLossIndication {
        sender_ssrc,
        media_ssrc,
    };
    match pkt.marshal() {
        Ok(b) => Ok(b.to_vec()),
        Err(_) => Err(Error::Transport),
    }
}

/// Relies on `PictureLossIndication::unmarshal`: the parsed indication
/// depends on the bytes alone.
#[verifier::external_body]
fn unmarshal_pli(data: &Vec<u8>) -> (r: Result<RtcpPacket, Error>)
    ensures
        ({
            let d = pli_decode(data@);
            match r {
                Ok(p) => d matches Some(t) && p == (RtcpPacket::PictureLossIndication {
                    sender_ssrc: t.0,
                    media_ssrc: t.1,
                }),
                Err(e) => d is None && e == Error::Decode,
            }
        }),
{
    let mut b = &data[..];
    match rtcp::payload_feedbacks::picture_loss_indication::PictureLossIndication::unmarshal(&mut b)
    {
        Ok(p) => Ok(RtcpPacket::PictureLossIndication {
            sender_ssrc: p.sender_ssrc,
            media_ssrc: p.media_ssrc,
        }),
        Err(_) => Err(Error::Decode),
    }
}

/// Relies on `rtcp::receiver_report::ReceiverReport::marshal`, applied to a
/// report without report blocks: the bytes depend on the reporting source
/// alone.
#[verifier::external_body]
fn marshal_rr(ssrc: u32) -> (r: Result<Vec<u8>, Error>)
    ensures
        ({
            let w = rr_wire(ssrc);
            match r {
                Ok(b) => w matches Some(bs) && b@ == bs,
                Err(e) => w is None && e == Error::Transport,
            }
        }),
{
    let pkt = rtcp::receiver_report::ReceiverReport { ssrc, ..Default::default() };
    match pkt.marshal() {
        Ok(b) => Ok(b.to_vec()),
        Err(_) => Err(Error::Transport),
    }
}

/// Relies on `ReceiverReport::unmarshal`: the parsed report depends on the
/// bytes alone. The report blocks, which this library does not model, are
/// dropped.
#[verifier::external_body]
fn unmarshal_rr(data: &Vec<u8>) -> (r: Result<RtcpPacket, Error>)
    ensures
        ({
            let d = rr_decode(data@);
            match r {
                Ok(p) => d matches Some(ssrc) && p == (RtcpPacket::ReceiverReport { ssrc }),
                Err(e) => d is None && e == Error::Decode,
            }
        }),
{
    let mut b = &data[..];
    match rtcp::receiver_report::ReceiverReport::unmarshal(&mut b) {
        Ok(p) => Ok(RtcpPacket::ReceiverReport { ssrc: p.ssrc }),
        Err(_) => Err(Error::Decode),
    }
}

/// The media packet some bytes decode to. A wire image carrying a header
/// extension is outside the family this library models — the packet model
/// has no extension fields — and is a decode failure; everything else is
/// the codec's parse.
pub open spec fn media_decode(data: Seq<u8>) -> Result<crate::packet::RtpPacketModel, Error> {
    if data.len() >= 12 && data[0] & 0x10 != 0 {
        Err(Error::Decode)
    } else {
        match rtp_decode(data) {
            Some(m) => Ok(m),
            None => Err(Error::Decode),
        }
    }
}

/// Decodes one media packet.
pub fn decode_rtp(data: &Vec<u8>) -> (r: Result<RtpPacket, Error>)
    ensures
        ({
            let d = media_decode(data@);
            match r {
                Ok(p) => d matches Ok(m) && p@ == m,
                Err(e) => d == Err::<crate::packet::RtpPacketModel, Error>(e),
            }
        }),
{
    if data.len() >= 12 {
        let b0 = data[0];
        if b0 & 0x10 != 0 {
            return Err(Error::Decode);
        }
    }
    unmarshal_rtp(data)
}

/// The packet-type octet of a receiver report.
pub const PT_RECEIVER_REPORT: u8 = 201;

/// The packet-type octet of the payload-specific feedback family, whose only
/// supported member is the picture-loss indication.
pub const PT_PAYLOAD_FEEDBACK: u8 = 206;

/// The wire image of a control packet: each variant marshals through its own
/// codec.
pub open spec fn rtcp_wire(p: RtcpPacket) -> Option<Seq<u8>> {
    match p {
        RtcpPacket::PictureLossIndication { sender_ssrc, media_ssrc } => pli_wire(
            sender_ssrc,
            media_ssrc,
        ),
        RtcpPacket::ReceiverReport { ssrc } => rr_wire(ssrc),
    }
}

/// Marshals one control packet.
pub fn marshal_rtcp(p: &RtcpPacket) -> (r: Result<Vec<u8>, Error>)
    ensures
        ({
            let w = rtcp_wire(*p);
            match r {
                Ok(b) => w matches Some(bs) && b@ == bs,
                Err(e) => w is None && e == Error::Transport,
            }
        }),
{
    match p {
        RtcpPacket::PictureLossIndication { sender_ssrc, media_ssrc } => marshal_pli(
            *sender_ssrc,
            *media_ssrc,
        ),
        RtcpPacket::ReceiverReport { ssrc } => marshal_rr(*ssrc),
    }
}

/// The control packet some bytes decode to: the packet-type octet picks the
/// variant, the variant's own codec parses the bytes. A wire image outside
/// the supported family is a decode failure.
pub open spec fn rtcp_decode(data: Seq<u8>) -> Result<RtcpPacket, Error> {
    if data.len() < 2 {
        Err(Error::Decode)
    } else if data[1] == PT_RECEIVER_REPORT {
        match rr_decode(data) {
            Some(ssrc) => Ok(RtcpPacket::ReceiverReport { ssrc }),
            None => Err(Error::Decode),
        }
    } else if data[1] == PT_PAYLOAD_FEEDBACK {
        match pli_decode(data) {
            Some(t) => Ok(RtcpPacket::PictureLossIndication { sender_ssrc: t.0, media_ssrc: t.1 }),
            None => Err(Error::Decode),
        }
    } else {
        Err(Error::Decode)
    }
}

/// Fills the leading bytes of `buf` with `src`, leaving the tail as it was.
fn fill_prefix(buf: &mut Vec<u8>, src: &Vec<u8>)
    requires
        src@.len() <= old(buf)@.len(),
    ensures
        final(buf)@.len() == old(buf)@.len(),
        final(buf)@.subrange(0, src@.len() as int) == src@,
        final(buf)@.skip(src@.len() as int) == old(buf)@.skip(src@.len() as int),
{
    let n = src.len();
    let mut i: usize = 0;
    while i < n
        invariant
            n == src@.len(),
            n <= buf@.len(),
            buf@.len() == old(buf)@.len(),
            i <= n,
            forall|j: int| 0 <= j < i ==> buf@[j] == src@[j],
            forall|j: int| i <= j < buf@.len() ==> buf@[j] == old(buf)@[j],
        decreases n - i,
    {
        buf[i] = src[i];
        i += 1;
    }
    proof {
        assert(final(buf)@.subrange(0, src@.len() as int) =~= src@);
        assert(final(buf)@.skip(src@.len() as int) =~= old(buf)@.skip(src@.len() as int));
    }
}

/// Reads one media packet's wire image into a caller-supplied buffer: the
/// innermost read step of the loopback stream. A buffer smaller than the
/// wire image gets `ShortBuffer` back and is left untouched, byte for byte.
pub fn marshal_rtp_into(p: &RtpPacket, buf: &mut Vec<u8>) -> (r: Result<usize, Error>)
    ensures
        ({
            let w = rtp_wire(p.sequence_number, p.timestamp, p.ssrc, p.payload@);
            match r {
                Ok(n) => {
                    &&& w matches Some(bs)
                    &&& n == bs.len()
                    &&& n <= old(buf)@.len()
                    &&& final(buf)@.len() == old(buf)@.len()
                    &&& final(buf)@.subrange(0, n as int) == bs
                    &&& final(buf)@.skip(n as int) == old(buf)@.skip(n as int)
                },
                Err(e) => final(buf)@ == old(buf)@ && ((e == Error::ShortBuffer && (
                w matches Some(bs) && bs.len() > old(buf)@.len())) || (e == Error::Transport
                    && w is None)),
            }
        }),
{
    match marshal_rtp(p) {
        Ok(bytes) => {
            if bytes.len() > buf.len() {
                Err(Error::ShortBuffer)
            } else {
                fill_prefix(buf, &bytes);
                Ok(bytes.len())
            }
        },
        Err(e) => Err(e),
    }
}

/// Reads one control packet's wire image into a caller-supplied buffer,
/// with the same short-buffer behaviour as its media counterpart.
pub fn marshal_rtcp_into(p: &RtcpPacket, buf: &mut Vec<u8>) -> (r: Result<usize, Error>)
    ensures
        ({
            let w = rtcp_wire(*p);
            match r {
                Ok(n) => {
                    &&& w matches Some(bs)
                    &&& n == bs.len()
                    &&& n <= old(buf)@.len()
                    &&& final(buf)@.len() == old(buf)@.len()
                    &&& final(buf)@.subrange(0, n as int) == bs
                    &&& final(buf)@.skip(n as int) == old(buf)@.skip(n as int)
                },
                Err(e) => final(buf)@ == old(buf)@ && ((e == Error::ShortBuffer && (
                w matches Some(bs) && bs.len() > old(buf)@.len())) || (e == Error::Transport
                    && w is None)),
            }
        }),
{
    match marshal_rtcp(p) {
        Ok(bytes) => {
            if bytes.len() > buf.len() {
                Err(Error::ShortBuffer)
            } else {
                fill_prefix(buf, &bytes);
                Ok(bytes.len())
            }
        },
        Err(e) => Err(e),
    }
}

/// Decodes one control packet.
pub fn decode_rtcp(data: &Vec<u8>) -> (r: Result<RtcpPacket, Error>)
    ensures
        r == rtcp_decode(data@),
{
    if data.len() < 2 {
        return Err(Error::Decode);
    }
    let pt = data[1];
    if pt == PT_RECEIVER_REPORT {
        unmarshal_rr(data)
    } else if pt == PT_PAYLOAD_FEEDBACK {
        unmarshal_pli(data)
    } else {
        Err(Error::Decode)
    }
}

} // verus!
