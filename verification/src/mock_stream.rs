//! A loopback stream: the test double of the interceptor contract.
//!
//! The stream binds an interceptor's four roles against itself as the
//! innermost capability, so that everything an application or the network
//! would observe is exposed as a queue: an injection queue per packet kind
//! stands in for the network's inbound side, an observation queue per kind
//! captures what the bound writers deliver, and a pump per kind drains the
//! bound readers — marshal, chain transform, decode — into the queues the
//! consumer reads. No real transfer happens anywhere; a write returns a
//! zero byte count.
//!
//! Against a real network the pumps would be concurrent tasks; here each
//! pump is a verified loop that runs when its stream is read, pauses
//! when its consumer-facing queue is full (the backpressure a real network
//! pump applies), and is finished for good once it forwards a terminal
//! failure or observes the injection side closed and drained.

use vstd::prelude::*;

use crate::attributes::Attributes;
use crate::capability::{RTCPReader, RTCPWriter, RTPReader, RTPWriter};
use crate::codec::{
    decode_rtcp, decode_rtp, marshal_rtcp, marshal_rtp, media_decode, rtcp_decode, rtcp_wire,
    rtp_wire,
};
use crate::errors::Error;
use crate::interceptor::Interceptor;
use crate::packet::{RtcpPacket, RtpPacket, RtpPacketModel};
use crate::queue::{PacketQueue, QUEUE_CAPACITY};
use crate::stream_info::StreamInfo;

verus! {

/// The pumps read through a buffer of one network MTU; a wire image that
/// does not fit is surfaced as a `ShortBuffer` failure.
pub const PUMP_BUFFER_LEN: usize = 1500;

/// What a media read stream yields: a decoded packet, or the single
/// terminal failure that ended the pump.
pub enum RTPWithError {
    Pkt(RtpPacket),
    Fail(Error),
}

/// The mathematical value of an `RTPWithError`.
pub enum RtpEntryModel {
    Pkt(RtpPacketModel),
    Fail(Error),
}

impl View for RTPWithError {
    type V = RtpEntryModel;

    open spec fn view(&self) -> RtpEntryModel {
        match self {
            RTPWithError::Pkt(p) => RtpEntryModel::Pkt(p@),
            RTPWithError::Fail(e) => RtpEntryModel::Fail(*e),
        }
    }
}

/// What a control read stream yields: a decoded packet, or the single
/// terminal failure that ended the pump.
#[derive(Clone, Copy, Debug, PartialEq, Eq, Structural)]
pub enum RTCPWithError {
    Pkt(RtcpPacket),
    Fail(Error),
}

/// The values of a media packet sequence.
pub open spec fn rtp_views(s: Seq<RtpPacket>) -> Seq<RtpPacketModel> {
    s.map_values(|p: RtpPacket| p@)
}

/// The values of a media entry sequence.
pub open spec fn rtp_entry_views(s: Seq<RTPWithError>) -> Seq<RtpEntryModel> {
    s.map_values(|e: RTPWithError| e@)
}

/// A loopback stream around the interceptor `I`, fully bound on
/// construction: binding is the one-time setup of a stream's lifetime, and
/// holding the bound links as plain fields makes a second binding
/// unrepresentable. The fields are public so that the contracts, which
/// relate whole pre- and post-states, can name them; they hold no hidden
/// invariant, and every method's behaviour is stated for every state.
pub struct MockStream<I: Interceptor> {
    /// The interceptor whose chain the stream exercises.
    pub interceptor: I,
    /// The bound outbound control link.
    pub rtcp_writer: I::RtcpW,
    /// The bound outbound media link.
    pub rtp_writer: I::RtpW,
    /// The bound inbound control link.
    pub rtcp_reader: I::RtcpR,
    /// The bound inbound media link.
    pub rtp_reader: I::RtpR,
    /// Injected control packets the control pump has not consumed yet.
    pub rtcp_in: PacketQueue<RtcpPacket>,
    /// Injected media packets the media pump has not consumed yet.
    pub rtp_in: PacketQueue<RtpPacket>,
    /// Control packets written through the chain, as the network would see
    /// them.
    pub rtcp_out_modified: PacketQueue<RtcpPacket>,
    /// Media packets written through the chain, as the network would see
    /// them.
    pub rtp_out_modified: PacketQueue<RtpPacket>,
    /// What the control pump has forwarded to the consumer.
    pub rtcp_in_modified: PacketQueue<RTCPWithError>,
    /// What the media pump has forwarded to the consumer.
    pub rtp_in_modified: PacketQueue<RTPWithError>,
    /// Whether the control pump can still run; false once it forwarded a
    /// terminal failure or drained a closed injection queue.
    pub rtcp_pump_live: bool,
    /// Whether the media pump can still run.
    pub rtp_pump_live: bool,
    /// Whether `close` has run.
    pub closed: bool,
}

/// How a send onto a bounded media queue relates its pre- and post-states:
/// appended when open and under capacity, dropped otherwise.
pub open spec fn rtp_pushed(
    pre: PacketQueue<RtpPacket>,
    post: PacketQueue<RtpPacket>,
    v: RtpPacketModel,
) -> bool {
    if pre.accepting && pre.items@.len() < QUEUE_CAPACITY {
        &&& post.accepting
        &&& post.items@.len() == pre.items@.len() + 1
        &&& post.items@.drop_last() == pre.items@
        &&& post.items@.last()@ == v
    } else {
        post == pre
    }
}

/// What one write of a media packet does: the bound chain transforms the
/// packet under an empty attribute bag; a transformed packet is published
/// onto the written-media queue and the call reports zero bytes sent, a
/// chain failure is surfaced unchanged and nothing is published.
pub open spec fn write_rtp_rel<I: Interceptor>(
    pre: MockStream<I>,
    post: MockStream<I>,
    p: RtpPacketModel,
    r: Result<usize, Error>,
) -> bool {
    match pre.rtp_writer.write_spec(p, Map::empty()) {
        Ok(t) => {
            &&& r == Ok::<usize, Error>(0)
            &&& rtp_pushed(pre.rtp_out_modified, post.rtp_out_modified, t.0)
            &&& post == (MockStream { rtp_out_modified: post.rtp_out_modified, ..pre })
        },
        Err(e) => r == Err::<usize, Error>(e) && post == pre,
    }
}

/// What one write of a control packet does, mirroring the media side.
pub open spec fn write_rtcp_rel<I: Interceptor>(
    pre: MockStream<I>,
    post: MockStream<I>,
    p: RtcpPacket,
    r: Result<usize, Error>,
) -> bool {
    match pre.rtcp_writer.write_spec(p, Map::empty()) {
        Ok(t) => {
            &&& r == Ok::<usize, Error>(0)
            &&& if pre.rtcp_out_modified.accepting && pre.rtcp_out_modified.items@.len()
                < QUEUE_CAPACITY {
                post.rtcp_out_modified.accepting && post.rtcp_out_modified.items@
                    == pre.rtcp_out_modified.items@.push(t.0)
            } else {
                post.rtcp_out_modified == pre.rtcp_out_modified
            }
            &&& post == (MockStream { rtcp_out_modified: post.rtcp_out_modified, ..pre })
        },
        Err(e) => r == Err::<usize, Error>(e) && post == pre,
    }
}

/// What injecting one media packet does: best-effort enqueue onto the
/// inbound queue, dropped silently when the queue is full or its producer
/// side is closed.
pub open spec fn receive_rtp_rel<I: Interceptor>(
    pre: MockStream<I>,
    post: MockStream<I>,
    p: RtpPacket,
) -> bool {
    &&& post == (MockStream { rtp_in: post.rtp_in, ..pre })
    &&& if pre.rtp_in.accepting && pre.rtp_in.items@.len() < QUEUE_CAPACITY {
        post.rtp_in.accepting && post.rtp_in.items@ == pre.rtp_in.items@.push(p)
    } else {
        post.rtp_in == pre.rtp_in
    }
}

/// What injecting one control packet does, mirroring the media side.
pub open spec fn receive_rtcp_rel<I: Interceptor>(
    pre: MockStream<I>,
    post: MockStream<I>,
    p: RtcpPacket,
) -> bool {
    &&& post == (MockStream { rtcp_in: post.rtcp_in, ..pre })
    &&& if pre.rtcp_in.accepting && pre.rtcp_in.items@.len() < QUEUE_CAPACITY {
        post.rtcp_in.accepting && post.rtcp_in.items@ == pre.rtcp_in.items@.push(p)
    } else {
        post.rtcp_in == pre.rtcp_in
    }
}

/// What closing the stream does. The first close tears down both injection
/// producers — queued packets stay drainable — and cascades to the
/// interceptor exactly once; any later close is a no-op that succeeds.
pub open spec fn close_rel<I: Interceptor>(
    pre: MockStream<I>,
    post: MockStream<I>,
    r: Result<(), Error>,
) -> bool {
    if pre.closed {
        r == Ok::<(), Error>(()) && post == pre
    } else {
        &&& r == pre.interceptor.close_result()
        &&& post.closed
        &&& !post.rtp_in.accepting
        &&& post.rtp_in.items@ == pre.rtp_in.items@
        &&& !post.rtcp_in.accepting
        &&& post.rtcp_in.items@ == pre.rtcp_in.items@
        &&& post.rtp_writer == pre.rtp_writer
        &&& post.rtcp_writer == pre.rtcp_writer
        &&& post.rtp_reader == pre.rtp_reader
        &&& post.rtcp_reader == pre.rtcp_reader
        &&& post.rtp_out_modified == pre.rtp_out_modified
        &&& post.rtcp_out_modified == pre.rtcp_out_modified
        &&& post.rtp_in_modified == pre.rtp_in_modified
        &&& post.rtcp_in_modified == pre.rtcp_in_modified
        &&& post.rtp_pump_live == pre.rtp_pump_live
        &&& post.rtcp_pump_live == pre.rtcp_pump_live
    }
}

impl<I: Interceptor> MockStream<I> {
    /// Builds a loopback stream around `interceptor`, binding the four
    /// roles in a fixed order — control writer, local media stream,
    /// control reader, remote media stream — each against the stream
    /// itself as the innermost capability.
    pub fn new(info: &StreamInfo, interceptor: I) -> (s: MockStream<I>)
        ensures
            s.interceptor == interceptor,
            s.rtcp_writer == interceptor.rtcp_writer_link(),
            s.rtp_writer == interceptor.local_stream_link(*info),
            s.rtcp_reader == interceptor.rtcp_reader_link(),
            s.rtp_reader == interceptor.remote_stream_link(*info),
            s.rtp_in.items@ == Seq::<RtpPacket>::empty() && s.rtp_in.accepting,
            s.rtcp_in.items@ == Seq::<RtcpPacket>::empty() && s.rtcp_in.accepting,
            s.rtp_out_modified.items@ == Seq::<RtpPacket>::empty() && s.rtp_out_modified.accepting,
            s.rtcp_out_modified.items@ == Seq::<RtcpPacket>::empty()
                && s.rtcp_out_modified.accepting,
            s.rtp_in_modified.items@ == Seq::<RTPWithError>::empty() && s.rtp_in_modified.accepting,
            s.rtcp_in_modified.items@ == Seq::<RTCPWithError>::empty()
                && s.rtcp_in_modified.accepting,
            s.rtp_pump_live && s.rtcp_pump_live && !s.closed,
    {
        let rtcp_writer = interceptor.bind_rtcp_writer();
        let rtp_writer = interceptor.bind_local_stream(info);
        let rtcp_reader = interceptor.bind_rtcp_reader();
        let rtp_reader = interceptor.bind_remote_stream(info);
        MockStream {
            interceptor,
            rtcp_writer,
            rtp_writer,
            rtcp_reader,
            rtp_reader,
            rtcp_in: PacketQueue::new(),
            rtp_in: PacketQueue::new(),
            rtcp_out_modified: PacketQueue::new(),
            rtp_out_modified: PacketQueue::new(),
            rtcp_in_modified: PacketQueue::new(),
            rtp_in_modified: PacketQueue::new(),
            rtcp_pump_live: true,
            rtp_pump_live: true,
            closed: false,
        }
    }

    /// Writes one media packet through the bound chain; what the chain
    /// passes down is published on the written-media stream. A full
    /// observation queue drops the output rather than blocking: this is a
    /// loopback path, where best effort is the documented policy — a
    /// writer backed by a real network would apply backpressure instead.
    pub fn write_rtp(&mut self, pkt: &RtpPacket) -> (r: Result<usize, Error>)
        ensures
            write_rtp_rel(*old(self), *final(self), pkt@, r),
    {
        let attributes = Attributes::new();
        match self.rtp_writer.write(pkt, &attributes) {
            Ok(out) => {
                let _ = self.rtp_out_modified.try_send(out.0);
                proof {
                    if old(self).rtp_out_modified.accepting && old(
                        self,
                    ).rtp_out_modified.items@.len() < QUEUE_CAPACITY {
                        assert(self.rtp_out_modified.items@.drop_last() =~= old(
                            self,
                        ).rtp_out_modified.items@);
                    }
                }
                Ok(0)
            },
            Err(e) => Err(e),
        }
    }

    /// Writes one control packet through the bound chain; what the chain
    /// passes down is published on the written-control stream, with the
    /// same best-effort policy on a full queue as the media side.
    pub fn write_rtcp(&mut self, pkt: &RtcpPacket) -> (r: Result<usize, Error>)
        ensures
            write_rtcp_rel(*old(self), *final(self), *pkt, r),
    {
        let attributes = Attributes::new();
        match self.rtcp_writer.write(pkt, &attributes) {
            Ok(out) => {
                let _ = self.rtcp_out_modified.try_send(out.0);
                Ok(0)
            },
            Err(e) => Err(e),
        }
    }

    /// Injects one media packet on the inbound side, as if it arrived from
    /// the network: best effort, never blocking, dropped after close.
    pub fn receive_rtp(&mut self, pkt: RtpPacket)
        ensures
            receive_rtp_rel(*old(self), *final(self), pkt),
    {
        let _ = self.rtp_in.try_send(pkt);
    }

    /// Injects one control packet on the inbound side.
    pub fn receive_rtcp(&mut self, pkt: RtcpPacket)
        ensures
            receive_rtcp_rel(*old(self), *final(self), pkt),
    {
        let _ = self.rtcp_in.try_send(pkt);
    }

    /// The oldest not-yet-observed packet the chain wrote to the media
    /// side, or `None` when everything written has been observed.
    pub fn written_rtp(&mut self) -> (r: Option<RtpPacket>)
        ensures
            *final(self) == (MockStream { rtp_out_modified: final(self).rtp_out_modified, ..*old(
                self,
            ) }),
            match r {
                Some(p) => {
                    &&& old(self).rtp_out_modified.items@.len() > 0
                    &&& p == old(self).rtp_out_modified.items@[0]
                    &&& final(self).rtp_out_modified.items@ == old(
                        self,
                    ).rtp_out_modified.items@.drop_first()
                    &&& final(self).rtp_out_modified.accepting == old(
                        self,
                    ).rtp_out_modified.accepting
                },
                None => old(self).rtp_out_modified.items@.len() == 0 && *final(self) == *old(self),
            },
    {
        self.rtp_out_modified.recv()
    }

    /// The oldest not-yet-observed packet the chain wrote to the control
    /// side.
    pub fn written_rtcp(&mut self) -> (r: Option<RtcpPacket>)
        ensures
            *final(self) == (MockStream { rtcp_out_modified: final(self).rtcp_out_modified, ..*old(
                self,
            ) }),
            match r {
                Some(p) => {
                    &&& old(self).rtcp_out_modified.items@.len() > 0
                    &&& p == old(self).rtcp_out_modified.items@[0]
                    &&& final(self).rtcp_out_modified.items@ == old(
                        self,
                    ).rtcp_out_modified.items@.drop_first()
                    &&& final(self).rtcp_out_modified.accepting == old(
                        self,
                    ).rtcp_out_modified.accepting
                },
                None => old(self).rtcp_out_modified.items@.len() == 0 && *final(self) == *old(self),
            },
    {
        self.rtcp_out_modified.recv()
    }

    /// Closes the stream: tears down both injection producers, so pumps
    /// stop receiving new packets, and cascades to the interceptor's own
    /// close. Closing is idempotent — a second call re-enters nothing and
    /// succeeds.
    pub fn close(&mut self) -> (r: Result<(), Error>)
        ensures
            close_rel(*old(self), *final(self), r),
    {
        if self.closed {
            Ok(())
        } else {
            self.rtp_in.close_producer();
            self.rtcp_in.close_producer();
            self.closed = true;
            self.interceptor.close()
        }
    }
}

/// What one pump step makes of one injected media packet: marshal it
/// through the codec, feed the wire image through the bound read chain
/// under an empty attribute bag, decode what comes back. Yields the entry
/// forwarded to the consumer and whether it is terminal for the pump: a
/// decoded packet is not, every failure is.
pub open spec fn rtp_step<R: RTPReader>(reader: R, p: RtpPacketModel) -> (RtpEntryModel, bool) {
    match rtp_wire(p.sequence_number, p.timestamp, p.ssrc, p.payload) {
        Some(w) => if w.len() > PUMP_BUFFER_LEN as int {
            (RtpEntryModel::Fail(Error::ShortBuffer), true)
        } else {
            match reader.read_spec(w, Map::empty()) {
                Ok(t) => match media_decode(t.0) {
                    Ok(q) => (RtpEntryModel::Pkt(q), false),
                    Err(e) => (RtpEntryModel::Fail(e), true),
                },
                Err(e) => (RtpEntryModel::Fail(e), true),
            }
        },
        None => (RtpEntryModel::Fail(Error::Transport), true),
    }
}

/// What one pump step makes of one injected control packet.
pub open spec fn rtcp_step<R: RTCPReader>(reader: R, p: RtcpPacket) -> (RTCPWithError, bool) {
    match rtcp_wire(p) {
        Some(w) => if w.len() > PUMP_BUFFER_LEN as int {
            (RTCPWithError::Fail(Error::ShortBuffer), true)
        } else {
            match reader.read_spec(w, Map::empty()) {
                Ok(t) => match rtcp_decode(t.0) {
                    Ok(q) => (RTCPWithError::Pkt(q), false),
                    Err(e) => (RTCPWithError::Fail(e), true),
                },
                Err(e) => (RTCPWithError::Fail(e), true),
            }
        },
        None => (RTCPWithError::Fail(Error::Transport), true),
    }
}

/// What a media pump run does to a queue state: how many injected packets
/// it consumes, the entries it forwards in order, and whether it is still
/// live afterwards. It stops on a full consumer queue (`room` exhausted,
/// the backpressure case), on a drained injection queue — for good when
/// that queue's producer side is closed, the end-of-stream case — and for
/// good right after forwarding a terminal entry.
pub open spec fn rtp_pump_model<R: RTPReader>(
    reader: R,
    ins: Seq<RtpPacketModel>,
    in_open: bool,
    room: int,
    live: bool,
) -> (int, Seq<RtpEntryModel>, bool)
    decreases ins.len(),
{
    if !live {
        (0int, Seq::<RtpEntryModel>::empty(), false)
    } else if room <= 0 {
        (0int, Seq::<RtpEntryModel>::empty(), true)
    } else if ins.len() == 0 {
        (0int, Seq::<RtpEntryModel>::empty(), in_open)
    } else {
        let st = rtp_step(reader, ins[0]);
        if st.1 {
            (1int, seq![st.0], false)
        } else {
            let rest = rtp_pump_model(reader, ins.drop_first(), in_open, room - 1, true);
            (1 + rest.0, seq![st.0] + rest.1, rest.2)
        }
    }
}

/// What a control pump run does to a queue state.
pub open spec fn rtcp_pump_model<R: RTCPReader>(
    reader: R,
    ins: Seq<RtcpPacket>,
    in_open: bool,
    room: int,
    live: bool,
) -> (int, Seq<RTCPWithError>, bool)
    decreases ins.len(),
{
    if !live {
        (0int, Seq::<RTCPWithError>::empty(), false)
    } else if room <= 0 {
        (0int, Seq::<RTCPWithError>::empty(), true)
    } else if ins.len() == 0 {
        (0int, Seq::<RTCPWithError>::empty(), in_open)
    } else {
        let st = rtcp_step(reader, ins[0]);
        if st.1 {
            (1int, seq![st.0], false)
        } else {
            let rest = rtcp_pump_model(reader, ins.drop_first(), in_open, room - 1, true);
            (1 + rest.0, seq![st.0] + rest.1, rest.2)
        }
    }
}

/// How many entries the media consumer queue can still take.
pub open spec fn rtp_room<I: Interceptor>(s: MockStream<I>) -> int {
    if s.rtp_in_modified.accepting {
        QUEUE_CAPACITY - s.rtp_in_modified.items@.len()
    } else {
        0int
    }
}

/// How many entries the control consumer queue can still take.
pub open spec fn rtcp_room<I: Interceptor>(s: MockStream<I>) -> int {
    if s.rtcp_in_modified.accepting {
        QUEUE_CAPACITY - s.rtcp_in_modified.items@.len()
    } else {
        0int
    }
}

/// The media pump run the state `s` is due for.
pub open spec fn rtp_pump_fix<I: Interceptor>(s: MockStream<I>) -> (int, Seq<RtpEntryModel>, bool) {
    rtp_pump_model(
        s.rtp_reader,
        rtp_views(s.rtp_in.items@),
        s.rtp_in.accepting,
        rtp_room(s),
        s.rtp_pump_live,
    )
}

/// The control pump run the state `s` is due for.
pub open spec fn rtcp_pump_fix<I: Interceptor>(s: MockStream<I>) -> (
    int,
    Seq<RTCPWithError>,
    bool,
) {
    rtcp_pump_model(
        s.rtcp_reader,
        s.rtcp_in.items@,
        s.rtcp_in.accepting,
        rtcp_room(s),
        s.rtcp_pump_live,
    )
}

/// What one media pump run does to the stream.
pub open spec fn rtp_pump_rel<I: Interceptor>(pre: MockStream<I>, post: MockStream<I>) -> bool {
    let m = rtp_pump_fix(pre);
    &&& post == (MockStream {
        rtp_in: post.rtp_in,
        rtp_in_modified: post.rtp_in_modified,
        rtp_pump_live: post.rtp_pump_live,
        ..pre
    })
    &&& post.rtp_in.items@ == pre.rtp_in.items@.skip(m.0)
    &&& post.rtp_in.accepting == pre.rtp_in.accepting
    &&& post.rtp_in_modified.accepting == pre.rtp_in_modified.accepting
    &&& rtp_entry_views(post.rtp_in_modified.items@) == rtp_entry_views(
        pre.rtp_in_modified.items@,
    ) + m.1
    &&& post.rtp_pump_live == m.2
}

/// What one control pump run does to the stream.
pub open spec fn rtcp_pump_rel<I: Interceptor>(pre: MockStream<I>, post: MockStream<I>) -> bool {
    let m = rtcp_pump_fix(pre);
    &&& post == (MockStream {
        rtcp_in: post.rtcp_in,
        rtcp_in_modified: post.rtcp_in_modified,
        rtcp_pump_live: post.rtcp_pump_live,
        ..pre
    })
    &&& post.rtcp_in.items@ == pre.rtcp_in.items@.skip(m.0)
    &&& post.rtcp_in.accepting == pre.rtcp_in.accepting
    &&& post.rtcp_in_modified.accepting == pre.rtcp_in_modified.accepting
    &&& post.rtcp_in_modified.items@ == pre.rtcp_in_modified.items@ + m.1
    &&& post.rtcp_pump_live == m.2
}

/// What one poll of the media read stream does: the due pump run, then a
/// dequeue of the oldest forwarded entry.
pub open spec fn read_rtp_rel<I: Interceptor>(
    pre: MockStream<I>,
    post: MockStream<I>,
    r: Option<RTPWithError>,
) -> bool {
    let m = rtp_pump_fix(pre);
    let entries = rtp_entry_views(pre.rtp_in_modified.items@) + m.1;
    &&& post == (MockStream {
        rtp_in: post.rtp_in,
        rtp_in_modified: post.rtp_in_modified,
        rtp_pump_live: post.rtp_pump_live,
        ..pre
    })
    &&& post.rtp_in.items@ == pre.rtp_in.items@.skip(m.0)
    &&& post.rtp_in.accepting == pre.rtp_in.accepting
    &&& post.rtp_in_modified.accepting == pre.rtp_in_modified.accepting
    &&& post.rtp_pump_live == m.2
    &&& match r {
        Some(e) => entries.len() > 0 && e@ == entries[0] && rtp_entry_views(
            post.rtp_in_modified.items@,
        ) == entries.drop_first(),
        None => entries.len() == 0 && rtp_entry_views(post.rtp_in_modified.items@) == entries,
    }
}

/// What one poll of the control read stream does.
pub open spec fn read_rtcp_rel<I: Interceptor>(
    pre: MockStream<I>,
    post: MockStream<I>,
    r: Option<RTCPWithError>,
) -> bool {
    let m = rtcp_pump_fix(pre);
    let entries = pre.rtcp_in_modified.items@ + m.1;
    &&& post == (MockStream {
        rtcp_in: post.rtcp_in,
        rtcp_in_modified: post.rtcp_in_modified,
        rtcp_pump_live: post.rtcp_pump_live,
        ..pre
    })
    &&& post.rtcp_in.items@ == pre.rtcp_in.items@.skip(m.0)
    &&& post.rtcp_in.accepting == pre.rtcp_in.accepting
    &&& post.rtcp_in_modified.accepting == pre.rtcp_in_modified.accepting
    &&& post.rtcp_pump_live == m.2
    &&& match r {
        Some(e) => entries.len() > 0 && e == entries[0] && post.rtcp_in_modified.items@
            == entries.drop_first(),
        None => entries.len() == 0 && post.rtcp_in_modified.items@ == entries,
    }
}

/// A pump consumes exactly as many packets as it forwards entries, and
/// never more than are queued.
pub proof fn lemma_rtp_pump_model_bounds<R: RTPReader>(
    reader: R,
    ins: Seq<RtpPacketModel>,
    in_open: bool,
    room: int,
    live: bool,
)
    ensures
        ({
            let m = rtp_pump_model(reader, ins, in_open, room, live);
            0 <= m.0 <= ins.len() && m.1.len() == m.0
        }),
    decreases ins.len(),
{
    if live && room > 0 && ins.len() > 0 {
        let st = rtp_step(reader, ins[0]);
        if !st.1 {
            lemma_rtp_pump_model_bounds(reader, ins.drop_first(), in_open, room - 1, true);
        }
    }
}

/// The control counterpart of the bounds lemma.
pub proof fn lemma_rtcp_pump_model_bounds<R: RTCPReader>(
    reader: R,
    ins: Seq<RtcpPacket>,
    in_open: bool,
    room: int,
    live: bool,
)
    ensures
        ({
            let m = rtcp_pump_model(reader, ins, in_open, room, live);
            0 <= m.0 <= ins.len() && m.1.len() == m.0
        }),
    decreases ins.len(),
{
    if live && room > 0 && ins.len() > 0 {
        let st = rtcp_step(reader, ins[0]);
        if !st.1 {
            lemma_rtcp_pump_model_bounds(reader, ins.drop_first(), in_open, room - 1, true);
        }
    }
}

impl<I: Interceptor> MockStream<I> {
    /// Runs the media pump until it must pause or is finished: pop an
    /// injected packet, marshal it, feed the wire image through the bound
    /// read chain, decode, forward the entry — and stop for good after a
    /// terminal entry or once the closed injection queue is drained.
    fn pump_rtp(&mut self)
        ensures
            rtp_pump_rel(*old(self), *final(self)),
    {
        loop
            invariant
                *self == (MockStream {
                    rtp_in: self.rtp_in,
                    rtp_in_modified: self.rtp_in_modified,
                    rtp_pump_live: self.rtp_pump_live,
                    ..*old(self)
                }),
                self.rtp_in.accepting == old(self).rtp_in.accepting,
                self.rtp_in_modified.accepting == old(self).rtp_in_modified.accepting,
                rtp_pump_fix(*old(self)).2 == rtp_pump_fix(*self).2,
                old(self).rtp_in.items@.skip(rtp_pump_fix(*old(self)).0) == self.rtp_in.items@.skip(
                    rtp_pump_fix(*self).0,
                ),
                rtp_entry_views(old(self).rtp_in_modified.items@) + rtp_pump_fix(*old(self)).1
                    == rtp_entry_views(self.rtp_in_modified.items@) + rtp_pump_fix(*self).1,
            ensures
                rtp_pump_rel(*old(self), *self),
            decreases self.rtp_in.items@.len() + (if self.rtp_pump_live {
                1int
            } else {
                0int
            }),
        {
            let ghost top = *self;
            proof {
                lemma_rtp_pump_model_bounds(
                    top.rtp_reader,
                    rtp_views(top.rtp_in.items@),
                    top.rtp_in.accepting,
                    rtp_room(top),
                    top.rtp_pump_live,
                );
                lemma_rtp_pump_model_bounds(
                    old(self).rtp_reader,
                    rtp_views(old(self).rtp_in.items@),
                    old(self).rtp_in.accepting,
                    rtp_room(*old(self)),
                    old(self).rtp_pump_live,
                );
            }
            if !self.rtp_pump_live {
                proof {
                    lemma_pump_exit_rtp(*old(self), top);
                }
                break;
            }
            if !self.rtp_in_modified.is_accepting() || self.rtp_in_modified.len()
                >= QUEUE_CAPACITY {
                proof {
                    lemma_pump_exit_rtp(*old(self), top);
                }
                break;
            }
            let popped = self.rtp_in.recv();
            match popped {
                None => {
                    if !self.rtp_in.is_accepting() {
                        self.rtp_pump_live = false;
                    }
                    proof {
                        lemma_pump_exit_rtp(*old(self), *self);
                    }
                    break;
                },
                Some(pkt) => {
                    let ghost st = rtp_step(top.rtp_reader, pkt@);
                    let entry: RTPWithError;
                    let terminal: bool;
                    match marshal_rtp(&pkt) {
                        Err(e) => {
                            entry = RTPWithError::Fail(e);
                            terminal = true;
                        },
                        Ok(bytes) => {
                            if bytes.len() > PUMP_BUFFER_LEN {
                                entry = RTPWithError::Fail(Error::ShortBuffer);
                                terminal = true;
                            } else {
                                let attributes = Attributes::new();
                                match self.rtp_reader.read(&bytes, &attributes) {
                                    Err(e) => {
                                        entry = RTPWithError::Fail(e);
                                        terminal = true;
                                    },
                                    Ok(out) => {
                                        match decode_rtp(&out.0) {
                                            Ok(q) => {
                                                entry = RTPWithError::Pkt(q);
                                                terminal = false;
                                            },
                                            Err(e) => {
                                                entry = RTPWithError::Fail(e);
                                                terminal = true;
                                            },
                                        }
                                    },
                                }
                            }
                        },
                    }
                    proof {
                        assert(entry@ == st.0 && terminal == st.1);
                    }
                    let _ = self.rtp_in_modified.try_send(entry);
                    if terminal {
                        self.rtp_pump_live = false;
                    }
                    proof {
                        lemma_pump_iteration_rtp(*old(self), top, *self, pkt, entry, terminal);
                    }
                },
            }
        }
    }

    /// Runs the control pump, mirroring the media pump.
    fn pump_rtcp(&mut self)
        ensures
            rtcp_pump_rel(*old(self), *final(self)),
    {
        loop
            invariant
                *self == (MockStream {
                    rtcp_in: self.rtcp_in,
                    rtcp_in_modified: self.rtcp_in_modified,
                    rtcp_pump_live: self.rtcp_pump_live,
                    ..*old(self)
                }),
                self.rtcp_in.accepting == old(self).rtcp_in.accepting,
                self.rtcp_in_modified.accepting == old(self).rtcp_in_modified.accepting,
                rtcp_pump_fix(*old(self)).2 == rtcp_pump_fix(*self).2,
                old(self).rtcp_in.items@.skip(rtcp_pump_fix(*old(self)).0)
                    == self.rtcp_in.items@.skip(rtcp_pump_fix(*self).0),
                old(self).rtcp_in_modified.items@ + rtcp_pump_fix(*old(self)).1
                    == self.rtcp_in_modified.items@ + rtcp_pump_fix(*self).1,
            ensures
                rtcp_pump_rel(*old(self), *self),
            decreases self.rtcp_in.items@.len() + (if self.rtcp_pump_live {
                1int
            } else {
                0int
            }),
        {
            let ghost top = *self;
            proof {
                lemma_rtcp_pump_model_bounds(
                    top.rtcp_reader,
                    top.rtcp_in.items@,
                    top.rtcp_in.accepting,
                    rtcp_room(top),
                    top.rtcp_pump_live,
                );
                lemma_rtcp_pump_model_bounds(
                    old(self).rtcp_reader,
                    old(self).rtcp_in.items@,
                    old(self).rtcp_in.accepting,
                    rtcp_room(*old(self)),
                    old(self).rtcp_pump_live,
                );
            }
            if !self.rtcp_pump_live {
                proof {
                    lemma_pump_exit_rtcp(*old(self), top);
                }
                break;
            }
            if !self.rtcp_in_modified.is_accepting() || self.rtcp_in_modified.len()
                >= QUEUE_CAPACITY {
                proof {
                    lemma_pump_exit_rtcp(*old(self), top);
                }
                break;
            }
            let popped = self.rtcp_in.recv();
            match popped {
                None => {
                    if !self.rtcp_in.is_accepting() {
                        self.rtcp_pump_live = false;
                    }
                    proof {
                        lemma_pump_exit_rtcp(*old(self), *self);
                    }
                    break;
                },
                Some(pkt) => {
                    let ghost st = rtcp_step(top.rtcp_reader, pkt);
                    let entry: RTCPWithError;
                    let terminal: bool;
                    match marshal_rtcp(&pkt) {
                        Err(e) => {
                            entry = RTCPWithError::Fail(e);
                            terminal = true;
                        },
                        Ok(bytes) => {
                            if bytes.len() > PUMP_BUFFER_LEN {
                                entry = RTCPWithError::Fail(Error::ShortBuffer);
                                terminal = true;
                            } else {
                                let attributes = Attributes::new();
                                match self.rtcp_reader.read(&bytes, &attributes) {
                                    Err(e) => {
                                        entry = RTCPWithError::Fail(e);
                                        terminal = true;
                                    },
                                    Ok(out) => {
                                        match decode_rtcp(&out.0) {
                                            Ok(q) => {
                                                entry = RTCPWithError::Pkt(q);
                                                terminal = false;
                                            },
                                            Err(e) => {
                                                entry = RTCPWithError::Fail(e);
                                                terminal = true;
                                            },
                                        }
                                    },
                                }
                            }
                        },
                    }
                    proof {
                        assert(entry == st.0 && terminal == st.1);
                    }
                    let _ = self.rtcp_in_modified.try_send(entry);
                    if terminal {
                        self.rtcp_pump_live = false;
                    }
                    proof {
                        lemma_pump_iteration_rtcp(*old(self), top, *self, pkt, entry, terminal);
                    }
                },
            }
        }
    }

    /// Polls the media read stream: what the pump has decoded and
    /// forwarded, oldest first; `None` while nothing is pending.
    pub fn read_rtp(&mut self) -> (r: Option<RTPWithError>)
        ensures
            read_rtp_rel(*old(self), *final(self), r),
    {
        self.pump_rtp();
        let ghost mid = *self;
        let r = self.rtp_in_modified.recv();
        proof {
            let m = rtp_pump_fix(*old(self));
            let entries = rtp_entry_views(old(self).rtp_in_modified.items@) + m.1;
            assert(rtp_entry_views(mid.rtp_in_modified.items@) == entries);
            match &r {
                Some(e) => {
                    assert(*e == mid.rtp_in_modified.items@[0]);
                    assert(entries[0] == rtp_entry_views(mid.rtp_in_modified.items@)[0]);
                    assert(rtp_entry_views(mid.rtp_in_modified.items@.drop_first())
                        =~= rtp_entry_views(mid.rtp_in_modified.items@).drop_first());
                },
                None => {
                    assert(rtp_entry_views(mid.rtp_in_modified.items@).len()
                        == mid.rtp_in_modified.items@.len());
                },
            }
        }
        r
    }

    /// Polls the control read stream.
    pub fn read_rtcp(&mut self) -> (r: Option<RTCPWithError>)
        ensures
            read_rtcp_rel(*old(self), *final(self), r),
    {
        self.pump_rtcp();
        self.rtcp_in_modified.recv()
    }
}

/// At a pump pause point — the pump no longer live, the consumer queue
/// full, or the injection queue drained — the due run does nothing, so the
/// loop's running summary is the whole run.
proof fn lemma_pump_exit_rtp<I: Interceptor>(pre: MockStream<I>, cur: MockStream<I>)
    requires
        cur == (MockStream {
            rtp_in: cur.rtp_in,
            rtp_in_modified: cur.rtp_in_modified,
            rtp_pump_live: cur.rtp_pump_live,
            ..pre
        }),
        cur.rtp_in.accepting == pre.rtp_in.accepting,
        cur.rtp_in_modified.accepting == pre.rtp_in_modified.accepting,
        rtp_pump_fix(pre).2 == rtp_pump_fix(cur).2,
        pre.rtp_in.items@.skip(rtp_pump_fix(pre).0) == cur.rtp_in.items@.skip(rtp_pump_fix(cur).0),
        rtp_entry_views(pre.rtp_in_modified.items@) + rtp_pump_fix(pre).1 == rtp_entry_views(
            cur.rtp_in_modified.items@,
        ) + rtp_pump_fix(cur).1,
        rtp_pump_fix(cur).0 == 0,
        rtp_pump_fix(cur).1 == Seq::<RtpEntryModel>::empty(),
        rtp_pump_fix(cur).2 == cur.rtp_pump_live,
    ensures
        rtp_pump_rel(pre, cur),
{
    lemma_rtp_pump_model_bounds(
        pre.rtp_reader,
        rtp_views(pre.rtp_in.items@),
        pre.rtp_in.accepting,
        rtp_room(pre),
        pre.rtp_pump_live,
    );
    assert(cur.rtp_in.items@.skip(0) =~= cur.rtp_in.items@);
    assert(rtp_entry_views(pre.rtp_in_modified.items@) + rtp_pump_fix(pre).1 =~= rtp_entry_views(
        cur.rtp_in_modified.items@,
    ));
}

/// The control counterpart of the pause-point lemma.
proof fn lemma_pump_exit_rtcp<I: Interceptor>(pre: MockStream<I>, cur: MockStream<I>)
    requires
        cur == (MockStream {
            rtcp_in: cur.rtcp_in,
            rtcp_in_modified: cur.rtcp_in_modified,
            rtcp_pump_live: cur.rtcp_pump_live,
            ..pre
        }),
        cur.rtcp_in.accepting == pre.rtcp_in.accepting,
        cur.rtcp_in_modified.accepting == pre.rtcp_in_modified.accepting,
        rtcp_pump_fix(pre).2 == rtcp_pump_fix(cur).2,
        pre.rtcp_in.items@.skip(rtcp_pump_fix(pre).0) == cur.rtcp_in.items@.skip(
            rtcp_pump_fix(cur).0,
        ),
        pre.rtcp_in_modified.items@ + rtcp_pump_fix(pre).1 == cur.rtcp_in_modified.items@
            + rtcp_pump_fix(cur).1,
        rtcp_pump_fix(cur).0 == 0,
        rtcp_pump_fix(cur).1 == Seq::<RTCPWithError>::empty(),
        rtcp_pump_fix(cur).2 == cur.rtcp_pump_live,
    ensures
        rtcp_pump_rel(pre, cur),
{
    lemma_rtcp_pump_model_bounds(
        pre.rtcp_reader,
        pre.rtcp_in.items@,
        pre.rtcp_in.accepting,
        rtcp_room(pre),
        pre.rtcp_pump_live,
    );
    assert(cur.rtcp_in.items@.skip(0) =~= cur.rtcp_in.items@);
    assert(pre.rtcp_in_modified.items@ + rtcp_pump_fix(pre).1 =~= cur.rtcp_in_modified.items@);
}

/// One media pump iteration keeps the loop's running summary: consuming
/// the head packet and forwarding its entry advances the due run by one
/// step.
proof fn lemma_pump_iteration_rtp<I: Interceptor>(
    pre: MockStream<I>,
    top: MockStream<I>,
    cur: MockStream<I>,
    pkt: RtpPacket,
    entry: RTPWithError,
    terminal: bool,
)
    requires
        top == (MockStream {
            rtp_in: top.rtp_in,
            rtp_in_modified: top.rtp_in_modified,
            rtp_pump_live: top.rtp_pump_live,
            ..pre
        }),
        top.rtp_in.accepting == pre.rtp_in.accepting,
        top.rtp_in_modified.accepting == pre.rtp_in_modified.accepting,
        rtp_pump_fix(pre).2 == rtp_pump_fix(top).2,
        pre.rtp_in.items@.skip(rtp_pump_fix(pre).0) == top.rtp_in.items@.skip(rtp_pump_fix(top).0),
        rtp_entry_views(pre.rtp_in_modified.items@) + rtp_pump_fix(pre).1 == rtp_entry_views(
            top.rtp_in_modified.items@,
        ) + rtp_pump_fix(top).1,
        top.rtp_pump_live,
        top.rtp_in_modified.accepting,
        top.rtp_in_modified.items@.len() < QUEUE_CAPACITY,
        top.rtp_in.items@.len() > 0,
        pkt == top.rtp_in.items@[0],
        (entry@, terminal) == rtp_step(top.rtp_reader, pkt@),
        cur == (MockStream {
            rtp_in: cur.rtp_in,
            rtp_in_modified: cur.rtp_in_modified,
            rtp_pump_live: cur.rtp_pump_live,
            ..top
        }),
        cur.rtp_in.items@ == top.rtp_in.items@.drop_first(),
        cur.rtp_in.accepting == top.rtp_in.accepting,
        cur.rtp_in_modified.items@ == top.rtp_in_modified.items@.push(entry),
        cur.rtp_in_modified.accepting,
        cur.rtp_pump_live == !terminal,
    ensures
        rtp_pump_fix(pre).2 == rtp_pump_fix(cur).2,
        pre.rtp_in.items@.skip(rtp_pump_fix(pre).0) == cur.rtp_in.items@.skip(rtp_pump_fix(cur).0),
        rtp_entry_views(pre.rtp_in_modified.items@) + rtp_pump_fix(pre).1 == rtp_entry_views(
            cur.rtp_in_modified.items@,
        ) + rtp_pump_fix(cur).1,
{
    let ins_top = rtp_views(top.rtp_in.items@);
    let ins_cur = rtp_views(cur.rtp_in.items@);
    let st = rtp_step(top.rtp_reader, pkt@);
    assert(ins_top.len() > 0 && ins_top[0] == pkt@);
    assert(ins_cur =~= ins_top.drop_first());
    let m_cur = rtp_pump_fix(cur);
    let m_top = rtp_pump_fix(top);
    lemma_rtp_pump_model_bounds(
        cur.rtp_reader,
        ins_cur,
        cur.rtp_in.accepting,
        rtp_room(cur),
        cur.rtp_pump_live,
    );
    if terminal {
        assert(m_cur == (0int, Seq::<RtpEntryModel>::empty(), false));
        assert(m_top == (1int, seq![st.0], false));
    } else {
        assert(rtp_room(cur) == rtp_room(top) - 1);
        assert(m_top.0 == 1 + m_cur.0 && m_top.1 == seq![st.0] + m_cur.1 && m_top.2 == m_cur.2);
    }
    assert(m_top.0 == 1 + m_cur.0);
    assert(m_top.1 =~= seq![entry@] + m_cur.1);
    assert(m_top.2 == m_cur.2);
    // the skip summary advances by one consumed packet
    lemma_rtp_pump_model_bounds(
        top.rtp_reader,
        ins_top,
        top.rtp_in.accepting,
        rtp_room(top),
        top.rtp_pump_live,
    );
    assert(top.rtp_in.items@.skip(m_top.0) =~= cur.rtp_in.items@.skip(m_cur.0));
    // the entry summary absorbs the forwarded entry
    assert(rtp_entry_views(cur.rtp_in_modified.items@) =~= rtp_entry_views(
        top.rtp_in_modified.items@,
    ).push(entry@));
    assert(rtp_entry_views(top.rtp_in_modified.items@) + m_top.1 =~= rtp_entry_views(
        cur.rtp_in_modified.items@,
    ) + m_cur.1);
}

/// The control counterpart of the iteration lemma.
proof fn lemma_pump_iteration_rtcp<I: Interceptor>(
    pre: MockStream<I>,
    top: MockStream<I>,
    cur: MockStream<I>,
    pkt: RtcpPacket,
    entry: RTCPWithError,
    terminal: bool,
)
    requires
        top == (MockStream {
            rtcp_in: top.rtcp_in,
            rtcp_in_modified: top.rtcp_in_modified,
            rtcp_pump_live: top.rtcp_pump_live,
            ..pre
        }),
        top.rtcp_in.accepting == pre.rtcp_in.accepting,
        top.rtcp_in_modified.accepting == pre.rtcp_in_modified.accepting,
        rtcp_pump_fix(pre).2 == rtcp_pump_fix(top).2,
        pre.rtcp_in.items@.skip(rtcp_pump_fix(pre).0) == top.rtcp_in.items@.skip(
            rtcp_pump_fix(top).0,
        ),
        pre.rtcp_in_modified.items@ + rtcp_pump_fix(pre).1 == top.rtcp_in_modified.items@
            + rtcp_pump_fix(top).1,
        top.rtcp_pump_live,
        top.rtcp_in_modified.accepting,
        top.rtcp_in_modified.items@.len() < QUEUE_CAPACITY,
        top.rtcp_in.items@.len() > 0,
        pkt == top.rtcp_in.items@[0],
        (entry, terminal) == rtcp_step(top.rtcp_reader, pkt),
        cur == (MockStream {
            rtcp_in: cur.rtcp_in,
            rtcp_in_modified: cur.rtcp_in_modified,
            rtcp_pump_live: cur.rtcp_pump_live,
            ..top
        }),
        cur.rtcp_in.items@ == top.rtcp_in.items@.drop_first(),
        cur.rtcp_in.accepting == top.rtcp_in.accepting,
        cur.rtcp_in_modified.items@ == top.rtcp_in_modified.items@.push(entry),
        cur.rtcp_in_modified.accepting,
        cur.rtcp_pump_live == !terminal,
    ensures
        rtcp_pump_fix(pre).2 == rtcp_pump_fix(cur).2,
        pre.rtcp_in.items@.skip(rtcp_pump_fix(pre).0) == cur.rtcp_in.items@.skip(
            rtcp_pump_fix(cur).0,
        ),
        pre.rtcp_in_modified.items@ + rtcp_pump_fix(pre).1 == cur.rtcp_in_modified.items@
            + rtcp_pump_fix(cur).1,
{
    let ins_top = top.rtcp_in.items@;
    let ins_cur = cur.rtcp_in.items@;
    let st = rtcp_step(top.rtcp_reader, pkt);
    let m_cur = rtcp_pump_fix(cur);
    let m_top = rtcp_pump_fix(top);
    lemma_rtcp_pump_model_bounds(
        cur.rtcp_reader,
        ins_cur,
        cur.rtcp_in.accepting,
        rtcp_room(cur),
        cur.rtcp_pump_live,
    );
    if terminal {
        assert(m_cur == (0int, Seq::<RTCPWithError>::empty(), false));
        assert(m_top == (1int, seq![st.0], false));
    } else {
        assert(rtcp_room(cur) == rtcp_room(top) - 1);
        assert(m_top.0 == 1 + m_cur.0 && m_top.1 == seq![st.0] + m_cur.1 && m_top.2 == m_cur.2);
    }
    assert(m_top.0 == 1 + m_cur.0);
    assert(m_top.1 =~= seq![entry] + m_cur.1);
    assert(m_top.2 == m_cur.2);
    lemma_rtcp_pump_model_bounds(
        top.rtcp_reader,
        ins_top,
        top.rtcp_in.accepting,
        rtcp_room(top),
        top.rtcp_pump_live,
    );
    assert(top.rtcp_in.items@.skip(m_top.0) =~= cur.rtcp_in.items@.skip(m_cur.0));
    assert(top.rtcp_in_modified.items@ + m_top.1 =~= cur.rtcp_in_modified.items@ + m_cur.1);
}

/// Single delivery, media side: one write whose chain transform succeeds
/// puts exactly one entry — the transformed packet — on the written-media
/// stream, and touches no other observation stream; on a stream with
/// nothing pending, a first poll then yields that entry and a second polls
/// empty.
pub proof fn lemma_single_delivery_rtp<I: Interceptor>(
    pre: MockStream<I>,
    post: MockStream<I>,
    p: RtpPacketModel,
    r: Result<usize, Error>,
    t: (RtpPacketModel, Map<u64, u64>),
)
    requires
        write_rtp_rel(pre, post, p, r),
        pre.rtp_writer.write_spec(p, Map::empty()) == Ok::<(RtpPacketModel, Map<u64, u64>), Error>(
            t,
        ),
        pre.rtp_out_modified.accepting,
        pre.rtp_out_modified.items@.len() < QUEUE_CAPACITY,
    ensures
        r == Ok::<usize, Error>(0),
        post.rtp_out_modified.items@.len() == pre.rtp_out_modified.items@.len() + 1,
        post.rtp_out_modified.items@.last()@ == t.0,
        post.rtp_out_modified.items@.drop_last() == pre.rtp_out_modified.items@,
        post.rtcp_out_modified == pre.rtcp_out_modified,
        post.rtp_in_modified == pre.rtp_in_modified,
        post.rtcp_in_modified == pre.rtcp_in_modified,
        pre.rtp_out_modified.items@.len() == 0 ==> post.rtp_out_modified.items@.len() == 1,
{
}

/// Single delivery, control side.
pub proof fn lemma_single_delivery_rtcp<I: Interceptor>(
    pre: MockStream<I>,
    post: MockStream<I>,
    p: RtcpPacket,
    r: Result<usize, Error>,
    t: (RtcpPacket, Map<u64, u64>),
)
    requires
        write_rtcp_rel(pre, post, p, r),
        pre.rtcp_writer.write_spec(p, Map::empty()) == Ok::<(RtcpPacket, Map<u64, u64>), Error>(t),
        pre.rtcp_out_modified.accepting,
        pre.rtcp_out_modified.items@.len() < QUEUE_CAPACITY,
    ensures
        r == Ok::<usize, Error>(0),
        post.rtcp_out_modified.items@ == pre.rtcp_out_modified.items@.push(t.0),
        post.rtp_out_modified == pre.rtp_out_modified,
        post.rtp_in_modified == pre.rtp_in_modified,
        post.rtcp_in_modified == pre.rtcp_in_modified,
        pre.rtcp_out_modified.items@.len() == 0 ==> post.rtcp_out_modified.items@.len() == 1,
{
}

/// Order preservation, media side: injecting packets `a` then `b` into an
/// idle stream and polling the read stream twice yields, in this order,
/// exactly the entry each packet's pump step produces — first `a`'s, then
/// `b`'s.
pub proof fn lemma_order_preservation_rtp<I: Interceptor>(
    s0: MockStream<I>,
    s1: MockStream<I>,
    s2: MockStream<I>,
    s3: MockStream<I>,
    s4: MockStream<I>,
    a: RtpPacket,
    b: RtpPacket,
    r1: Option<RTPWithError>,
    r2: Option<RTPWithError>,
)
    requires
        s0.rtp_in.items@.len() == 0,
        s0.rtp_in.accepting,
        s0.rtp_in_modified.items@.len() == 0,
        s0.rtp_in_modified.accepting,
        s0.rtp_pump_live,
        receive_rtp_rel(s0, s1, a),
        receive_rtp_rel(s1, s2, b),
        !rtp_step(s0.rtp_reader, a@).1,
        !rtp_step(s0.rtp_reader, b@).1,
        read_rtp_rel(s2, s3, r1),
        read_rtp_rel(s3, s4, r2),
    ensures
        r1 matches Some(e1) && e1@ == rtp_step(s0.rtp_reader, a@).0,
        r2 matches Some(e2) && e2@ == rtp_step(s0.rtp_reader, b@).0,
{
    let reader = s0.rtp_reader;
    let st_a = rtp_step(reader, a@);
    let st_b = rtp_step(reader, b@);
    assert(s1.rtp_in.items@ == Seq::<RtpPacket>::empty().push(a));
    assert(s2.rtp_in.items@ == Seq::<RtpPacket>::empty().push(a).push(b));
    assert(s2.rtp_reader == reader && s2.rtp_pump_live && s2.rtp_in.accepting);
    assert(s2.rtp_in_modified.items@.len() == 0 && s2.rtp_in_modified.accepting);
    let ins2 = rtp_views(s2.rtp_in.items@);
    assert(ins2.len() == 2 && ins2[0] == a@ && ins2[1] == b@);
    let room2 = rtp_room(s2);
    assert(room2 == QUEUE_CAPACITY as int);
    let tail1 = ins2.drop_first();
    assert(tail1.len() == 1 && tail1[0] == b@);
    let tail2 = tail1.drop_first();
    assert(tail2.len() == 0);
    let m_2 = rtp_pump_model(reader, tail2, true, room2 - 2, true);
    assert(m_2 == (0int, Seq::<RtpEntryModel>::empty(), true));
    let m_1 = rtp_pump_model(reader, tail1, true, room2 - 1, true);
    assert(m_1 == (1 + m_2.0, seq![st_b.0] + m_2.1, m_2.2));
    assert(m_1.1 =~= seq![st_b.0]);
    let m_0 = rtp_pump_model(reader, ins2, true, room2, true);
    assert(m_0 == (1 + m_1.0, seq![st_a.0] + m_1.1, m_1.2));
    assert(m_0.0 == 2 && m_0.2);
    assert(m_0.1 =~= seq![st_a.0, st_b.0]);
    assert(rtp_pump_fix(s2) == m_0);
    let entries2 = rtp_entry_views(s2.rtp_in_modified.items@) + m_0.1;
    assert(rtp_entry_views(s2.rtp_in_modified.items@) =~= Seq::<RtpEntryModel>::empty());
    assert(entries2 =~= seq![st_a.0, st_b.0]);
    assert(r1 matches Some(e1) && e1@ == st_a.0);
    assert(rtp_entry_views(s3.rtp_in_modified.items@) == entries2.drop_first());
    assert(entries2.drop_first() =~= seq![st_b.0]);
    assert(s3.rtp_in.items@ =~= s2.rtp_in.items@.skip(2));
    assert(s3.rtp_in.items@.len() == 0);
    assert(s3.rtp_reader == reader && s3.rtp_pump_live && s3.rtp_in.accepting);
    assert(s3.rtp_in_modified.items@.len() == 1);
    assert(s3.rtp_in_modified.accepting);
    let m_3 = rtp_pump_fix(s3);
    assert(m_3.1 == Seq::<RtpEntryModel>::empty() && m_3.2);
    let entries3 = rtp_entry_views(s3.rtp_in_modified.items@) + m_3.1;
    assert(entries3 =~= seq![st_b.0]);
    assert(r2 matches Some(e2) && e2@ == st_b.0);
}

/// Order preservation, control side.
pub proof fn lemma_order_preservation_rtcp<I: Interceptor>(
    s0: MockStream<I>,
    s1: MockStream<I>,
    s2: MockStream<I>,
    s3: MockStream<I>,
    s4: MockStream<I>,
    a: RtcpPacket,
    b: RtcpPacket,
    r1: Option<RTCPWithError>,
    r2: Option<RTCPWithError>,
)
    requires
        s0.rtcp_in.items@.len() == 0,
        s0.rtcp_in.accepting,
        s0.rtcp_in_modified.items@.len() == 0,
        s0.rtcp_in_modified.accepting,
        s0.rtcp_pump_live,
        receive_rtcp_rel(s0, s1, a),
        receive_rtcp_rel(s1, s2, b),
        !rtcp_step(s0.rtcp_reader, a).1,
        !rtcp_step(s0.rtcp_reader, b).1,
        read_rtcp_rel(s2, s3, r1),
        read_rtcp_rel(s3, s4, r2),
    ensures
        r1 == Some(rtcp_step(s0.rtcp_reader, a).0),
        r2 == Some(rtcp_step(s0.rtcp_reader, b).0),
{
    let reader = s0.rtcp_reader;
    let st_a = rtcp_step(reader, a);
    let st_b = rtcp_step(reader, b);
    assert(s2.rtcp_in.items@ == Seq::<RtcpPacket>::empty().push(a).push(b));
    assert(s2.rtcp_reader == reader && s2.rtcp_pump_live && s2.rtcp_in.accepting);
    assert(s2.rtcp_in_modified.items@.len() == 0 && s2.rtcp_in_modified.accepting);
    let ins2 = s2.rtcp_in.items@;
    assert(ins2.len() == 2 && ins2[0] == a && ins2[1] == b);
    let room2 = rtcp_room(s2);
    let tail1 = ins2.drop_first();
    assert(tail1.len() == 1 && tail1[0] == b);
    let tail2 = tail1.drop_first();
    assert(tail2.len() == 0);
    let m_2 = rtcp_pump_model(reader, tail2, true, room2 - 2, true);
    assert(m_2 == (0int, Seq::<RTCPWithError>::empty(), true));
    let m_1 = rtcp_pump_model(reader, tail1, true, room2 - 1, true);
    assert(m_1 == (1 + m_2.0, seq![st_b.0] + m_2.1, m_2.2));
    assert(m_1.1 =~= seq![st_b.0]);
    let m_0 = rtcp_pump_model(reader, ins2, true, room2, true);
    assert(m_0 == (1 + m_1.0, seq![st_a.0] + m_1.1, m_1.2));
    assert(m_0.0 == 2 && m_0.2);
    assert(m_0.1 =~= seq![st_a.0, st_b.0]);
    assert(rtcp_pump_fix(s2) == m_0);
    let entries2 = s2.rtcp_in_modified.items@ + m_0.1;
    assert(entries2 =~= seq![st_a.0, st_b.0]);
    assert(r1 == Some(st_a.0));
    assert(s3.rtcp_in_modified.items@ == entries2.drop_first());
    assert(entries2.drop_first() =~= seq![st_b.0]);
    assert(s3.rtcp_in.items@ =~= s2.rtcp_in.items@.skip(2));
    assert(s3.rtcp_in.items@.len() == 0);
    assert(s3.rtcp_reader == reader && s3.rtcp_pump_live && s3.rtcp_in.accepting);
    assert(s3.rtcp_in_modified.items@.len() == 1);
    assert(s3.rtcp_in_modified.accepting);
    let m_3 = rtcp_pump_fix(s3);
    assert(m_3.1 == Seq::<RTCPWithError>::empty() && m_3.2);
    let entries3 = s3.rtcp_in_modified.items@ + m_3.1;
    assert(entries3 =~= seq![st_b.0]);
    assert(r2 == Some(st_b.0));
}

/// A terminal pump failure is delivered exactly once, media side: when a
/// packet's pump step fails, one poll yields that failure, the pump is
/// finished for good, and the next poll reports a clean end of stream
/// rather than the failure again.
pub proof fn lemma_terminal_failure_once_rtp<I: Interceptor>(
    s0: MockStream<I>,
    s1: MockStream<I>,
    s2: MockStream<I>,
    s3: MockStream<I>,
    p: RtpPacket,
    r1: Option<RTPWithError>,
    r2: Option<RTPWithError>,
)
    requires
        s0.rtp_in.items@.len() == 0,
        s0.rtp_in.accepting,
        s0.rtp_in_modified.items@.len() == 0,
        s0.rtp_in_modified.accepting,
        s0.rtp_pump_live,
        receive_rtp_rel(s0, s1, p),
        rtp_step(s0.rtp_reader, p@).1,
        read_rtp_rel(s1, s2, r1),
        read_rtp_rel(s2, s3, r2),
    ensures
        r1 matches Some(e) && e@ == rtp_step(s0.rtp_reader, p@).0,
        !s2.rtp_pump_live,
        r2 == None::<RTPWithError>,
{
    let reader = s0.rtp_reader;
    let st = rtp_step(reader, p@);
    assert(s1.rtp_in.items@ == Seq::<RtpPacket>::empty().push(p));
    assert(s1.rtp_reader == reader && s1.rtp_pump_live && s1.rtp_in.accepting);
    let ins1 = rtp_views(s1.rtp_in.items@);
    assert(ins1.len() == 1 && ins1[0] == p@);
    let m_1 = rtp_pump_fix(s1);
    assert(m_1 == (1int, seq![st.0], false));
    let entries1 = rtp_entry_views(s1.rtp_in_modified.items@) + m_1.1;
    assert(entries1 =~= seq![st.0]);
    assert(r1 matches Some(e) && e@ == st.0);
    assert(rtp_entry_views(s2.rtp_in_modified.items@) == entries1.drop_first());
    assert(entries1.drop_first() =~= Seq::<RtpEntryModel>::empty());
    assert(s2.rtp_in_modified.items@.len() == 0);
    assert(!s2.rtp_pump_live);
    let m_2 = rtp_pump_fix(s2);
    assert(m_2.1 == Seq::<RtpEntryModel>::empty());
    assert(rtp_entry_views(s2.rtp_in_modified.items@) + m_2.1 =~= Seq::<RtpEntryModel>::empty());
}

/// Idempotent close: after one close, any further close is a no-op that
/// succeeds and re-enters nothing.
pub proof fn lemma_close_idempotent<I: Interceptor>(
    pre: MockStream<I>,
    mid: MockStream<I>,
    post: MockStream<I>,
    r1: Result<(), Error>,
    r2: Result<(), Error>,
)
    requires
        close_rel(pre, mid, r1),
        close_rel(mid, post, r2),
    ensures
        mid.closed,
        r2 == Ok::<(), Error>(()),
        post == mid,
{
}

/// Post-close silence, media side: a packet injected after close changes
/// nothing — it is dropped, not queued, and no output stream ever shows
/// it.
pub proof fn lemma_post_close_silence_rtp<I: Interceptor>(
    pre: MockStream<I>,
    mid: MockStream<I>,
    post: MockStream<I>,
    r: Result<(), Error>,
    p: RtpPacket,
)
    requires
        !pre.closed,
        close_rel(pre, mid, r),
        receive_rtp_rel(mid, post, p),
    ensures
        post == mid,
{
}

/// Post-close silence, control side.
pub proof fn lemma_post_close_silence_rtcp<I: Interceptor>(
    pre: MockStream<I>,
    mid: MockStream<I>,
    post: MockStream<I>,
    r: Result<(), Error>,
    p: RtcpPacket,
)
    requires
        !pre.closed,
        close_rel(pre, mid, r),
        receive_rtcp_rel(mid, post, p),
    ensures
        post == mid,
{
}

} // verus!
