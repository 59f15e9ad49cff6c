//! The interceptor contract: binding, chaining and lifecycle.

use vstd::prelude::*;

use crate::attributes::Attributes;
use crate::capability::{RTCPReader, RTCPWriter, RTPReader, RTPWriter};
use crate::errors::Error;
use crate::packet::{RtcpPacket, RtpPacket, RtpPacketModel};
use crate::stream_info::StreamInfo;

verus! {

/// The composition unit of the pipeline. An interceptor exposes four
/// binding operations, one per capability role, each returning the chain
/// link it contributes to that role, plus a lifecycle close.
///
/// Media binding is split by direction — `bind_local_stream` for packets
/// the application originates, `bind_remote_stream` for packets arriving
/// from the network — so one interceptor can serve only the path it cares
/// about; control packets already carry their direction internally, so one
/// reader and one writer binding cover both.
pub trait Interceptor: Sized {
    /// The link this interceptor contributes to the outbound media path.
    type RtpW: RTPWriter;

    /// The link this interceptor contributes to the inbound media path.
    type RtpR: RTPReader;

    /// The link this interceptor contributes to the outbound control path.
    type RtcpW: RTCPWriter;

    /// The link this interceptor contributes to the inbound control path.
    type RtcpR: RTCPReader;

    /// What closing this interceptor returns.
    spec fn close_result(&self) -> Result<(), Error>;

    /// The link that binding the outbound control role returns.
    spec fn rtcp_writer_link(&self) -> Self::RtcpW;

    /// The link that binding the inbound control role returns.
    spec fn rtcp_reader_link(&self) -> Self::RtcpR;

    /// The link that binding the outbound media role returns for a stream.
    spec fn local_stream_link(&self, info: StreamInfo) -> Self::RtpW;

    /// The link that binding the inbound media role returns for a stream.
    spec fn remote_stream_link(&self, info: StreamInfo) -> Self::RtpR;

    /// Binds the outbound control role.
    fn bind_rtcp_writer(&self) -> (r: Self::RtcpW)
        ensures
            r == self.rtcp_writer_link(),
    ;

    /// Binds the inbound control role.
    fn bind_rtcp_reader(&self) -> (r: Self::RtcpR)
        ensures
            r == self.rtcp_reader_link(),
    ;

    /// Binds the outbound media role for one stream.
    fn bind_local_stream(&self, info: &StreamInfo) -> (r: Self::RtpW)
        ensures
            r == self.local_stream_link(*info),
    ;

    /// Binds the inbound media role for one stream.
    fn bind_remote_stream(&self, info: &StreamInfo) -> (r: Self::RtpR)
        ensures
            r == self.remote_stream_link(*info),
    ;

    /// Releases the interceptor's resources, cascading to every interceptor
    /// it wraps, each exactly once.
    fn close(&mut self) -> (r: Result<(), Error>)
        ensures
            r == old(self).close_result(),
    ;
}

/// The identity interceptor: the base case every chain bottoms out at. Its
/// links pass every packet, every wire image and every attribute bag
/// through unchanged.
pub struct NoOp;

/// The chain link `NoOp` contributes to every role.
pub struct NoOpLink;

impl RTPWriter for NoOpLink {
    open spec fn write_spec(&self, p: RtpPacketModel, a: Map<u64, u64>) -> Result<
        (RtpPacketModel, Map<u64, u64>),
        Error,
    > {
        Ok((p, a))
    }

    fn write(&self, pkt: &RtpPacket, attributes: &Attributes) -> (r: Result<
        (RtpPacket, Attributes),
        Error,
    >) {
        Ok((pkt.clone(), attributes.clone()))
    }
}

impl RTPReader for NoOpLink {
    open spec fn read_spec(&self, data: Seq<u8>, a: Map<u64, u64>) -> Result<
        (Seq<u8>, Map<u64, u64>),
        Error,
    > {
        Ok((data, a))
    }

    fn read(&self, data: &Vec<u8>, attributes: &Attributes) -> (r: Result<
        (Vec<u8>, Attributes),
        Error,
    >) {
        Ok((data.clone(), attributes.clone()))
    }
}

impl RTCPWriter for NoOpLink {
    open spec fn write_spec(&self, p: RtcpPacket, a: Map<u64, u64>) -> Result<
        (RtcpPacket, Map<u64, u64>),
        Error,
    > {
        Ok((p, a))
    }

    fn write(&self, pkt: &RtcpPacket, attributes: &Attributes) -> (r: Result<
        (RtcpPacket, Attributes),
        Error,
    >) {
        Ok((*pkt, attributes.clone()))
    }
}

impl RTCPReader for NoOpLink {
    open spec fn read_spec(&self, data: Seq<u8>, a: Map<u64, u64>) -> Result<
        (Seq<u8>, Map<u64, u64>),
        Error,
    > {
        Ok((data, a))
    }

    fn read(&self, data: &Vec<u8>, attributes: &Attributes) -> (r: Result<
        (Vec<u8>, Attributes),
        Error,
    >) {
        Ok((data.clone(), attributes.clone()))
    }
}

impl Interceptor for NoOp {
    type RtpW = NoOpLink;

    type RtpR = NoOpLink;

    type RtcpW = NoOpLink;

    type RtcpR = NoOpLink;

    open spec fn close_result(&self) -> Result<(), Error> {
        Ok(())
    }

    open spec fn rtcp_writer_link(&self) -> NoOpLink {
        NoOpLink
    }

    open spec fn rtcp_reader_link(&self) -> NoOpLink {
        NoOpLink
    }

    open spec fn local_stream_link(&self, info: StreamInfo) -> NoOpLink {
        NoOpLink
    }

    open spec fn remote_stream_link(&self, info: StreamInfo) -> NoOpLink {
        NoOpLink
    }

    fn bind_rtcp_writer(&self) -> (r: Self::RtcpW) {
        NoOpLink
    }

    fn bind_rtcp_reader(&self) -> (r: Self::RtcpR) {
        NoOpLink
    }

    fn bind_local_stream(&self, info: &StreamInfo) -> (r: Self::RtpW) {
        NoOpLink
    }

    fn bind_remote_stream(&self, info: &StreamInfo) -> (r: Self::RtpR) {
        NoOpLink
    }

    fn close(&mut self) -> (r: Result<(), Error>) {
        Ok(())
    }
}

/// Two interceptors composed into one. The convention, kept across all four
/// roles: the outer interceptor runs first on writes and last on reads, so
/// a chain built outside-in behaves like nesting each link around the next.
pub struct Chain<A, B> {
    /// The interceptor nearest the application.
    pub outer: A,
    /// The interceptor nearest the network.
    pub inner: B,
}

/// The link a `Chain` contributes to a role: its two components' links,
/// nested.
pub struct ChainLink<X, Y> {
    /// The outer component's link.
    pub outer: X,
    /// The inner component's link.
    pub inner: Y,
}

impl<X: RTPWriter, Y: RTPWriter> RTPWriter for ChainLink<X, Y> {
    open spec fn write_spec(&self, p: RtpPacketModel, a: Map<u64, u64>) -> Result<
        (RtpPacketModel, Map<u64, u64>),
        Error,
    > {
        match self.outer.write_spec(p, a) {
            Ok(t) => self.inner.write_spec(t.0, t.1),
            Err(e) => Err(e),
        }
    }

    fn write(&self, pkt: &RtpPacket, attributes: &Attributes) -> (r: Result<
        (RtpPacket, Attributes),
        Error,
    >) {
        match self.outer.write(pkt, attributes) {
            Ok(out) => self.inner.write(&out.0, &out.1),
            Err(e) => Err(e),
        }
    }
}

impl<X: RTPReader, Y: RTPReader> RTPReader for ChainLink<X, Y> {
    open spec fn read_spec(&self, data: Seq<u8>, a: Map<u64, u64>) -> Result<
        (Seq<u8>, Map<u64, u64>),
        Error,
    > {
        match self.inner.read_spec(data, a) {
            Ok(t) => self.outer.read_spec(t.0, t.1),
            Err(e) => Err(e),
        }
    }

    fn read(&self, data: &Vec<u8>, attributes: &Attributes) -> (r: Result<
        (Vec<u8>, Attributes),
        Error,
    >) {
        match self.inner.read(data, attributes) {
            Ok(out) => self.outer.read(&out.0, &out.1),
            Err(e) => Err(e),
        }
    }
}

impl<X: RTCPWriter, Y: RTCPWriter> RTCPWriter for ChainLink<X, Y> {
    open spec fn write_spec(&self, p: RtcpPacket, a: Map<u64, u64>) -> Result<
        (RtcpPacket, Map<u64, u64>),
        Error,
    > {
        match self.outer.write_spec(p, a) {
            Ok(t) => self.inner.write_spec(t.0, t.1),
            Err(e) => Err(e),
        }
    }

    fn write(&self, pkt: &RtcpPacket, attributes: &Attributes) -> (r: Result<
        (RtcpPacket, Attributes),
        Error,
    >) {
        match self.outer.write(pkt, attributes) {
            Ok(out) => self.inner.write(&out.0, &out.1),
            Err(e) => Err(e),
        }
    }
}

impl<X: RTCPReader, Y: RTCPReader> RTCPReader for ChainLink<X, Y> {
    open spec fn read_spec(&self, data: Seq<u8>, a: Map<u64, u64>) -> Result<
        (Seq<u8>, Map<u64, u64>),
        Error,
    > {
        match self.inner.read_spec(data, a) {
            Ok(t) => self.outer.read_spec(t.0, t.1),
            Err(e) => Err(e),
        }
    }

    fn read(&self, data: &Vec<u8>, attributes: &Attributes) -> (r: Result<
        (Vec<u8>, Attributes),
        Error,
    >) {
        match self.inner.read(data, attributes) {
            Ok(out) => self.outer.read(&out.0, &out.1),
            Err(e) => Err(e),
        }
    }
}

impl<A: Interceptor, B: Interceptor> Interceptor for Chain<A, B> {
    type RtpW = ChainLink<A::RtpW, B::RtpW>;

    type RtpR = ChainLink<A::RtpR, B::RtpR>;

    type RtcpW = ChainLink<A::RtcpW, B::RtcpW>;

    type RtcpR = ChainLink<A::RtcpR, B::RtcpR>;

    open spec fn close_result(&self) -> Result<(), Error> {
        match self.outer.close_result() {
            Ok(u) => self.inner.close_result(),
            Err(e) => Err(e),
        }
    }

    open spec fn rtcp_writer_link(&self) -> ChainLink<A::RtcpW, B::RtcpW> {
        ChainLink { outer: self.outer.rtcp_writer_link(), inner: self.inner.rtcp_writer_link() }
    }

    open spec fn rtcp_reader_link(&self) -> ChainLink<A::RtcpR, B::RtcpR> {
        ChainLink { outer: self.outer.rtcp_reader_link(), inner: self.inner.rtcp_reader_link() }
    }

    open spec fn local_stream_link(&self, info: StreamInfo) -> ChainLink<A::RtpW, B::RtpW> {
        ChainLink {
            outer: self.outer.local_stream_link(info),
            inner: self.inner.local_stream_link(info),
        }
    }

    open spec fn remote_stream_link(&self, info: StreamInfo) -> ChainLink<A::RtpR, B::RtpR> {
        ChainLink {
            outer: self.outer.remote_stream_link(info),
            inner: self.inner.remote_stream_link(info),
        }
    }

    fn bind_rtcp_writer(&self) -> (r: Self::RtcpW) {
        ChainLink { outer: self.outer.bind_rtcp_writer(), inner: self.inner.bind_rtcp_writer() }
    }

    fn bind_rtcp_reader(&self) -> (r: Self::RtcpR) {
        ChainLink { outer: self.outer.bind_rtcp_reader(), inner: self.inner.bind_rtcp_reader() }
    }

    fn bind_local_stream(&self, info: &StreamInfo) -> (r: Self::RtpW) {
        ChainLink {
            outer: self.outer.bind_local_stream(info),
            inner: self.inner.bind_local_stream(info),
        }
    }

    fn bind_remote_stream(&self, info: &StreamInfo) -> (r: Self::RtpR) {
        ChainLink {
            outer: self.outer.bind_remote_stream(info),
            inner: self.inner.bind_remote_stream(info),
        }
    }

    /// Closes both components, the outer one first, each exactly once, and
    /// surfaces the first failure.
    fn close(&mut self) -> (r: Result<(), Error>) {
        let outer_result = self.outer.close();
        let inner_result = self.inner.close();
        match outer_result {
            Ok(u) => inner_result,
            Err(e) => Err(e),
        }
    }
}

} // verus!
