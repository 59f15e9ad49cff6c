use intercept::attributes::Attributes;
use intercept::capability::{RTPReader, RTPWriter};
use intercept::errors::Error;
use intercept::interceptor::{Interceptor, NoOpLink};
use intercept::mock_stream::{MockStream, RTPWithError};
use intercept::packet::RtpPacket;
use intercept::stream_info::StreamInfo;

struct TruncatingLink;

impl RTPReader for TruncatingLink {
    fn read_spec(
        &self,
        _data: vstd::seq::Seq<u8>,
        _a: vstd::map::Map<u64, u64>,
    ) -> Result<(vstd::seq::Seq<u8>, vstd::map::Map<u64, u64>), Error> {
        panic!()
    }

    fn read(
        &self,
        _data: &Vec<u8>,
        attributes: &Attributes,
    ) -> Result<(Vec<u8>, Attributes), Error> {
        Ok((Vec::new(), attributes.clone()))
    }
}

struct TruncatingInterceptor;

impl Interceptor for TruncatingInterceptor {
    type RtpW = NoOpLink;
    type RtpR = TruncatingLink;
    type RtcpW = NoOpLink;
    type RtcpR = NoOpLink;

    fn close_result(&self) -> Result<(), Error> {
        panic!()
    }

    fn rtcp_writer_link(&self) -> NoOpLink {
        panic!()
    }

    fn rtcp_reader_link(&self) -> NoOpLink {
        panic!()
    }

    fn local_stream_link(&self, _info: StreamInfo) -> NoOpLink {
        panic!()
    }

    fn remote_stream_link(&self, _info: StreamInfo) -> TruncatingLink {
        panic!()
    }

    fn bind_rtcp_writer(&self) -> NoOpLink {
        NoOpLink
    }

    fn bind_rtcp_reader(&self) -> NoOpLink {
        NoOpLink
    }

    fn bind_local_stream(&self, _info: &StreamInfo) -> NoOpLink {
        NoOpLink
    }

    fn bind_remote_stream(&self, _info: &StreamInfo) -> TruncatingLink {
        TruncatingLink
    }

    fn close(&mut self) -> Result<(), Error> {
        Ok(())
    }
}

struct ExtensionLink;

impl RTPReader for ExtensionLink {
    fn read_spec(
        &self,
        _data: vstd::seq::Seq<u8>,
        _a: vstd::map::Map<u64, u64>,
    ) -> Result<(vstd::seq::Seq<u8>, vstd::map::Map<u64, u64>), Error> {
        panic!()
    }

    fn read(
        &self,
        _data: &Vec<u8>,
        attributes: &Attributes,
    ) -> Result<(Vec<u8>, Attributes), Error> {
        // a header with the extension bit set whose one-byte extension
        // element declares more payload than the input holds
        let bytes = vec![
            0x10, 0, 0, 0, 0, 0, 0, 0, 0, 0, 0, 0, 0xbe, 0xde, 0x00, 0x01, 0x1f, 0, 0, 0,
        ];
        Ok((bytes, attributes.clone()))
    }
}

struct ExtensionInterceptor;

impl Interceptor for ExtensionInterceptor {
    type RtpW = NoOpLink;
    type RtpR = ExtensionLink;
    type RtcpW = NoOpLink;
    type RtcpR = NoOpLink;

    fn close_result(&self) -> Result<(), Error> {
        panic!()
    }

    fn rtcp_writer_link(&self) -> NoOpLink {
        panic!()
    }

    fn rtcp_reader_link(&self) -> NoOpLink {
        panic!()
    }

    fn local_stream_link(&self, _info: StreamInfo) -> NoOpLink {
        panic!()
    }

    fn remote_stream_link(&self, _info: StreamInfo) -> ExtensionLink {
        panic!()
    }

    fn bind_rtcp_writer(&self) -> NoOpLink {
        NoOpLink
    }

    fn bind_rtcp_reader(&self) -> NoOpLink {
        NoOpLink
    }

    fn bind_local_stream(&self, _info: &StreamInfo) -> NoOpLink {
        NoOpLink
    }

    fn bind_remote_stream(&self, _info: &StreamInfo) -> ExtensionLink {
        ExtensionLink
    }

    fn close(&mut self) -> Result<(), Error> {
        Ok(())
    }
}

#[test]
fn extension_wire_image_fails_as_decode_without_panicking() {
    let mut s = MockStream::new(&StreamInfo::default(), ExtensionInterceptor);
    s.receive_rtp(RtpPacket::empty());
    match s.read_rtp() {
        Some(RTPWithError::Fail(e)) => assert_eq!(e, Error::Decode),
        _ => panic!("an extension-bearing wire image must fail as Decode"),
    }
}

struct RefusingLink;

impl RTPWriter for RefusingLink {
    fn write_spec(
        &self,
        _p: intercept::packet::RtpPacketModel,
        _a: vstd::map::Map<u64, u64>,
    ) -> Result<(intercept::packet::RtpPacketModel, vstd::map::Map<u64, u64>), Error> {
        panic!()
    }

    fn write(
        &self,
        _pkt: &RtpPacket,
        _attributes: &Attributes,
    ) -> Result<(RtpPacket, Attributes), Error> {
        Err(Error::Transport)
    }
}

struct RefusingInterceptor;

impl Interceptor for RefusingInterceptor {
    type RtpW = RefusingLink;
    type RtpR = NoOpLink;
    type RtcpW = NoOpLink;
    type RtcpR = NoOpLink;

    fn close_result(&self) -> Result<(), Error> {
        panic!()
    }

    fn rtcp_writer_link(&self) -> NoOpLink {
        panic!()
    }

    fn rtcp_reader_link(&self) -> NoOpLink {
        panic!()
    }

    fn local_stream_link(&self, _info: StreamInfo) -> RefusingLink {
        panic!()
    }

    fn remote_stream_link(&self, _info: StreamInfo) -> NoOpLink {
        panic!()
    }

    fn bind_rtcp_writer(&self) -> NoOpLink {
        NoOpLink
    }

    fn bind_rtcp_reader(&self) -> NoOpLink {
        NoOpLink
    }

    fn bind_local_stream(&self, _info: &StreamInfo) -> RefusingLink {
        RefusingLink
    }

    fn bind_remote_stream(&self, _info: &StreamInfo) -> NoOpLink {
        NoOpLink
    }

    fn close(&mut self) -> Result<(), Error> {
        Ok(())
    }
}

#[test]
fn writer_failure_surfaces_and_publishes_nothing() {
    let mut s = MockStream::new(&StreamInfo::default(), RefusingInterceptor);
    assert_eq!(s.write_rtp(&RtpPacket::empty()), Err(Error::Transport));
    assert!(s.written_rtp().is_none());
}

#[test]
fn truncated_wire_image_fails_as_decode() {
    let mut s = MockStream::new(&StreamInfo::default(), TruncatingInterceptor);
    s.receive_rtp(RtpPacket::empty());
    match s.read_rtp() {
        Some(RTPWithError::Fail(e)) => assert_eq!(e, Error::Decode),
        _ => panic!("a truncated wire image must fail as Decode"),
    }
    // the decode failure is terminal: nothing is delivered afterwards
    s.receive_rtp(RtpPacket::empty());
    assert!(s.read_rtp().is_none());
}
