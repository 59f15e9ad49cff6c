use intercept::errors::Error;
use intercept::interceptor::{Chain, NoOp};
use intercept::mock_stream::{MockStream, RTCPWithError, RTPWithError};
use intercept::packet::{RtcpPacket, RtpPacket};
use intercept::stream_info::StreamInfo;

fn pli(sender_ssrc: u32, media_ssrc: u32) -> RtcpPacket {
    RtcpPacket::PictureLossIndication { sender_ssrc, media_ssrc }
}

#[test]
fn test_mock_stream() {
    let mut s = MockStream::new(&StreamInfo::default(), NoOp);

    s.write_rtcp(&pli(0, 0)).unwrap();
    assert!(s.written_rtcp().is_some());
    assert!(
        s.written_rtcp().is_none(),
        "single rtcp packet written, but multiple found"
    );

    s.write_rtp(&RtpPacket::empty()).unwrap();
    assert!(s.written_rtp().is_some());
    assert!(
        s.written_rtp().is_none(),
        "single rtp packet written, but multiple found"
    );

    s.receive_rtcp(pli(0, 0));
    assert!(
        matches!(s.read_rtcp(), Some(RTCPWithError::Pkt(_))),
        "read rtcp returned error"
    );
    assert!(
        s.read_rtcp().is_none(),
        "single rtcp packet written, but multiple found"
    );

    s.receive_rtp(RtpPacket::empty());
    assert!(
        matches!(s.read_rtp(), Some(RTPWithError::Pkt(_))),
        "read rtp returned error"
    );
    assert!(
        s.read_rtp().is_none(),
        "single rtp packet written, but multiple found"
    );

    assert!(s.close().is_ok());
}

#[test]
fn single_delivery_rtp_write() {
    let mut s = MockStream::new(&StreamInfo::default(), NoOp);
    let p = RtpPacket {
        sequence_number: 5,
        timestamp: 10,
        ssrc: 15,
        payload: vec![1, 2, 3],
    };
    assert_eq!(s.write_rtp(&p), Ok(0));
    let seen = s.written_rtp().expect("one written media packet");
    assert_eq!(seen.sequence_number, 5);
    assert_eq!(seen.timestamp, 10);
    assert_eq!(seen.ssrc, 15);
    assert_eq!(seen.payload, vec![1, 2, 3]);
    assert!(s.written_rtp().is_none());
    assert!(s.written_rtcp().is_none());
}

#[test]
fn single_delivery_rtcp_write() {
    let mut s = MockStream::new(&StreamInfo::default(), NoOp);
    assert_eq!(s.write_rtcp(&pli(3, 4)), Ok(0));
    assert_eq!(s.written_rtcp(), Some(pli(3, 4)));
    assert_eq!(s.written_rtcp(), None);
    assert!(s.written_rtp().is_none());
}

#[test]
fn order_preservation_rtp() {
    let mut s = MockStream::new(&StreamInfo::default(), NoOp);
    let a = RtpPacket {
        sequence_number: 1,
        timestamp: 100,
        ssrc: 9,
        payload: vec![0xaa],
    };
    let b = RtpPacket {
        sequence_number: 2,
        timestamp: 200,
        ssrc: 9,
        payload: vec![0xbb],
    };
    s.receive_rtp(a);
    s.receive_rtp(b);
    match s.read_rtp() {
        Some(RTPWithError::Pkt(first)) => assert_eq!(first.sequence_number, 1),
        _ => panic!("expected the first injected packet"),
    }
    match s.read_rtp() {
        Some(RTPWithError::Pkt(second)) => assert_eq!(second.sequence_number, 2),
        _ => panic!("expected the second injected packet"),
    }
    assert!(s.read_rtp().is_none());
}

#[test]
fn order_preservation_rtcp() {
    let mut s = MockStream::new(&StreamInfo::default(), NoOp);
    s.receive_rtcp(pli(1, 2));
    s.receive_rtcp(RtcpPacket::ReceiverReport { ssrc: 77 });
    assert_eq!(s.read_rtcp(), Some(RTCPWithError::Pkt(pli(1, 2))));
    assert_eq!(
        s.read_rtcp(),
        Some(RTCPWithError::Pkt(RtcpPacket::ReceiverReport { ssrc: 77 }))
    );
    assert_eq!(s.read_rtcp(), None);
}

#[test]
fn idempotent_close() {
    let mut s = MockStream::new(&StreamInfo::default(), NoOp);
    assert_eq!(s.close(), Ok(()));
    assert_eq!(s.close(), Ok(()));
}

#[test]
fn post_close_silence() {
    let mut s = MockStream::new(&StreamInfo::default(), NoOp);
    assert_eq!(s.close(), Ok(()));
    s.receive_rtp(RtpPacket::empty());
    s.receive_rtcp(pli(0, 0));
    assert!(s.read_rtp().is_none());
    assert!(s.read_rtcp().is_none());
    assert!(s.written_rtp().is_none());
    assert!(s.written_rtcp().is_none());
}

#[test]
fn queued_packets_stay_drainable_after_close() {
    let mut s = MockStream::new(&StreamInfo::default(), NoOp);
    let p = RtpPacket {
        sequence_number: 42,
        timestamp: 0,
        ssrc: 0,
        payload: vec![],
    };
    s.receive_rtp(p);
    assert_eq!(s.close(), Ok(()));
    match s.read_rtp() {
        Some(RTPWithError::Pkt(q)) => assert_eq!(q.sequence_number, 42),
        _ => panic!("the packet queued before close must stay drainable"),
    }
    assert!(s.read_rtp().is_none());
}

#[test]
fn oversized_packet_fails_pump_once() {
    let mut s = MockStream::new(&StreamInfo::default(), NoOp);
    let big = RtpPacket {
        sequence_number: 1,
        timestamp: 1,
        ssrc: 1,
        payload: vec![0u8; 2000],
    };
    s.receive_rtp(big);
    match s.read_rtp() {
        Some(RTPWithError::Fail(e)) => assert_eq!(e, Error::ShortBuffer),
        _ => panic!("a wire image over the pump buffer must fail as ShortBuffer"),
    }
    // the pump is finished for good: later injections are never delivered
    s.receive_rtp(RtpPacket::empty());
    assert!(s.read_rtp().is_none());
}

#[test]
fn write_through_chain_of_noops_is_identity() {
    let chain = Chain { outer: NoOp, inner: NoOp };
    let mut s = MockStream::new(&StreamInfo::default(), chain);
    assert_eq!(s.write_rtcp(&pli(8, 9)), Ok(0));
    assert_eq!(s.written_rtcp(), Some(pli(8, 9)));
    s.receive_rtcp(RtcpPacket::ReceiverReport { ssrc: 5 });
    assert_eq!(
        s.read_rtcp(),
        Some(RTCPWithError::Pkt(RtcpPacket::ReceiverReport { ssrc: 5 }))
    );
    assert_eq!(s.close(), Ok(()));
}
