use intercept::codec::{marshal_rtcp_into, marshal_rtp_into};
use intercept::errors::Error;
use intercept::interceptor::NoOp;
use intercept::mock_stream::{MockStream, RTCPWithError, RTPWithError};
use intercept::packet::{RtcpPacket, RtpPacket};
use intercept::stream_info::StreamInfo;

#[test]
fn rtp_round_trip_preserves_fields() {
    let mut s = MockStream::new(&StreamInfo::default(), NoOp);
    let p = RtpPacket {
        sequence_number: 17,
        timestamp: 123456,
        ssrc: 57005,
        payload: vec![1, 2, 3, 4, 5],
    };
    s.receive_rtp(p);
    match s.read_rtp() {
        Some(RTPWithError::Pkt(q)) => {
            assert_eq!(q.sequence_number, 17);
            assert_eq!(q.timestamp, 123456);
            assert_eq!(q.ssrc, 57005);
            assert_eq!(q.payload, vec![1, 2, 3, 4, 5]);
        },
        _ => panic!("expected the decoded media packet"),
    }
}

#[test]
fn rtp_round_trip_empty_payload() {
    let mut s = MockStream::new(&StreamInfo::default(), NoOp);
    s.receive_rtp(RtpPacket::empty());
    match s.read_rtp() {
        Some(RTPWithError::Pkt(q)) => {
            assert_eq!(q.sequence_number, 0);
            assert_eq!(q.timestamp, 0);
            assert_eq!(q.ssrc, 0);
            assert_eq!(q.payload, Vec::<u8>::new());
        },
        _ => panic!("expected the decoded media packet"),
    }
}

#[test]
fn pli_round_trip_preserves_fields() {
    let mut s = MockStream::new(&StreamInfo::default(), NoOp);
    let p = RtcpPacket::PictureLossIndication { sender_ssrc: 7, media_ssrc: 9 };
    s.receive_rtcp(p);
    assert_eq!(s.read_rtcp(), Some(RTCPWithError::Pkt(p)));
}

#[test]
fn receiver_report_round_trip_preserves_fields() {
    let mut s = MockStream::new(&StreamInfo::default(), NoOp);
    let p = RtcpPacket::ReceiverReport { ssrc: 424242 };
    s.receive_rtcp(p);
    assert_eq!(s.read_rtcp(), Some(RTCPWithError::Pkt(p)));
}

#[test]
fn short_buffer_rtp_leaves_buffer_untouched() {
    let p = RtpPacket {
        sequence_number: 1,
        timestamp: 2,
        ssrc: 3,
        payload: vec![9u8; 20],
    };
    let mut buf = vec![7u8; 8];
    let r = marshal_rtp_into(&p, &mut buf);
    assert_eq!(r, Err(Error::ShortBuffer));
    assert_eq!(buf, vec![7u8; 8]);
}

#[test]
fn short_buffer_rtcp_leaves_buffer_untouched() {
    let p = RtcpPacket::PictureLossIndication { sender_ssrc: 1, media_ssrc: 2 };
    let mut buf = vec![5u8; 4];
    let r = marshal_rtcp_into(&p, &mut buf);
    assert_eq!(r, Err(Error::ShortBuffer));
    assert_eq!(buf, vec![5u8; 4]);
}

#[test]
fn marshal_rtp_into_fills_exactly_the_wire_image() {
    let p = RtpPacket {
        sequence_number: 3,
        timestamp: 4,
        ssrc: 5,
        payload: vec![1u8; 20],
    };
    let mut buf = vec![0xffu8; 64];
    let n = marshal_rtp_into(&p, &mut buf).expect("a fitting buffer must succeed");
    // a media header without extensions is twelve bytes
    assert_eq!(n, 32);
    assert_eq!(&buf[n..], &vec![0xffu8; 64 - n][..]);
}

#[test]
fn marshal_rtcp_into_reports_length() {
    let p = RtcpPacket::ReceiverReport { ssrc: 1 };
    let mut buf = vec![0u8; 64];
    let n = marshal_rtcp_into(&p, &mut buf).expect("a fitting buffer must succeed");
    // a receiver report without blocks is a header plus one identifier
    assert_eq!(n, 8);
}
