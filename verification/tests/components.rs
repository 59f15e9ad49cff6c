use intercept::attributes::Attributes;
use intercept::packet::{RtcpPacket, RtpPacket};
use intercept::queue::{PacketQueue, QUEUE_CAPACITY};
use intercept::stream_info::StreamInfo;

#[test]
fn attributes_missing_key_is_not_an_error() {
    let a = Attributes::new();
    assert_eq!(a.get(1), None);
}

#[test]
fn attributes_set_then_get() {
    let mut a = Attributes::new();
    a.set_value(1, 10);
    a.set_value(2, 20);
    assert_eq!(a.get(1), Some(10));
    assert_eq!(a.get(2), Some(20));
    assert_eq!(a.get(3), None);
}

#[test]
fn attributes_set_replaces() {
    let mut a = Attributes::new();
    a.set_value(1, 10);
    a.set_value(1, 11);
    assert_eq!(a.get(1), Some(11));
}

#[test]
fn attributes_clone_is_deep() {
    let mut a = Attributes::new();
    a.set_value(9, 90);
    let b = a.clone();
    a.set_value(9, 91);
    assert_eq!(b.get(9), Some(90));
    assert_eq!(a.get(9), Some(91));
}

#[test]
fn queue_is_fifo() {
    let mut q: PacketQueue<u32> = PacketQueue::new();
    assert!(q.try_send(1));
    assert!(q.try_send(2));
    assert_eq!(q.recv(), Some(1));
    assert_eq!(q.recv(), Some(2));
    assert_eq!(q.recv(), None);
}

#[test]
fn queue_drops_when_full() {
    let mut q: PacketQueue<u32> = PacketQueue::new();
    let mut i: usize = 0;
    while i < QUEUE_CAPACITY {
        assert!(q.try_send(5));
        i += 1;
    }
    assert!(!q.try_send(6));
    assert_eq!(q.len(), QUEUE_CAPACITY);
}

#[test]
fn queue_closed_producer_drops_but_stays_drainable() {
    let mut q: PacketQueue<u32> = PacketQueue::new();
    assert!(q.try_send(1));
    q.close_producer();
    assert!(!q.try_send(2));
    assert!(!q.is_accepting());
    assert_eq!(q.recv(), Some(1));
    assert_eq!(q.recv(), None);
}

#[test]
fn stream_info_default_is_all_zero() {
    let info = StreamInfo::default();
    assert_eq!(info.ssrc, 0);
    assert_eq!(info.payload_type, 0);
    assert_eq!(info.clock_rate, 0);
}

#[test]
fn rtp_packet_clone_is_deep() {
    let p = RtpPacket {
        sequence_number: 1,
        timestamp: 2,
        ssrc: 3,
        payload: vec![4, 5],
    };
    let q = p.clone();
    assert_eq!(q.sequence_number, 1);
    assert_eq!(q.payload, vec![4, 5]);
}

#[test]
fn rtcp_packet_cloned_copies() {
    let p = RtcpPacket::PictureLossIndication { sender_ssrc: 1, media_ssrc: 2 };
    assert_eq!(p.cloned(), p);
}
