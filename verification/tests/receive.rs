//! Receive-path behaviour: fragment concatenation and the try-again
//! condition.

use e1000_nic::e1000::rx_outcome;
use e1000_nic::net_buf::{NetBufPtr, NO_HEADER};
use e1000_nic::DevError;

#[test]
fn rx_poll_empty_is_try_again() {
    let r = rx_outcome(None);
    match r {
        Err(e) => assert_eq!(e, DevError::Again),
        Ok(_) => panic!("no fragments must yield the try-again condition"),
    }
}

#[test]
fn rx_two_fragments_concatenated() {
    let frag1: Vec<u8> = (0u8..10).collect();
    let frag2: Vec<u8> = (100u8..120).collect();
    let mut expected = frag1.clone();
    expected.extend_from_slice(&frag2);

    let buf = rx_outcome(Some(vec![frag1, frag2])).unwrap();
    assert_eq!(buf.packet_len(), 30);
    assert_eq!(buf.packet().as_slice(), expected.as_slice());
    assert_eq!(buf.header_addr(), NO_HEADER);
}

#[test]
fn rx_single_fragment_unmodified() {
    let frame: Vec<u8> = (0u8..64).collect();
    let buf = rx_outcome(Some(vec![frame.clone()])).unwrap();
    assert_eq!(buf.packet_len(), 64);
    assert_eq!(buf.packet().as_slice(), frame.as_slice());
}

#[test]
fn rx_fragment_order_preserved() {
    let frags = vec![vec![1u8, 2], vec![3u8], vec![4u8, 5]];
    let buf = rx_outcome(Some(frags)).unwrap();
    assert_eq!(buf.packet().as_slice(), &[1u8, 2, 3, 4, 5]);
}

#[test]
fn rx_empty_fragment_adds_nothing() {
    let frags = vec![Vec::new(), vec![7u8, 8]];
    let buf = rx_outcome(Some(frags)).unwrap();
    assert_eq!(buf.packet().as_slice(), &[7u8, 8]);
}

#[test]
fn rx_all_fragments_empty_yields_empty_buffer() {
    let frags = vec![Vec::new(), Vec::new()];
    let buf = rx_outcome(Some(frags)).unwrap();
    assert_eq!(buf.packet_len(), 0);
}

#[test]
fn handle_carries_bytes_unchanged() {
    let frame: Vec<u8> = (0u8..64).collect();
    let buf = NetBufPtr::new(NO_HEADER, frame.clone());
    assert_eq!(buf.packet_len(), 64);
    assert_eq!(buf.packet().as_slice(), frame.as_slice());
}

#[test]
fn handle_round_trip_returns_owned_bytes() {
    let bytes = vec![9u8, 8, 7];
    let buf = NetBufPtr::new(0x1234, bytes.clone());
    assert_eq!(buf.header_addr(), 0x1234);
    let back = buf.take_packet();
    assert_eq!(back, bytes);
}
