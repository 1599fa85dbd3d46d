use netmap_phy::{max_frame, NetError, SendStatus, TapInterface, UnixDomainSocket};

#[test]
fn max_frame_reduces() {
    assert_eq!(max_frame(1514, None), 1514);
    assert_eq!(max_frame(1514, Some(14)), 1500);
}

#[test]
fn tap_capabilities() {
    let t = TapInterface::from_fd(5, 1500, None);
    assert_eq!(t.capabilities(), 1514);
    assert_eq!(t.recv_buffer_len(), 1514);
    let t = TapInterface::from_fd(5, 9000, Some(1000));
    assert_eq!(t.capabilities(), 8014);
}

#[test]
fn tap_receive_truncates_to_read_size() {
    let mut t = TapInterface::from_fd(5, 1500, None);
    let mut buf = vec![0u8; t.recv_buffer_len()];
    buf[0] = 1;
    buf[1] = 2;
    let (rx, tx) = t.receive(buf, Some(2)).unwrap();
    assert_eq!(rx.consume(), vec![1, 2]);
    assert_eq!(tx.fd, 5);
    assert!(t.receive(vec![0u8; 4], None).is_none());
    let tx = t.transmit().unwrap();
    assert_eq!(tx.buffer(3), vec![0, 0, 0]);
}

#[test]
fn socket_send_status_mapping() {
    let mut s = UnixDomainSocket::from_fd(7, 1500, Some(20));
    assert_eq!(s.capabilities(), 1494);
    let tx = s.transmit().unwrap();
    assert_eq!(tx.finish(SendStatus::Sent(10)), Ok(()));
    let tx = s.transmit().unwrap();
    assert_eq!(tx.finish(SendStatus::WouldBlock), Err(NetError::Exhausted));
    let tx = s.transmit().unwrap();
    assert_eq!(tx.finish(SendStatus::Failed), Err(NetError::Unaddressable));
    let (rx, _) = s.receive(vec![3, 4, 5], Some(3)).unwrap();
    assert_eq!(rx.consume(), vec![3, 4, 5]);
}
