use tun_tcp::addr::{normalize_destination, to_ipv4_mapped, Ipv4Octets, Ipv6Segments, SockAddr};
use tun_tcp::conn::{PollRead, PollShutdown, PollWrite, TcpConnection};
use tun_tcp::manager::{SocketEntry, TcpSocketManager};
use tun_tcp::packet::is_handshake_syn;
use tun_tcp::socket::{SocketState, VirtTcpSocket};
use tun_tcp::tun::{TcpTun, TunError, DEFAULT_RECV_BUFFER_SIZE, DEFAULT_SEND_BUFFER_SIZE,
                   DRIVER_FALLBACK_MILLIS};

fn tcp_segment(flags_low: u8) -> Vec<u8> {
    let mut seg = vec![0u8; 20];
    seg[13] = flags_low;
    seg
}

fn v4(a: u8, b: u8, c: u8, d: u8, port: u16) -> SockAddr {
    SockAddr::V4 { ip: Ipv4Octets { a, b, c, d }, port }
}

fn established_socket(recv_cap: usize, send_cap: usize) -> VirtTcpSocket {
    let mut s = VirtTcpSocket::new(recv_cap, send_cap);
    s.complete_handshake();
    s
}

fn entry_for(s: VirtTcpSocket, peer: SockAddr, local: SockAddr) -> SocketEntry {
    SocketEntry { socket: s, local, peer }
}

#[test]
fn ipv4_mapped_destination_is_normalized() {
    // ::ffff:93.184.216.34 -> 93.184.216.34, same port.
    let ip = Ipv6Segments { s0: 0, s1: 0, s2: 0, s3: 0, s4: 0, s5: 0xffff, s6: 0x5db8, s7: 0xd822 };
    assert_eq!(
        to_ipv4_mapped(&ip),
        Some(Ipv4Octets { a: 93, b: 184, c: 216, d: 34 })
    );
    let r = normalize_destination(SockAddr::V6 { ip, port: 80 });
    assert_eq!(r, v4(93, 184, 216, 34, 80));
}

#[test]
fn plain_ipv6_destination_is_kept() {
    let ip = Ipv6Segments { s0: 0x2001, s1: 0xdb8, s2: 0, s3: 0, s4: 0, s5: 0, s6: 0, s7: 1 };
    assert_eq!(to_ipv4_mapped(&ip), None);
    let addr = SockAddr::V6 { ip, port: 443 };
    assert_eq!(normalize_destination(addr), addr);
}

#[test]
fn plain_ipv4_destination_is_kept() {
    let addr = v4(10, 0, 0, 1, 8080);
    assert_eq!(normalize_destination(addr), addr);
}

#[test]
fn handshake_flags_are_parsed_from_the_wire() {
    assert!(is_handshake_syn(&tcp_segment(0x02))); // SYN
    assert!(!is_handshake_syn(&tcp_segment(0x12))); // SYN|ACK
    assert!(!is_handshake_syn(&tcp_segment(0x10))); // ACK
    assert!(!is_handshake_syn(&tcp_segment(0x01))); // FIN
    assert!(!is_handshake_syn(&tcp_segment(0x00)));
}

#[test]
fn fresh_socket_listens_with_configured_buffers() {
    let s = VirtTcpSocket::new(64, 32);
    assert_eq!(s.state, SocketState::Listen);
    assert_eq!(s.recv_capacity, 64);
    assert_eq!(s.send_capacity, 32);
    assert!(s.recv_buf.is_empty());
    assert!(s.send_buf.is_empty());
    assert!(s.is_open());
    assert!(!s.can_recv());
    assert!(!s.can_send());
}

#[test]
fn delivered_bytes_are_read_in_order_exactly_once() {
    let mut s = established_socket(8, 8);
    assert_eq!(s.deliver_bytes(&[1, 2, 3, 4, 5]), 5);
    assert_eq!(s.recv_slice(2), vec![1, 2]);
    assert_eq!(s.recv_slice(10), vec![3, 4, 5]);
    assert_eq!(s.recv_slice(10), Vec::<u8>::new());
}

#[test]
fn delivery_clips_to_free_receive_space() {
    let mut s = established_socket(4, 4);
    assert_eq!(s.deliver_bytes(&[9, 9, 9]), 3);
    assert_eq!(s.deliver_bytes(&[7, 7, 7]), 1);
    assert_eq!(s.recv_buf, vec![9, 9, 9, 7]);
}

#[test]
fn written_bytes_are_drained_in_order_exactly_once() {
    let mut s = established_socket(8, 8);
    assert_eq!(s.send_slice(&[10, 20, 30]), 3);
    assert_eq!(s.take_send_bytes(2), vec![10, 20]);
    assert_eq!(s.send_slice(&[40]), 1);
    assert_eq!(s.take_send_bytes(10), vec![30, 40]);
}

#[test]
fn writes_clip_to_free_send_space() {
    let mut s = established_socket(8, 2);
    assert_eq!(s.send_slice(&[1, 2, 3, 4]), 2);
    assert_eq!(s.send_buf, vec![1, 2]);
    assert_eq!(s.send_slice(&[5]), 0);
}

#[test]
fn interleaved_reads_and_writes_do_not_corrupt_either_stream() {
    let mut s = established_socket(6, 6);
    s.deliver_bytes(&[1, 2]);
    s.send_slice(&[101, 102]);
    let first_read = s.recv_slice(1);
    s.deliver_bytes(&[3]);
    s.send_slice(&[103]);
    let first_drain = s.take_send_bytes(2);
    let second_read = s.recv_slice(10);
    let second_drain = s.take_send_bytes(10);
    let mut read_all = first_read.clone();
    read_all.extend(second_read);
    let mut drained_all = first_drain.clone();
    drained_all.extend(second_drain);
    assert_eq!(read_all, vec![1, 2, 3]);
    assert_eq!(drained_all, vec![101, 102, 103]);
}

#[test]
fn close_walks_the_state_machine() {
    let mut listening = VirtTcpSocket::new(4, 4);
    listening.close();
    assert_eq!(listening.state, SocketState::Closed);

    let mut established = established_socket(4, 4);
    established.close();
    assert_eq!(established.state, SocketState::HalfClosed);
    assert!(established.is_open());
    established.close();
    assert_eq!(established.state, SocketState::HalfClosed);
    established.complete_close();
    assert_eq!(established.state, SocketState::Closed);
}

#[test]
fn half_closed_socket_still_delivers_reads() {
    let mut s = established_socket(4, 4);
    s.deliver_bytes(&[42]);
    s.close();
    assert!(s.can_recv());
    assert!(!s.can_send());
    assert_eq!(s.recv_slice(4), vec![42]);
}

#[test]
fn dropped_handle_leaves_no_socket_behind() {
    let mut manager = TcpSocketManager::new();
    let conn = TcpConnection::new(
        entry_for(VirtTcpSocket::new(4, 4), v4(10, 0, 0, 2, 4000), v4(10, 0, 0, 3, 80)),
        &mut manager,
    );
    let h = conn.socket_handle;
    assert!(manager.contains_handle(h));
    conn.drop(&mut manager);
    assert!(!manager.contains_handle(h));
}

#[test]
fn bounded_pool_of_add_remove_cycles_reuses_slots() {
    let mut manager = TcpSocketManager::new();
    for i in 0..100u16 {
        let conn = TcpConnection::new(
            entry_for(VirtTcpSocket::new(4, 4), v4(10, 0, 0, 2, 4000 + i), v4(10, 0, 0, 3, 80)),
            &mut manager,
        );
        let h = conn.socket_handle;
        assert_eq!(h, 0);
        conn.drop(&mut manager);
        assert!(!manager.contains_handle(h));
    }
    assert_eq!(manager.slot_count(), 1);
}

#[test]
fn read_on_closed_socket_is_end_of_stream() {
    let mut manager = TcpSocketManager::new();
    let mut socket = established_socket(4, 4);
    socket.deliver_bytes(&[1]);
    socket.complete_close();
    let conn = TcpConnection::new(
        entry_for(socket, v4(10, 0, 0, 2, 4000), v4(10, 0, 0, 3, 80)),
        &mut manager,
    );
    let r = conn.poll_read(&mut manager, 1, 4);
    assert!(matches!(r, PollRead::Eof));
    assert!(!manager.notify_pending);
    conn.drop(&mut manager);
}

#[test]
fn read_delivers_buffered_bytes_and_wakes_the_driver() {
    let mut manager = TcpSocketManager::new();
    let mut socket = established_socket(8, 8);
    socket.deliver_bytes(&[5, 6, 7]);
    let conn = TcpConnection::new(
        entry_for(socket, v4(10, 0, 0, 2, 4000), v4(10, 0, 0, 3, 80)),
        &mut manager,
    );
    match conn.poll_read(&mut manager, 1, 2) {
        PollRead::Data(d) => assert_eq!(d, vec![5, 6]),
        other => panic!("expected data, got {:?}", other),
    }
    assert!(manager.notify_pending);
    conn.drop(&mut manager);
}

#[test]
fn read_without_data_registers_the_waker() {
    let mut manager = TcpSocketManager::new();
    let conn = TcpConnection::new(
        entry_for(established_socket(8, 8), v4(10, 0, 0, 2, 4000), v4(10, 0, 0, 3, 80)),
        &mut manager,
    );
    let r = conn.poll_read(&mut manager, 77, 4);
    assert!(matches!(r, PollRead::Pending));
    assert!(!manager.notify_pending);
    let h = conn.socket_handle;
    assert_eq!(manager.slots[h].as_ref().unwrap().socket.recv_waker, Some(77));
    conn.drop(&mut manager);
}

#[test]
fn write_on_closed_socket_is_a_broken_pipe() {
    let mut manager = TcpSocketManager::new();
    let mut socket = established_socket(4, 4);
    socket.complete_close();
    let conn = TcpConnection::new(
        entry_for(socket, v4(10, 0, 0, 2, 4000), v4(10, 0, 0, 3, 80)),
        &mut manager,
    );
    let r = conn.poll_write(&mut manager, 1, &[1, 2, 3]);
    assert!(matches!(r, PollWrite::BrokenPipe));
    assert!(!manager.notify_pending);
    conn.drop(&mut manager);
}

#[test]
fn write_accepts_what_fits_and_wakes_the_driver() {
    let mut manager = TcpSocketManager::new();
    let conn = TcpConnection::new(
        entry_for(established_socket(8, 2), v4(10, 0, 0, 2, 4000), v4(10, 0, 0, 3, 80)),
        &mut manager,
    );
    match conn.poll_write(&mut manager, 1, &[8, 9, 10]) {
        PollWrite::Accepted(n) => assert_eq!(n, 2),
        other => panic!("expected acceptance, got {:?}", other),
    }
    assert!(manager.notify_pending);
    let h = conn.socket_handle;
    assert_eq!(manager.slots[h].as_ref().unwrap().socket.send_buf, vec![8, 9]);
    conn.drop(&mut manager);
}

#[test]
fn write_without_space_registers_the_waker() {
    let mut manager = TcpSocketManager::new();
    let mut socket = established_socket(8, 2);
    socket.send_slice(&[1, 2]);
    let conn = TcpConnection::new(
        entry_for(socket, v4(10, 0, 0, 2, 4000), v4(10, 0, 0, 3, 80)),
        &mut manager,
    );
    let r = conn.poll_write(&mut manager, 55, &[3]);
    assert!(matches!(r, PollWrite::Pending));
    assert!(!manager.notify_pending);
    let h = conn.socket_handle;
    assert_eq!(manager.slots[h].as_ref().unwrap().socket.send_waker, Some(55));
    conn.drop(&mut manager);
}

#[test]
fn shutdown_half_closes_then_completes() {
    let mut manager = TcpSocketManager::new();
    let conn = TcpConnection::new(
        entry_for(established_socket(4, 4), v4(10, 0, 0, 2, 4000), v4(10, 0, 0, 3, 80)),
        &mut manager,
    );
    let h = conn.socket_handle;
    let r = conn.poll_shutdown(&mut manager, 9);
    assert!(matches!(r, PollShutdown::Pending));
    assert_eq!(manager.slots[h].as_ref().unwrap().socket.state, SocketState::HalfClosed);
    assert_eq!(manager.slots[h].as_ref().unwrap().socket.send_waker, Some(9));
    assert!(!manager.notify_pending);
    // The stack finishes the close handshake; the next attempt completes.
    manager.slots[h].as_mut().unwrap().socket.complete_close();
    let r = conn.poll_shutdown(&mut manager, 9);
    assert!(matches!(r, PollShutdown::Done));
    assert!(manager.notify_pending);
    conn.drop(&mut manager);
}

#[test]
fn shutdown_of_a_listening_socket_completes_at_once() {
    let mut manager = TcpSocketManager::new();
    let conn = TcpConnection::new(
        entry_for(VirtTcpSocket::new(4, 4), v4(10, 0, 0, 2, 4000), v4(10, 0, 0, 3, 80)),
        &mut manager,
    );
    let r = conn.poll_shutdown(&mut manager, 9);
    assert!(matches!(r, PollShutdown::Done));
    let h = conn.socket_handle;
    assert_eq!(manager.slots[h].as_ref().unwrap().socket.state, SocketState::Closed);
    conn.drop(&mut manager);
}

#[test]
fn syn_for_a_new_tuple_creates_exactly_one_connection() {
    let mut tun = TcpTun::new(None, None);
    let src = v4(192, 0, 2, 7, 51000);
    let dst = v4(203, 0, 113, 5, 80);
    let r = tun.handle_packet(src, dst, &tcp_segment(0x02));
    let conn = r.expect("handshake must be accepted").expect("a connection must be created");
    assert_eq!(tun.manager.slot_count(), 1);
    let entry = tun.manager.slots[conn.socket_handle].as_ref().unwrap();
    assert_eq!(entry.peer, src);
    assert_eq!(entry.local, dst);
    assert_eq!(entry.socket.state, SocketState::Listen);
    assert_eq!(entry.socket.recv_capacity, DEFAULT_RECV_BUFFER_SIZE as usize);
    assert_eq!(entry.socket.send_capacity, DEFAULT_SEND_BUFFER_SIZE as usize);

    // A duplicate handshake for the same tuple while the socket is open is
    // absorbed: no second handle.
    let dup = tun.handle_packet(src, dst, &tcp_segment(0x02));
    assert!(matches!(dup, Ok(None)));
    assert_eq!(tun.manager.slot_count(), 1);
    conn.drop(&mut tun.manager);
}

#[test]
fn configured_buffer_sizes_reach_the_new_socket() {
    let mut tun = TcpTun::new(Some(1000), Some(2000));
    let r = tun.handle_packet(v4(1, 2, 3, 4, 5), v4(5, 6, 7, 8, 90), &tcp_segment(0x02));
    let conn = r.unwrap().unwrap();
    let entry = tun.manager.slots[conn.socket_handle].as_ref().unwrap();
    assert_eq!(entry.socket.send_capacity, 1000);
    assert_eq!(entry.socket.recv_capacity, 2000);
    conn.drop(&mut tun.manager);
}

#[test]
fn non_handshake_segments_are_ignored() {
    let mut tun = TcpTun::new(None, None);
    let src = v4(192, 0, 2, 7, 51000);
    let dst = v4(203, 0, 113, 5, 80);
    assert!(matches!(tun.handle_packet(src, dst, &tcp_segment(0x12)), Ok(None)));
    assert!(matches!(tun.handle_packet(src, dst, &tcp_segment(0x10)), Ok(None)));
    assert_eq!(tun.manager.slot_count(), 0);
}

#[test]
fn listening_on_port_zero_is_refused() {
    let mut tun = TcpTun::new(None, None);
    let r = tun.handle_packet(v4(1, 2, 3, 4, 5), v4(5, 6, 7, 8, 0), &tcp_segment(0x02));
    assert!(matches!(r, Err(TunError::InvalidListenAddress)));
    assert_eq!(tun.manager.slot_count(), 0);
}

#[test]
fn closed_tuple_admits_a_fresh_handshake() {
    let mut tun = TcpTun::new(None, None);
    let src = v4(192, 0, 2, 7, 51000);
    let dst = v4(203, 0, 113, 5, 80);
    let conn = tun.handle_packet(src, dst, &tcp_segment(0x02)).unwrap().unwrap();
    let h = conn.socket_handle;
    tun.manager.slots[h].as_mut().unwrap().socket.complete_close();
    // The old socket is closed, so a new handshake is a new connection.
    let second = tun.handle_packet(src, dst, &tcp_segment(0x02)).unwrap();
    assert!(second.is_some());
    conn.drop(&mut tun.manager);
    second.unwrap().drop(&mut tun.manager);
}

#[test]
fn inbound_frames_are_queued_and_wake_the_driver() {
    let mut tun = TcpTun::new(None, None);
    tun.drive_interface_state(&[1, 2, 3]);
    tun.drive_interface_state(&[4]);
    assert!(tun.manager.notify_pending);
    assert_eq!(tun.inbound, vec![vec![1, 2, 3], vec![4]]);
}

#[test]
fn outbound_frames_come_back_in_order() {
    let mut tun = TcpTun::new(None, None);
    assert_eq!(tun.recv_packet(), None);
    tun.push_outbound_frame(vec![1]);
    tun.push_outbound_frame(vec![2, 2]);
    assert_eq!(tun.recv_packet(), Some(vec![1]));
    assert_eq!(tun.recv_packet(), Some(vec![2, 2]));
    assert_eq!(tun.recv_packet(), None);
}

#[test]
fn driver_step_drains_frames_and_bounds_its_sleep() {
    let mut tun = TcpTun::new(None, None);
    tun.drive_interface_state(&[9, 9]);
    let (frames, wait) = tun.driver_step(None);
    assert_eq!(frames, vec![vec![9, 9]]);
    assert!(tun.inbound.is_empty());
    assert!(!tun.manager.notify_pending);
    assert_eq!(wait, DRIVER_FALLBACK_MILLIS);
    // With a pending stack deadline the loop sleeps exactly that long.
    let (_, wait) = tun.driver_step(Some(10));
    assert_eq!(wait, 10);
}

#[test]
fn dropping_the_facade_stops_the_driver() {
    let mut tun = TcpTun::new(None, None);
    let conn = tun
        .handle_packet(v4(1, 2, 3, 4, 5), v4(5, 6, 7, 8, 90), &tcp_segment(0x02))
        .unwrap()
        .unwrap();
    tun.drop();
    assert!(!tun.driver_running);
    // Later notifications are inert: they may raise the wake flag but stop
    // nothing else and never restart the loop.
    tun.manager.notify();
    assert!(!tun.driver_running);
    assert_eq!(tun.manager.slot_count(), 1);
    conn.drop(&mut tun.manager);
}
