use luna_rs::{ECHO_FLAG, MIN_SIZE};
use luna_rs::client::{SizeError, check_put_size, handle_echo};
use luna_rs::codec::encode_packet;
use luna_rs::process::{PrivError, accept_noperm, capability_gate, rt_priority};
use luna_rs::record::SockAddr;
use luna_rs::server::{
    CloseHandle, Server, ServerError, ShutdownError, close_outcome, handle_datagram,
};
use luna_rs::time::TimeSpec;

#[test]
fn server_lifecycle() {
    let configured = SockAddr::V6 { ip: 1, port: 0 };
    let mut srv = Server::new(configured, 1500, true);
    assert_eq!(srv.bound(), None);
    assert!(srv.run_fd().is_err());
    assert_eq!(srv.run_fd().unwrap_err(), ServerError::NotConnected);
    assert_eq!(ServerError::NotConnected.message(), "socket not bound");

    // bind() stores the actually bound address, ephemeral port resolved
    let actual = SockAddr::V6 { ip: 1, port: 54321 };
    let handle = srv.bind(7, actual);
    assert_eq!(handle.fd, Some(7));
    assert_eq!(srv.bound(), Some(actual));
    assert_eq!(srv.run_fd().unwrap(), 7);
}

#[test]
fn close_handle_is_idempotent() {
    // The first close hands the descriptor out; the second finds the
    // handle empty and succeeds without doing anything.
    let mut handle = CloseHandle::new(5);
    assert_eq!(handle.close(), Some(5));
    assert_eq!(handle.close(), None);
    assert_eq!(handle.close(), None);

    // a shutdown that found the server already stopped is a success
    assert_eq!(close_outcome(None), Ok(()));
    assert_eq!(close_outcome(Some(ShutdownError::NotConnected)), Ok(()));
    assert_eq!(close_outcome(Some(ShutdownError::Other(9))), Err(9));
}

#[test]
fn short_packet_is_skipped_and_not_echoed() {
    // A 10-byte datagram: no echo, no record, and the loop goes on.
    let buf = vec![1u8; 32];
    let src = SockAddr::V6 { ip: 1, port: 4242 };
    let (stop, echo, record) = handle_datagram(&buf, 10, Some(src), Some(TimeSpec::new(1, 2)));
    assert!(!stop);
    assert!(echo.is_none());
    assert!(record.is_none());
}

#[test]
fn short_packet_with_echo_bit_is_echoed() {
    // A packet of exactly MIN_SIZE bytes with the echo bit set is echoed
    // verbatim, even when it makes no record (here: no receive time).
    let mut buf = vec![0u8; 64];
    buf[20] = ECHO_FLAG;
    let src = SockAddr::V4 { ip: 0x0A000001, port: 1000 };
    let (stop, echo, record) = handle_datagram(&buf, 21, Some(src), None);
    assert!(!stop);
    assert_eq!(echo.unwrap(), &buf[..21]);
    assert!(record.is_none());

    // with the ancillary data present the record is published too
    let (_, echo, record) = handle_datagram(&buf, 21, Some(src), Some(TimeSpec::new(9, 9)));
    assert_eq!(echo.unwrap().len(), MIN_SIZE);
    let r = record.unwrap();
    assert_eq!(r.source, src);
    assert_eq!(r.size, 21);
    assert_eq!(r.flags, ECHO_FLAG);
}

#[test]
fn echo_decision_reads_only_length_and_flag() {
    let mut buf = vec![0u8; 64];
    // echo bit clear: never echoed, whatever the length
    let src = SockAddr::V4 { ip: 1, port: 2 };
    let (_, echo, _) = handle_datagram(&buf, 64, Some(src), Some(TimeSpec::new(0, 0)));
    assert!(echo.is_none());
    // echo bit set: the whole received datagram goes back
    buf[20] = ECHO_FLAG;
    let (_, echo, _) = handle_datagram(&buf, 40, Some(src), Some(TimeSpec::new(0, 0)));
    assert_eq!(echo.unwrap(), &buf[..40]);
}

#[test]
fn zero_bytes_stop_the_server_loop() {
    let buf = vec![0u8; 32];
    let (stop, echo, record) = handle_datagram(&buf, 0, None, None);
    assert!(stop);
    assert!(echo.is_none());
    assert!(record.is_none());
}

#[test]
fn wrong_source_is_never_published() {
    let server = SockAddr::V6 { ip: 7, port: 7800 };
    let spoofed = SockAddr::V6 { ip: 8, port: 7800 };
    let mut buf = vec![0u8; 32];
    encode_packet(&mut buf, 1, 2, 3, 0);
    let rt = Some(TimeSpec::new(5, 5));

    // an echo from the configured server is published
    let (stop, rec) = handle_echo(&buf, 21, Some(server), rt, server);
    assert!(!stop);
    assert_eq!(rec.unwrap().source, server);

    // the same bytes from anywhere else are dropped in silence
    let (stop, rec) = handle_echo(&buf, 21, Some(spoofed), rt, server);
    assert!(!stop);
    assert!(rec.is_none());

    // a different port is a different source
    let odd_port = SockAddr::V6 { ip: 7, port: 7801 };
    let (_, rec) = handle_echo(&buf, 21, Some(odd_port), rt, server);
    assert!(rec.is_none());
}

#[test]
fn echo_reader_stops_on_read_shutdown() {
    let server = SockAddr::V6 { ip: 7, port: 7800 };
    let buf = vec![0u8; 32];
    let (stop, rec) = handle_echo(&buf, 0, None, None, server);
    assert!(stop);
    assert!(rec.is_none());
}

#[test]
fn echo_reader_skips_undecodable_messages() {
    let server = SockAddr::V4 { ip: 1, port: 1 };
    let buf = vec![0u8; 32];
    // too short
    let (stop, rec) = handle_echo(&buf, 10, Some(server), Some(TimeSpec::new(0, 0)), server);
    assert!(!stop && rec.is_none());
    // no receive timestamp
    let (stop, rec) = handle_echo(&buf, 21, Some(server), None, server);
    assert!(!stop && rec.is_none());
    // no source address
    let (stop, rec) = handle_echo(&buf, 21, None, Some(TimeSpec::new(0, 0)), server);
    assert!(!stop && rec.is_none());
}

#[test]
fn put_size_bounds() {
    assert_eq!(check_put_size(MIN_SIZE, 1500), Ok(()));
    assert_eq!(check_put_size(1500, 1500), Ok(()));
    assert_eq!(check_put_size(MIN_SIZE - 1, 1500), Err(SizeError::TooSmall));
    assert_eq!(check_put_size(1501, 1500), Err(SizeError::TooLarge));
    assert_eq!(SizeError::TooSmall.message(), "size smaller than minimum");
    assert_eq!(SizeError::TooLarge.message(), "size too large, increase buffer_size");
}

#[test]
fn realtime_priority_is_capped() {
    assert_eq!(rt_priority(1, 99, 20), 21);
    assert_eq!(rt_priority(1, 99, 200), 99);
    assert_eq!(rt_priority(1, 99, 0), 1);
}

#[test]
fn permission_denials_are_warnings() {
    assert_eq!(accept_noperm(Ok(())), Ok(false));
    assert_eq!(accept_noperm(Err(PrivError::PermissionDenied)), Ok(true));
    assert_eq!(accept_noperm(Err(PrivError::Other(5))), Err(PrivError::Other(5)));

    assert_eq!(capability_gate(true), Ok(()));
    assert_eq!(capability_gate(false), Err(PrivError::PermissionDenied));
}
