use luna_rs::{ECHO_FLAG, MIN_SIZE};
use luna_rs::codec::{decode_packet, encode_packet};
use luna_rs::generator::PacketData;
use luna_rs::record::{DecodeError, ReceivedPacket, SockAddr};
use luna_rs::sender::{SenderState, next_target};
use luna_rs::time::TimeSpec;

#[test]
fn packet_round_trip() {
    let mut buf = vec![0u8; 64];
    encode_packet(&mut buf, 7, 1_700_000_000, 123_456_789, ECHO_FLAG);
    assert_eq!(decode_packet(&buf), (7, 1_700_000_000, 123_456_789, ECHO_FLAG));
    assert_eq!(buf.len(), 64);

    // negative timestamp fields survive
    encode_packet(&mut buf, u32::MAX, -2, -999_999_999, 0);
    assert_eq!(decode_packet(&buf), (u32::MAX, -2, -999_999_999, 0));

    // the extremes survive, in a minimum-size buffer
    let mut small = vec![0u8; MIN_SIZE];
    encode_packet(&mut small, 0, i64::MIN, i64::MAX, 255);
    assert_eq!(decode_packet(&small), (0, i64::MIN, i64::MAX, 255));
}

#[test]
fn packet_layout_is_big_endian() {
    let mut buf = vec![0u8; MIN_SIZE];
    encode_packet(&mut buf, 0x01020304, 0x0506070808070605, 0x1112131415161718, 1);
    assert_eq!(&buf[0..4], &[1, 2, 3, 4]);
    assert_eq!(&buf[4..12], &[5, 6, 7, 8, 8, 7, 6, 5]);
    assert_eq!(&buf[12..20], &[0x11, 0x12, 0x13, 0x14, 0x15, 0x16, 0x17, 0x18]);
    assert_eq!(buf[20], 1);
}

#[test]
fn encode_leaves_padding_alone() {
    let mut buf = vec![0xAAu8; 32];
    encode_packet(&mut buf, 1, 2, 3, 0);
    for i in MIN_SIZE..32 {
        assert_eq!(buf[i], 0xAA);
    }
}

#[test]
fn sender_sequence_and_clamping() {
    // Every directive frames exactly one datagram of the clamped length
    // whose sequence number is the emission index.
    let mut st = SenderState::new(32, true);
    assert_eq!(st.buffer.len(), 32);
    assert_eq!(st.buffer[20], ECHO_FLAG);

    let delay = TimeSpec::new(0, 1);
    let now0 = TimeSpec::new(100, 7);
    let len = st.frame(&PacketData { delay, size: 100 }, now0);
    assert_eq!(len, 32);
    assert_eq!(decode_packet(&st.buffer), (0, 100, 7, ECHO_FLAG));
    st.advance();

    let now1 = TimeSpec::new(100, 9);
    let len = st.frame(&PacketData { delay, size: 25 }, now1);
    assert_eq!(len, 25);
    assert_eq!(decode_packet(&st.buffer), (1, 100, 9, ECHO_FLAG));
    st.advance();

    let len = st.frame(&PacketData { delay, size: MIN_SIZE }, now1);
    assert_eq!(len, MIN_SIZE);
    assert_eq!(decode_packet(&st.buffer), (2, 100, 9, ECHO_FLAG));
}

#[test]
fn sender_without_echo_keeps_flags_clear() {
    let mut st = SenderState::new(MIN_SIZE, false);
    assert_eq!(st.buffer[20], 0);
    let len = st.frame(&PacketData { delay: TimeSpec::new(0, 0), size: 1500 }, TimeSpec::new(5, 6));
    assert_eq!(len, MIN_SIZE);
    assert_eq!(decode_packet(&st.buffer), (0, 5, 6, 0));
}

#[test]
fn pacing_targets_are_absolute() {
    let now = TimeSpec::new(10, 900_000_000);
    let delay = TimeSpec::new(0, 200_000_000);
    // the first directive starts from the clock
    let t1 = next_target(None, now, delay).expect("no overflow");
    assert_eq!(t1, TimeSpec::new(11, 100_000_000));
    // later directives advance the previous target, not the clock
    let t2 = next_target(Some(t1), now, delay).expect("no overflow");
    assert_eq!(t2, TimeSpec::new(11, 300_000_000));
    // an unrepresentable target is reported
    assert_eq!(next_target(Some(TimeSpec::new(i64::MAX, 0)), now, TimeSpec::new(1, 0)), None);
}

#[test]
fn timespec_arithmetic() {
    let a = TimeSpec::new(1, 999_999_999);
    let b = TimeSpec::new(0, 1);
    assert_eq!(a.checked_add(b), Some(TimeSpec::new(2, 0)));
    assert_eq!(TimeSpec::from_millis(1500), TimeSpec::new(1, 500_000_000));
    assert_eq!(TimeSpec::from_micros(30), TimeSpec::new(0, 30_000));
    assert_eq!(TimeSpec::from_nanos(2_000_000_001), TimeSpec::new(2, 1));
}

#[test]
fn record_decode_errors() {
    let src = SockAddr::V6 { ip: 1, port: 7800 };
    let rt = TimeSpec::new(3, 4);
    let buf = vec![0u8; 32];

    let e = ReceivedPacket::try_from(&buf, 10, Some(src), Some(rt)).unwrap_err();
    assert_eq!(e, DecodeError::TooSmall);
    assert_eq!(e.message(), "packet too small");

    let e = ReceivedPacket::try_from(&buf, 21, None, Some(rt)).unwrap_err();
    assert_eq!(e, DecodeError::NoSourceAddress);
    assert_eq!(e.message(), "no source address");

    let e = ReceivedPacket::try_from(&buf, 21, Some(src), None).unwrap_err();
    assert_eq!(e, DecodeError::NoReceiveTime);
    assert_eq!(e.message(), "no receive time data");
}

#[test]
fn record_decodes_the_wire_fields() {
    let mut buf = vec![0u8; 32];
    encode_packet(&mut buf, 42, 123, 456, ECHO_FLAG);
    let src = SockAddr::V4 { ip: 0x7F000001, port: 9 };
    let rt = TimeSpec::new(124, 0);
    let p = ReceivedPacket::try_from(&buf, 25, Some(src), Some(rt)).unwrap();
    assert_eq!(p.source, src);
    assert_eq!(p.receive_time, rt);
    assert_eq!(p.size, 25);
    assert_eq!(p.sequence, 42);
    assert_eq!(p.timestamp, TimeSpec::new(123, 456));
    assert_eq!(p.flags, ECHO_FLAG);
}

#[test]
fn record_line_format() {
    let p = ReceivedPacket {
        source: SockAddr::V6 { ip: 1, port: 7800 },
        receive_time: TimeSpec::new(1, 5),
        size: 21,
        sequence: 3,
        timestamp: TimeSpec::new(2, 123_456_789),
        flags: 1,
    };
    let line = p.format_line("::1");
    assert_eq!(
        String::from_utf8(line).unwrap(),
        "1.000000005\t::1\t7800\t3\t2.123456789\t21"
    );

    let p = ReceivedPacket {
        source: SockAddr::V4 { ip: 0x7F000001, port: 65535 },
        receive_time: TimeSpec::new(-1, 0),
        size: 1500,
        sequence: 4_294_967_295,
        timestamp: TimeSpec::new(0, 0),
        flags: 0,
    };
    let line = p.format_line("127.0.0.1");
    assert_eq!(
        String::from_utf8(line).unwrap(),
        "-1.000000000\t127.0.0.1\t65535\t4294967295\t0.000000000\t1500"
    );
}

#[test]
fn record_header_columns() {
    assert_eq!(
        ReceivedPacket::header(),
        "receive_time\tsource\tport\tsequence\ttimestamp\tsize"
    );
}
