use sntp::codec::encode;
use sntp::engine::adjusted_time;
use sntp::engine::build_request;
use sntp::engine::compute_offset;
use sntp::engine::ntp_to_unix;
use sntp::engine::round_trip_delay;
use sntp::engine::step;
use sntp::engine::unix_to_ntp;
use sntp::engine::Event;
use sntp::engine::Phase;
use sntp::packet::NtpError;
use sntp::packet::NtpPacket;

/// A 48-byte reply whose receive and transmit timestamps are known.
fn crafted_reply(recv_timestamp: u64, trans_timestamp: u64) -> Vec<u8> {
    let mut m = NtpPacket::new();
    m.flags = 0b00100100; // leap 0, version 4, mode 4 (server)
    m.stratum = 2;
    m.recv_timestamp = recv_timestamp;
    m.trans_timestamp = trans_timestamp;
    encode(&m)
}

#[test]
fn offset_example_values() {
    // t1 = 1000, t2 = 1005, t3 = 1006, t4 = 1010:
    // theta = ((1005 - 1000) + (1006 - 1010)) / 2 = (5 + (-4)) / 2 = 0.
    let theta = compute_offset(1000, 1005, 1006, 1010);
    assert_eq!(theta, 0);
    assert_eq!(adjusted_time(1010, theta), 1010);
    // delta = (1010 - 1000) - (1006 - 1005) = 9.
    assert_eq!(round_trip_delay(1000, 1005, 1006, 1010), 9);
}

#[test]
fn offset_truncates_toward_zero() {
    // ((5 - 10) + (6 - 12)) / 2 = -11 / 2 = -5, not -6.
    assert_eq!(compute_offset(10, 5, 6, 12), -5);
    // ((16 - 10) + (17 - 12)) / 2 = 11 / 2 = 5.
    assert_eq!(compute_offset(10, 16, 17, 12), 5);
}

#[test]
fn offset_is_signed_when_server_lags() {
    // Server clock behind the client: both differences negative.
    assert_eq!(compute_offset(100, 40, 42, 104), -61);
    assert_eq!(adjusted_time(104, -61), 43);
}

#[test]
fn build_request_sets_transmit_time_only() {
    let r = build_request(0xDEADBEEF);
    let mut expected = NtpPacket::new();
    expected.trans_timestamp = 0xDEADBEEF;
    assert_eq!(r, expected);
}

#[test]
fn end_to_end_exchange() {
    // Connect at local time 1000.
    let p = step(Phase::Connecting, Event::Connected { now: 1000 }).unwrap();
    let request = match p {
        Phase::Requesting { request } => request,
        _ => panic!("expected the requesting phase"),
    };
    // The request is mode 3 (client) and encodes to exactly 48 bytes.
    assert_eq!(request.flags & 0b111, 3);
    assert_eq!(request.trans_timestamp, 1000);
    let wire = encode(&request);
    assert_eq!(wire.len(), 48);
    assert_eq!(wire[0] & 0b111, 3);

    // The 48 bytes go out whole.
    let p = step(p, Event::Sent).unwrap();
    assert_eq!(p, Phase::Awaiting { t1: 1000 });

    // The server replies with known timestamps; we receive at 1010.
    let reply = crafted_reply(1005, 1006);
    let p = step(p, Event::Received { bytes: reply, now: 1010 }).unwrap();
    assert_eq!(p, Phase::Done { offset: 0, delay: 9, adjusted: 1010 });
}

#[test]
fn exchange_with_nonzero_offset() {
    let p = step(Phase::Connecting, Event::Connected { now: 2000 }).unwrap();
    let p = step(p, Event::Sent).unwrap();
    let reply = crafted_reply(2107, 2109);
    let p = step(p, Event::Received { bytes: reply, now: 2004 }).unwrap();
    // theta = ((2107 - 2000) + (2109 - 2004)) / 2 = (107 + 105) / 2 = 106.
    // delta = (2004 - 2000) - (2109 - 2107) = 2.
    assert_eq!(p, Phase::Done { offset: 106, delay: 2, adjusted: 2110 });
}

#[test]
fn unix_to_ntp_epoch_and_fixed_point() {
    // The Unix epoch itself is 2,208,988,800 s after the NTP epoch,
    // carried in the high 32 bits; the fraction is zero.
    assert_eq!(unix_to_ntp(0), 2208988800u64 << 32);
    // 2021-01-01 00:00:00 UTC.
    assert_eq!(unix_to_ntp(1609459200), (1609459200u64 + 2208988800) << 32);
    // The 32-bit second counter wraps at 2^32 (the NTP era boundary).
    assert_eq!(unix_to_ntp(0x100000000 - 2208988800), 0);
}

#[test]
fn ntp_to_unix_inverts_whole_seconds() {
    assert_eq!(ntp_to_unix(unix_to_ntp(0)), 0);
    assert_eq!(ntp_to_unix(unix_to_ntp(1609459200)), 1609459200);
    // The fraction in the low 32 bits is dropped.
    assert_eq!(ntp_to_unix(unix_to_ntp(1609459200) | 0x89ABCDEF), 1609459200);
    // Before the gap the count wraps back around, staying in 32 bits.
    assert_eq!(ntp_to_unix(0), 0x100000000 - 2208988800);
}

#[test]
fn connect_failure_is_unreachable_server() {
    let r = step(Phase::Connecting, Event::ConnectFailed);
    assert_eq!(r, Err(NtpError::UnreachableServer));
}

#[test]
fn send_failure_is_send_error() {
    let request = build_request(5);
    let r = step(Phase::Requesting { request }, Event::SendFailed);
    assert_eq!(r, Err(NtpError::SendError));
}

#[test]
fn short_read_is_receive_error() {
    // Only 20 bytes arrive before the connection closes.
    let twenty: Vec<u8> = vec![0x5A; 20];
    let r = step(Phase::Awaiting { t1: 1000 }, Event::Received { bytes: twenty, now: 1010 });
    assert_eq!(r, Err(NtpError::ReceiveError));
}

#[test]
fn failed_read_is_receive_error() {
    let r = step(Phase::Awaiting { t1: 1000 }, Event::ReceiveFailed);
    assert_eq!(r, Err(NtpError::ReceiveError));
}
