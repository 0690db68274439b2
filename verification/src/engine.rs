//! One request/response exchange: building the request, the clock
//! offset arithmetic over the four protocol timestamps, and the linear
//! state machine that ties the steps together. All I/O stays with the
//! caller, which feeds the outcome of each step back in as an event.

use vstd::prelude::*;

use crate::codec::decode;
use crate::codec::spec_decode;
use crate::packet::NtpError;
use crate::packet::NtpPacket;

verus! {

/// `s` halved with the quotient truncated toward zero, as a signed
/// integer division does.
pub open spec fn half_toward_zero(s: int) -> int {
    if s >= 0 {
        s / 2
    } else {
        -((-s) / 2)
    }
}

/// The clock offset: `((t2 - t1) + (t3 - t4)) / 2`, signed, the
/// halving truncated toward zero. `t1` is the local send time, `t2`
/// the server receipt time, `t3` the server send time, `t4` the local
/// receipt time.
pub open spec fn spec_offset(t1: u64, t2: u64, t3: u64, t4: u64) -> int {
    half_toward_zero((t2 - t1) + (t3 - t4))
}

/// The round-trip delay: `(t4 - t1) - (t3 - t2)`, signed.
pub open spec fn spec_delay(t1: u64, t2: u64, t3: u64, t4: u64) -> int {
    (t4 - t1) - (t3 - t2)
}

/// The local receipt time corrected by the offset.
pub open spec fn spec_adjusted(t4: u64, offset: int) -> int {
    t4 + offset
}

/// Seconds from the NTP epoch (1900-01-01) to the Unix epoch
/// (1970-01-01): NTP second counts exceed Unix ones by this much.
pub const NTP_UNIX_EPOCH_GAP: u64 = 2208988800;

/// The NTP 64-bit fixed-point timestamp of a local time given as Unix
/// seconds: seconds since 1900 in the high 32 bits, wrapped as the
/// 32-bit protocol field is, and a zero fraction in the low 32 bits.
pub open spec fn spec_unix_to_ntp(secs: u64) -> u64 {
    ((((secs + NTP_UNIX_EPOCH_GAP) % 0x100000000) * 0x100000000) as u64)
}

/// The Unix seconds named by an NTP timestamp: its high 32 bits moved
/// back from the 1900 epoch, wrapped to 32 bits; the fraction in the
/// low 32 bits is dropped.
pub open spec fn spec_ntp_to_unix(t: u64) -> u64 {
    ((((t / 0x100000000) - NTP_UNIX_EPOCH_GAP) % 0x100000000) as u64)
}

/// Convert a local clock reading in Unix seconds to the NTP
/// epoch/fixed-point form the protocol timestamps carry.
pub fn unix_to_ntp(secs: u64) -> (r: u64)
    ensures
        r == spec_unix_to_ntp(secs),
{
    let wrapped: u64 = ((secs % 0x100000000) + NTP_UNIX_EPOCH_GAP) % 0x100000000;
    proof {
        vstd::arithmetic::div_mod::lemma_small_mod(
            NTP_UNIX_EPOCH_GAP as nat,
            0x100000000nat,
        );
        vstd::arithmetic::div_mod::lemma_add_mod_noop(
            secs as int,
            NTP_UNIX_EPOCH_GAP as int,
            0x100000000int,
        );
    }
    wrapped * 0x100000000
}

/// Convert an NTP timestamp back to whole Unix seconds, for reporting.
pub fn ntp_to_unix(t: u64) -> (r: u64)
    ensures
        r == spec_ntp_to_unix(t),
{
    let hi: u64 = t / 0x100000000;
    if hi >= NTP_UNIX_EPOCH_GAP {
        proof {
            vstd::arithmetic::div_mod::lemma_small_mod(
                (hi - NTP_UNIX_EPOCH_GAP) as nat,
                0x100000000nat,
            );
        }
        hi - NTP_UNIX_EPOCH_GAP
    } else {
        proof {
            vstd::arithmetic::div_mod::lemma_mod_add_multiples_vanish(
                hi - NTP_UNIX_EPOCH_GAP,
                0x100000000int,
            );
            vstd::arithmetic::div_mod::lemma_small_mod(
                (hi + 0x100000000 - NTP_UNIX_EPOCH_GAP) as nat,
                0x100000000nat,
            );
        }
        hi + 0x100000000 - NTP_UNIX_EPOCH_GAP
    }
}

/// The client request carrying `now` as its transmit timestamp and
/// otherwise only the fixed request constants.
pub open spec fn spec_request(now: u64) -> NtpPacket {
    NtpPacket {
        flags: 0b00100011u8,
        stratum: 0u8,
        poll: 0u8,
        precision: 0u8,
        root_delay: 0u32,
        root_dispersion: 0u32,
        ref_id: 0u32,
        ref_timestamp: 0u64,
        orig_timestamp: 0u64,
        recv_timestamp: 0u64,
        trans_timestamp: now,
    }
}

/// Build the request to send at local time `now`.
pub fn build_request(now: u64) -> (r: NtpPacket)
    ensures
        r == spec_request(now),
{
    let mut p = NtpPacket::new();
    p.trans_timestamp = now;
    p
}

/// The clock offset from the four timestamps of one exchange.
pub fn compute_offset(t1: u64, t2: u64, t3: u64, t4: u64) -> (r: i128)
    ensures
        r == spec_offset(t1, t2, t3, t4),
{
    let d1: i128 = (t2 as i128) - (t1 as i128);
    let d2: i128 = (t3 as i128) - (t4 as i128);
    let s: i128 = d1 + d2;
    if s >= 0 {
        s / 2
    } else {
        -((-s) / 2)
    }
}

/// The round-trip delay from the four timestamps of one exchange.
pub fn round_trip_delay(t1: u64, t2: u64, t3: u64, t4: u64) -> (r: i128)
    ensures
        r == spec_delay(t1, t2, t3, t4),
{
    let d1: i128 = (t4 as i128) - (t1 as i128);
    let d2: i128 = (t3 as i128) - (t2 as i128);
    d1 - d2
}

/// The local receipt time `t4` corrected by `offset`.
pub fn adjusted_time(t4: u64, offset: i128) -> (r: i128)
    requires
        i128::MIN <= t4 + offset <= i128::MAX,
    ensures
        r == spec_adjusted(t4, offset as int),
{
    (t4 as i128) + offset
}

/// Where the exchange stands. The phases follow each other in a
/// straight line; a failure at any step ends the run.
#[derive(Clone, Copy, PartialEq, Eq, Structural, Debug)]
pub enum Phase {
    /// Resolving and connecting to the server.
    Connecting,
    /// Holding the request to encode and send.
    Requesting { request: NtpPacket },
    /// Request sent at local time `t1`; waiting for 48 response bytes.
    Awaiting { t1: u64 },
    /// Response processed: the computed offset, delay and adjusted time.
    Done { offset: i128, delay: i128, adjusted: i128 },
}

/// What the caller's I/O reported back for the current phase.
#[derive(Debug)]
pub enum Event {
    /// The connection stands; `now` is the local send time.
    Connected { now: u64 },
    /// Resolution or connection failed.
    ConnectFailed,
    /// All 48 request bytes were written.
    Sent,
    /// The write failed or was partial.
    SendFailed,
    /// `bytes` arrived; `now` is the local receipt time.
    Received { bytes: Vec<u8>, now: u64 },
    /// The read failed or the connection closed early.
    ReceiveFailed,
}

/// Whether `e` is an event that can answer phase `p`.
pub open spec fn fits(p: Phase, e: Event) -> bool {
    match (p, e) {
        (Phase::Connecting, Event::Connected { .. }) => true,
        (Phase::Connecting, Event::ConnectFailed) => true,
        (Phase::Requesting { .. }, Event::Sent) => true,
        (Phase::Requesting { .. }, Event::SendFailed) => true,
        (Phase::Awaiting { .. }, Event::Received { .. }) => true,
        (Phase::Awaiting { .. }, Event::ReceiveFailed) => true,
        _ => false,
    }
}

/// Advance the exchange by one step: from the phase at hand and the
/// event the caller's I/O reported, to the next phase or the fatal
/// error that ends the run. A response shorter than 48 bytes is a
/// receive failure; a full response is decoded and the offset, delay
/// and adjusted time are computed from the four timestamps.
pub fn step(p: Phase, e: Event) -> (r: Result<Phase, NtpError>)
    requires
        fits(p, e),
    ensures
        (match (p, e) {
            (Phase::Connecting, Event::Connected { now }) => r == Ok::<Phase, NtpError>(
                Phase::Requesting { request: spec_request(now) },
            ),
            (Phase::Connecting, Event::ConnectFailed) => r == Err::<Phase, NtpError>(
                NtpError::UnreachableServer,
            ),
            (Phase::Requesting { request }, Event::Sent) => r == Ok::<Phase, NtpError>(
                Phase::Awaiting { t1: request.trans_timestamp },
            ),
            (Phase::Requesting { .. }, Event::SendFailed) => r == Err::<Phase, NtpError>(
                NtpError::SendError,
            ),
            (Phase::Awaiting { t1 }, Event::Received { bytes, now }) => if bytes@.len() < 48 {
                r == Err::<Phase, NtpError>(NtpError::ReceiveError)
            } else {
                {
                    let m = spec_decode(bytes@);
                    &&& r matches Ok(Phase::Done { offset, delay, adjusted })
                    &&& offset == spec_offset(t1, m.recv_timestamp, m.trans_timestamp, now)
                    &&& delay == spec_delay(t1, m.recv_timestamp, m.trans_timestamp, now)
                    &&& adjusted == spec_adjusted(
                        now,
                        spec_offset(t1, m.recv_timestamp, m.trans_timestamp, now),
                    )
                }
            },
            (Phase::Awaiting { .. }, Event::ReceiveFailed) => r == Err::<Phase, NtpError>(
                NtpError::ReceiveError,
            ),
            _ => false,
        }),
{
    match (p, e) {
        (Phase::Connecting, Event::Connected { now }) => Ok(
            Phase::Requesting { request: build_request(now) },
        ),
        (Phase::Connecting, Event::ConnectFailed) => Err(NtpError::UnreachableServer),
        (Phase::Requesting { request }, Event::Sent) => Ok(
            Phase::Awaiting { t1: request.trans_timestamp },
        ),
        (Phase::Requesting { .. }, Event::SendFailed) => Err(NtpError::SendError),
        (Phase::Awaiting { t1 }, Event::Received { bytes, now }) => {
            if bytes.len() < 48 {
                Err(NtpError::ReceiveError)
            } else {
                match decode(bytes.as_slice()) {
                    Ok(m) => {
                        let offset = compute_offset(t1, m.recv_timestamp, m.trans_timestamp, now);
                        let delay = round_trip_delay(t1, m.recv_timestamp, m.trans_timestamp, now);
                        let adjusted = adjusted_time(now, offset);
                        Ok(Phase::Done { offset, delay, adjusted })
                    },
                    Err(_) => Err(NtpError::MalformedPacket),
                }
            }
        },
        (Phase::Awaiting { .. }, Event::ReceiveFailed) => Err(NtpError::ReceiveError),
        _ => vstd::pervasive::unreached(),
    }
}

} // verus!
