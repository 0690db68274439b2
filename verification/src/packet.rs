//! The SNTP message: a fixed 48-byte structure, and the errors one
//! request/response exchange can end in.

use vstd::prelude::*;

verus! {

/// Size in bytes of every SNTP message on the wire.
pub const NTP_PACKET_SIZE: usize = 48;

/// One SNTP message. `flags` packs the leap indicator (2 bits),
/// version number (3 bits) and mode (3 bits). The four timestamp
/// fields carry 64-bit values; multi-byte fields travel in network
/// (big-endian) byte order.
#[derive(Clone, Copy, PartialEq, Eq, Structural, Debug)]
pub struct NtpPacket {
    pub flags: u8,
    pub stratum: u8,
    pub poll: u8,
    pub precision: u8,
    pub root_delay: u32,
    pub root_dispersion: u32,
    pub ref_id: u32,
    pub ref_timestamp: u64,
    pub orig_timestamp: u64,
    pub recv_timestamp: u64,
    pub trans_timestamp: u64,
}

/// How a single exchange can fail. Every failure is fatal: the run
/// stops and the error is surfaced to the caller.
#[derive(Clone, Copy, PartialEq, Eq, Structural, Debug)]
pub enum NtpError {
    /// Name resolution failed or the connection was refused.
    UnreachableServer,
    /// The 48 request bytes could not be fully written.
    SendError,
    /// Fewer than 48 bytes arrived, or the read itself failed.
    ReceiveError,
    /// The bytes at hand cannot be read as a fixed-layout message.
    MalformedPacket,
}

impl NtpPacket {
    /// A fresh client request: leap indicator 0, version 4, mode 3
    /// (packed as `0b00100011`), every other field zero.
    pub fn new() -> (r: NtpPacket)
        ensures
            r.flags == 0b00100011u8,
            r.stratum == 0u8,
            r.poll == 0u8,
            r.precision == 0u8,
            r.root_delay == 0u32,
            r.root_dispersion == 0u32,
            r.ref_id == 0u32,
            r.ref_timestamp == 0u64,
            r.orig_timestamp == 0u64,
            r.recv_timestamp == 0u64,
            r.trans_timestamp == 0u64,
    {
        NtpPacket {
            flags: 0b00100011,
            stratum: 0,
            poll: 0,
            precision: 0,
            root_delay: 0,
            root_dispersion: 0,
            ref_id: 0,
            ref_timestamp: 0,
            orig_timestamp: 0,
            recv_timestamp: 0,
            trans_timestamp: 0,
        }
    }
}

} // verus!
