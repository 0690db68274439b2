//! Lossless translation between an [`NtpPacket`] value and its exact
//! 48-byte wire form, all multi-byte fields big-endian, independent of
//! the host's byte order.

use vstd::prelude::*;

use crate::packet::NtpError;
use crate::packet::NtpPacket;

verus! {

/// The big-endian reading of four bytes as a `u32`.
pub open spec fn u32_from_be(b0: u8, b1: u8, b2: u8, b3: u8) -> u32 {
    ((b0 as u32) << 24) | ((b1 as u32) << 16) | ((b2 as u32) << 8) | (b3 as u32)
}

/// The big-endian reading of eight bytes as a `u64`.
pub open spec fn u64_from_be(
    b0: u8, b1: u8, b2: u8, b3: u8, b4: u8, b5: u8, b6: u8, b7: u8,
) -> u64 {
    ((b0 as u64) << 56) | ((b1 as u64) << 48) | ((b2 as u64) << 40) | ((b3 as u64) << 32)
        | ((b4 as u64) << 24) | ((b5 as u64) << 16) | ((b6 as u64) << 8) | (b7 as u64)
}

/// The four bytes of `x` in big-endian order.
pub open spec fn u32_to_be(x: u32) -> Seq<u8> {
    seq![(x >> 24) as u8, (x >> 16) as u8, (x >> 8) as u8, x as u8]
}

/// The eight bytes of `x` in big-endian order.
pub open spec fn u64_to_be(x: u64) -> Seq<u8> {
    seq![
        (x >> 56) as u8,
        (x >> 48) as u8,
        (x >> 40) as u8,
        (x >> 32) as u8,
        (x >> 24) as u8,
        (x >> 16) as u8,
        (x >> 8) as u8,
        x as u8,
    ]
}

/// The exact 48-byte wire form of a message: fields in protocol order,
/// multi-byte fields big-endian. A function of the field values alone,
/// so the wire form is the same on every host.
pub open spec fn spec_encode(m: NtpPacket) -> Seq<u8> {
    seq![m.flags, m.stratum, m.poll, m.precision]
        + u32_to_be(m.root_delay)
        + u32_to_be(m.root_dispersion)
        + u32_to_be(m.ref_id)
        + u64_to_be(m.ref_timestamp)
        + u64_to_be(m.orig_timestamp)
        + u64_to_be(m.recv_timestamp)
        + u64_to_be(m.trans_timestamp)
}

/// The message read from the first 48 bytes of `s`.
pub open spec fn spec_decode(s: Seq<u8>) -> NtpPacket
    recommends
        s.len() >= 48,
{
    NtpPacket {
        flags: s[0],
        stratum: s[1],
        poll: s[2],
        precision: s[3],
        root_delay: u32_from_be(s[4], s[5], s[6], s[7]),
        root_dispersion: u32_from_be(s[8], s[9], s[10], s[11]),
        ref_id: u32_from_be(s[12], s[13], s[14], s[15]),
        ref_timestamp: u64_from_be(s[16], s[17], s[18], s[19], s[20], s[21], s[22], s[23]),
        orig_timestamp: u64_from_be(s[24], s[25], s[26], s[27], s[28], s[29], s[30], s[31]),
        recv_timestamp: u64_from_be(s[32], s[33], s[34], s[35], s[36], s[37], s[38], s[39]),
        trans_timestamp: u64_from_be(s[40], s[41], s[42], s[43], s[44], s[45], s[46], s[47]),
    }
}

/// Reading the big-endian bytes of a `u32` gives the value back.
proof fn lemma_u32_be_round_trip(x: u32)
    ensures
        u32_from_be((x >> 24) as u8, (x >> 16) as u8, (x >> 8) as u8, x as u8) == x,
{
    assert((((x >> 24) as u8 as u32) << 24) | (((x >> 16) as u8 as u32) << 16)
        | (((x >> 8) as u8 as u32) << 8) | (x as u8 as u32) == x) by (bit_vector);
}

/// Reading the big-endian bytes of a `u64` gives the value back.
proof fn lemma_u64_be_round_trip(x: u64)
    ensures
        u64_from_be(
            (x >> 56) as u8,
            (x >> 48) as u8,
            (x >> 40) as u8,
            (x >> 32) as u8,
            (x >> 24) as u8,
            (x >> 16) as u8,
            (x >> 8) as u8,
            x as u8,
        ) == x,
{
    assert((((x >> 56) as u8 as u64) << 56) | (((x >> 48) as u8 as u64) << 48)
        | (((x >> 40) as u8 as u64) << 40) | (((x >> 32) as u8 as u64) << 32)
        | (((x >> 24) as u8 as u64) << 24) | (((x >> 16) as u8 as u64) << 16)
        | (((x >> 8) as u8 as u64) << 8) | (x as u8 as u64) == x) by (bit_vector);
}

/// Round-trip law: decoding the wire form of any message gives the
/// message back, field for field.
pub proof fn lemma_round_trip(m: NtpPacket)
    ensures
        spec_decode(spec_encode(m)) == m,
{
    lemma_u32_be_round_trip(m.root_delay);
    lemma_u32_be_round_trip(m.root_dispersion);
    lemma_u32_be_round_trip(m.ref_id);
    lemma_u64_be_round_trip(m.ref_timestamp);
    lemma_u64_be_round_trip(m.orig_timestamp);
    lemma_u64_be_round_trip(m.recv_timestamp);
    lemma_u64_be_round_trip(m.trans_timestamp);
}

/// The wire form is always exactly 48 bytes.
pub proof fn lemma_encode_len(m: NtpPacket)
    ensures
        spec_encode(m).len() == 48,
{
}

/// Writing back the `u32` read from four bytes gives the bytes back.
proof fn lemma_u32_be_bytes(b0: u8, b1: u8, b2: u8, b3: u8)
    ensures
        u32_to_be(u32_from_be(b0, b1, b2, b3)) == seq![b0, b1, b2, b3],
{
    assert(((((b0 as u32) << 24) | ((b1 as u32) << 16) | ((b2 as u32) << 8) | (b3 as u32)) >> 24)
        as u8 == b0) by (bit_vector);
    assert(((((b0 as u32) << 24) | ((b1 as u32) << 16) | ((b2 as u32) << 8) | (b3 as u32)) >> 16)
        as u8 == b1) by (bit_vector);
    assert(((((b0 as u32) << 24) | ((b1 as u32) << 16) | ((b2 as u32) << 8) | (b3 as u32)) >> 8)
        as u8 == b2) by (bit_vector);
    assert((((b0 as u32) << 24) | ((b1 as u32) << 16) | ((b2 as u32) << 8) | (b3 as u32)) as u8
        == b3) by (bit_vector);
    assert(u32_to_be(u32_from_be(b0, b1, b2, b3)) =~= seq![b0, b1, b2, b3]);
}

/// Writing back the `u64` read from eight bytes gives the bytes back.
proof fn lemma_u64_be_bytes(b0: u8, b1: u8, b2: u8, b3: u8, b4: u8, b5: u8, b6: u8, b7: u8)
    ensures
        u64_to_be(u64_from_be(b0, b1, b2, b3, b4, b5, b6, b7)) == seq![b0, b1, b2, b3, b4, b5, b6, b7],
{
    assert(((((b0 as u64) << 56) | ((b1 as u64) << 48) | ((b2 as u64) << 40) | ((b3 as u64) << 32)
        | ((b4 as u64) << 24) | ((b5 as u64) << 16) | ((b6 as u64) << 8) | (b7 as u64)) >> 56)
        as u8 == b0) by (bit_vector);
    assert(((((b0 as u64) << 56) | ((b1 as u64) << 48) | ((b2 as u64) << 40) | ((b3 as u64) << 32)
        | ((b4 as u64) << 24) | ((b5 as u64) << 16) | ((b6 as u64) << 8) | (b7 as u64)) >> 48)
        as u8 == b1) by (bit_vector);
    assert(((((b0 as u64) << 56) | ((b1 as u64) << 48) | ((b2 as u64) << 40) | ((b3 as u64) << 32)
        | ((b4 as u64) << 24) | ((b5 as u64) << 16) | ((b6 as u64) << 8) | (b7 as u64)) >> 40)
        as u8 == b2) by (bit_vector);
    assert(((((b0 as u64) << 56) | ((b1 as u64) << 48) | ((b2 as u64) << 40) | ((b3 as u64) << 32)
        | ((b4 as u64) << 24) | ((b5 as u64) << 16) | ((b6 as u64) << 8) | (b7 as u64)) >> 32)
        as u8 == b3) by (bit_vector);
    assert(((((b0 as u64) << 56) | ((b1 as u64) << 48) | ((b2 as u64) << 40) | ((b3 as u64) << 32)
        | ((b4 as u64) << 24) | ((b5 as u64) << 16) | ((b6 as u64) << 8) | (b7 as u64)) >> 24)
        as u8 == b4) by (bit_vector);
    assert(((((b0 as u64) << 56) | ((b1 as u64) << 48) | ((b2 as u64) << 40) | ((b3 as u64) << 32)
        | ((b4 as u64) << 24) | ((b5 as u64) << 16) | ((b6 as u64) << 8) | (b7 as u64)) >> 16)
        as u8 == b5) by (bit_vector);
    assert(((((b0 as u64) << 56) | ((b1 as u64) << 48) | ((b2 as u64) << 40) | ((b3 as u64) << 32)
        | ((b4 as u64) << 24) | ((b5 as u64) << 16) | ((b6 as u64) << 8) | (b7 as u64)) >> 8)
        as u8 == b6) by (bit_vector);
    assert((((b0 as u64) << 56) | ((b1 as u64) << 48) | ((b2 as u64) << 40) | ((b3 as u64) << 32)
        | ((b4 as u64) << 24) | ((b5 as u64) << 16) | ((b6 as u64) << 8) | (b7 as u64)) as u8
        == b7) by (bit_vector);
    assert(u64_to_be(u64_from_be(b0, b1, b2, b3, b4, b5, b6, b7)) =~= seq![
        b0, b1, b2, b3, b4, b5, b6, b7,
    ]);
}

/// The reverse round trip: re-encoding the message read from a 48-byte
/// wire form gives those bytes back, so the codec loses nothing in
/// either direction.
pub proof fn lemma_wire_round_trip(s: Seq<u8>)
    requires
        s.len() == 48,
    ensures
        spec_encode(spec_decode(s)) == s,
{
    lemma_u32_be_bytes(s[4], s[5], s[6], s[7]);
    lemma_u32_be_bytes(s[8], s[9], s[10], s[11]);
    lemma_u32_be_bytes(s[12], s[13], s[14], s[15]);
    lemma_u64_be_bytes(s[16], s[17], s[18], s[19], s[20], s[21], s[22], s[23]);
    lemma_u64_be_bytes(s[24], s[25], s[26], s[27], s[28], s[29], s[30], s[31]);
    lemma_u64_be_bytes(s[32], s[33], s[34], s[35], s[36], s[37], s[38], s[39]);
    lemma_u64_be_bytes(s[40], s[41], s[42], s[43], s[44], s[45], s[46], s[47]);
    assert(spec_encode(spec_decode(s)) =~= s);
}

/// Append the four big-endian bytes of `x`.
fn push_u32_be(v: &mut Vec<u8>, x: u32)
    ensures
        final(v)@ == old(v)@ + u32_to_be(x),
{
    v.push((x >> 24) as u8);
    v.push((x >> 16) as u8);
    v.push((x >> 8) as u8);
    v.push(x as u8);
    proof {
        assert(final(v)@ =~= old(v)@ + u32_to_be(x));
    }
}

/// Append the eight big-endian bytes of `x`.
fn push_u64_be(v: &mut Vec<u8>, x: u64)
    ensures
        final(v)@ == old(v)@ + u64_to_be(x),
{
    v.push((x >> 56) as u8);
    v.push((x >> 48) as u8);
    v.push((x >> 40) as u8);
    v.push((x >> 32) as u8);
    v.push((x >> 24) as u8);
    v.push((x >> 16) as u8);
    v.push((x >> 8) as u8);
    v.push(x as u8);
    proof {
        assert(final(v)@ =~= old(v)@ + u64_to_be(x));
    }
}

/// Serialize a message to its 48-byte wire form. Cannot fail, and the
/// bytes depend on the field values alone, never on the host.
pub fn encode(m: &NtpPacket) -> (r: Vec<u8>)
    ensures
        r@ == spec_encode(*m),
        r@.len() == 48,
{
    let mut v: Vec<u8> = Vec::new();
    v.push(m.flags);
    v.push(m.stratum);
    v.push(m.poll);
    v.push(m.precision);
    push_u32_be(&mut v, m.root_delay);
    push_u32_be(&mut v, m.root_dispersion);
    push_u32_be(&mut v, m.ref_id);
    push_u64_be(&mut v, m.ref_timestamp);
    push_u64_be(&mut v, m.orig_timestamp);
    push_u64_be(&mut v, m.recv_timestamp);
    push_u64_be(&mut v, m.trans_timestamp);
    proof {
        assert(v@ =~= spec_encode(*m));
    }
    v
}

/// Assemble a `u32` from four bytes, big-endian.
fn u32_from_be_exec(b0: u8, b1: u8, b2: u8, b3: u8) -> (r: u32)
    ensures
        r == u32_from_be(b0, b1, b2, b3),
{
    ((b0 as u32) << 24) | ((b1 as u32) << 16) | ((b2 as u32) << 8) | (b3 as u32)
}

/// Assemble a `u64` from eight bytes, big-endian.
fn u64_from_be_exec(b0: u8, b1: u8, b2: u8, b3: u8, b4: u8, b5: u8, b6: u8, b7: u8) -> (r: u64)
    ensures
        r == u64_from_be(b0, b1, b2, b3, b4, b5, b6, b7),
{
    ((b0 as u64) << 56) | ((b1 as u64) << 48) | ((b2 as u64) << 40) | ((b3 as u64) << 32)
        | ((b4 as u64) << 24) | ((b5 as u64) << 16) | ((b6 as u64) << 8) | (b7 as u64)
}

/// Deserialize a message from the first 48 bytes of `b`. Fails with
/// `MalformedPacket` exactly when fewer than 48 bytes are supplied;
/// field values are not otherwise validated.
pub fn decode(b: &[u8]) -> (r: Result<NtpPacket, NtpError>)
    ensures
        b@.len() >= 48 ==> r == Ok::<NtpPacket, NtpError>(spec_decode(b@)),
        b@.len() < 48 ==> r == Err::<NtpPacket, NtpError>(NtpError::MalformedPacket),
{
    if b.len() < 48 {
        return Err(NtpError::MalformedPacket);
    }
    Ok(
        NtpPacket {
            flags: b[0],
            stratum: b[1],
            poll: b[2],
            precision: b[3],
            root_delay: u32_from_be_exec(b[4], b[5], b[6], b[7]),
            root_dispersion: u32_from_be_exec(b[8], b[9], b[10], b[11]),
            ref_id: u32_from_be_exec(b[12], b[13], b[14], b[15]),
            ref_timestamp: u64_from_be_exec(
                b[16], b[17], b[18], b[19], b[20], b[21], b[22], b[23],
            ),
            orig_timestamp: u64_from_be_exec(
                b[24], b[25], b[26], b[27], b[28], b[29], b[30], b[31],
            ),
            recv_timestamp: u64_from_be_exec(
                b[32], b[33], b[34], b[35], b[36], b[37], b[38], b[39],
            ),
            trans_timestamp: u64_from_be_exec(
                b[40], b[41], b[42], b[43], b[44], b[45], b[46], b[47],
            ),
        },
    )
}

} // verus!
