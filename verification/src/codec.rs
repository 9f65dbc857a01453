//! The frame codec of the infrared link.
//!
//! A frame carries logical bytes: an opcode, its parameters, and a wrapping
//! sum over both. On the wire every logical byte is followed by its bitwise
//! complement. A frame from the host starts with the header `55 FF`; a frame
//! from the brick may be preceded by any run of the bytes `00`, `55`, `FF`.

use vstd::prelude::*;
use crate::errors::Error;

verus! {

/// First byte of the header that opens every frame sent by the host.
pub const HEADER_LEAD: u8 = 0x55;

/// Second byte of the header that opens every frame sent by the host.
pub const HEADER_TRAIL: u8 = 0xff;

/// Whether a byte belongs to the preamble that is skipped before a reply.
pub open spec fn is_header_byte(byte: u8) -> bool {
    byte == 0x00 || byte == 0x55 || byte == 0xff
}

/// The bitwise complement of a byte.
pub open spec fn complement(byte: u8) -> u8 {
    (255 - byte) as u8
}

/// The sum of the bytes, modulo 256.
pub open spec fn checksum(bytes: Seq<u8>) -> u8
    decreases bytes.len(),
{
    if bytes.len() == 0 {
        0
    } else {
        ((checksum(bytes.drop_last()) + bytes.last()) % 256) as u8
    }
}

/// Every byte followed by its complement.
pub open spec fn paired(bytes: Seq<u8>) -> Seq<u8> {
    Seq::new(
        2 * bytes.len(),
        |i: int|
            if i % 2 == 0 {
                bytes[i / 2]
            } else {
                complement(bytes[i / 2])
            },
    )
}

/// The frame the host puts on the wire for an opcode byte and its parameter
/// bytes: header, the paired logical bytes, the paired checksum.
pub open spec fn frame(opcode: u8, payload: Seq<u8>) -> Seq<u8> {
    let logical = seq![opcode] + payload;
    seq![HEADER_LEAD, HEADER_TRAIL] + paired(logical) + paired(seq![checksum(logical)])
}

/// The index of the first byte at or after `from` that is no header byte, or
/// the length of the input if there is none.
pub open spec fn skip_header(bytes: Seq<u8>, from: int) -> int
    decreases bytes.len() - from,
{
    if 0 <= from < bytes.len() && is_header_byte(bytes[from]) {
        skip_header(bytes, from + 1)
    } else {
        from
    }
}

/// What is wrong with the pair that starts at `at`, if anything: the input
/// ends before the pair does, or its second byte is not the complement of
/// its first.
pub open spec fn pair_fault(bytes: Seq<u8>, at: int) -> Option<Error> {
    if at + 2 > bytes.len() {
        Some(Error::InsufficientData)
    } else if bytes[at + 1] != complement(bytes[at]) {
        Some(Error::Checksum)
    } else {
        None
    }
}

/// The fault of pair number `k`, counted from zero, of the pairs that start
/// at `start`.
pub open spec fn nth_pair_fault(bytes: Seq<u8>, start: int, k: int) -> Option<Error> {
    pair_fault(bytes, start + 2 * k)
}

/// The fault of the first faulty pair among the `n` pairs that start at
/// `start`, if any of them is faulty.
pub open spec fn first_fault(bytes: Seq<u8>, start: int, n: nat) -> Option<Error>
    decreases n,
{
    if n == 0 {
        None
    } else {
        match first_fault(bytes, start, (n - 1) as nat) {
            Some(e) => Some(e),
            None => nth_pair_fault(bytes, start, n - 1),
        }
    }
}

/// The first byte of each of the `n` pairs that start at `start`.
pub open spec fn logical_bytes(bytes: Seq<u8>, start: int, n: nat) -> Seq<u8> {
    Seq::new(n, |k: int| bytes[start + 2 * k])
}

/// What a reply of `n` parameter bytes decodes to: the opcode and the
/// parameter bytes, or the first failure met while reading pair by pair
/// from the first byte after the preamble, the checksum pair last.
pub open spec fn decoded_frame(bytes: Seq<u8>, n: nat) -> Result<(u8, Seq<u8>), Error> {
    let start = skip_header(bytes, 0);
    match first_fault(bytes, start, n + 2) {
        Some(e) => Err(e),
        None => {
            let logical = logical_bytes(bytes, start, n + 2);
            if checksum(logical.take(n + 1 as int)) == logical[n + 1 as int] {
                Ok((logical[0], logical.subrange(1, n + 1 as int)))
            } else {
                Err(Error::Checksum)
            }
        },
    }
}

/// Whether a byte belongs to the preamble that is skipped before a reply.
pub fn is_header(byte: u8) -> (r: bool)
    ensures
        r == is_header_byte(byte),
{
    byte == 0x00 || byte == 0x55 || byte == 0xff
}

/// The bitwise complement of a byte.
pub fn complement_of(byte: u8) -> (r: u8)
    ensures
        r == complement(byte),
{
    assert(!byte == 255u8 - byte) by (bit_vector);
    !byte
}

/// Adds a byte to a running checksum, wrapping at 256.
pub fn add_to_checksum(byte: u8, sum: &mut u8)
    ensures
        *final(sum) == ((*old(sum) + byte) % 256) as u8,
{
    *sum = sum.wrapping_add(byte);
}

/// Builds the frame for an opcode byte, which already carries the
/// alternate bit, and the parameter bytes.
pub fn encode_frame(opcode: u8, payload: &[u8]) -> (r: Vec<u8>)
    ensures
        r@ == frame(opcode, payload@),
{
    let ghost logical = seq![opcode] + payload@;
    let mut buf: Vec<u8> = Vec::new();
    buf.push(HEADER_LEAD);
    buf.push(HEADER_TRAIL);
    let mut sum: u8 = 0;
    buf.push(opcode);
    buf.push(complement_of(opcode));
    add_to_checksum(opcode, &mut sum);
    assert(logical.take(1).drop_last() =~= Seq::<u8>::empty());
    assert(checksum(logical.take(1).drop_last()) == 0);
    assert(buf@ =~= seq![HEADER_LEAD, HEADER_TRAIL] + paired(logical.take(1)));
    let mut i: usize = 0;
    while i < payload.len()
        invariant
            i <= payload.len(),
            logical == seq![opcode] + payload@,
            sum == checksum(logical.take(i + 1)),
            buf@ == seq![HEADER_LEAD, HEADER_TRAIL] + paired(logical.take(i + 1)),
        decreases payload.len() - i,
    {
        let byte = payload[i];
        proof {
            let next = logical.take(i + 2);
            assert(next.drop_last() =~= logical.take(i + 1));
            assert(next.last() == byte);
        }
        buf.push(byte);
        buf.push(complement_of(byte));
        add_to_checksum(byte, &mut sum);
        i += 1;
        assert(buf@ =~= seq![HEADER_LEAD, HEADER_TRAIL] + paired(logical.take(i + 1)));
    }
    assert(logical.take(i + 1) =~= logical);
    buf.push(sum);
    buf.push(complement_of(sum));
    assert(buf@ =~= frame(opcode, payload@));
    buf
}

/// Finds where the preamble of a reply ends.
pub fn skip_header_bytes(bytes: &[u8]) -> (r: usize)
    ensures
        r == skip_header(bytes@, 0),
        r <= bytes.len(),
{
    let mut i: usize = 0;
    while i < bytes.len() && is_header(bytes[i])
        invariant
            i <= bytes.len(),
            skip_header(bytes@, 0) == skip_header(bytes@, i as int),
        decreases bytes.len() - i,
    {
        i += 1;
    }
    i
}

/// Reads the pair at `*pos`: the logical byte, with `*pos` moved past the
/// pair, or the fault of the pair, with `*pos` left where it was.
pub fn read_pair(bytes: &[u8], pos: &mut usize) -> (r: Result<u8, Error>)
    ensures
        match r {
            Ok(b) => pair_fault(bytes@, *old(pos) as int) is None && b == bytes@[*old(pos) as int]
                && *final(pos) == *old(pos) + 2,
            Err(e) => pair_fault(bytes@, *old(pos) as int) == Some(e) && *final(pos) == *old(pos),
        },
{
    let at = *pos;
    if at >= bytes.len() || bytes.len() - at < 2 {
        return Err(Error::InsufficientData);
    }
    let byte = bytes[at];
    if bytes[at + 1] != complement_of(byte) {
        return Err(Error::Checksum);
    }
    *pos = at + 2;
    Ok(byte)
}

/// Decodes a reply that carries `n` parameter bytes: skips the preamble,
/// reads the opcode, the parameters and the checksum pair by pair, and
/// compares the checksum.
pub fn decode_frame(bytes: &[u8], n: usize) -> (r: Result<(u8, Vec<u8>), Error>)
    ensures
        match r {
            Ok((opcode, payload)) => decoded_frame(bytes@, n as nat) == Ok::<(u8, Seq<u8>), Error>(
                (opcode, payload@),
            ),
            Err(e) => decoded_frame(bytes@, n as nat) == Err::<(u8, Seq<u8>), Error>(e),
        },
{
    let start = skip_header_bytes(bytes);
    let mut pos = start;
    let ghost total = (n + 2) as nat;
    proof {
        lemma_fault_persists(bytes@, start as int, 1, total);
    }
    let opcode = read_pair(bytes, &mut pos)?;
    let mut sum: u8 = opcode;
    let mut payload: Vec<u8> = Vec::new();
    assert(logical_bytes(bytes@, start as int, 1).drop_last() =~= Seq::<u8>::empty());
    assert(checksum(logical_bytes(bytes@, start as int, 1).drop_last()) == 0);
    assert(first_fault(bytes@, start as int, 0) is None);
    let mut i: usize = 0;
    while i < n
        invariant
            i <= n,
            total == n + 2,
            start == skip_header(bytes@, 0),
            pos == start + 2 * (i + 1),
            first_fault(bytes@, start as int, (i + 1) as nat) is None,
            payload@ == logical_bytes(bytes@, start as int, (i + 1) as nat).skip(1),
            sum == checksum(logical_bytes(bytes@, start as int, (i + 1) as nat)),
            opcode == bytes@[start as int],
        decreases n - i,
    {
        proof {
            lemma_fault_persists(bytes@, start as int, (i + 2) as nat, total);
        }
        let byte = read_pair(bytes, &mut pos)?;
        proof {
            let next = logical_bytes(bytes@, start as int, (i + 2) as nat);
            assert(next.drop_last() =~= logical_bytes(bytes@, start as int, (i + 1) as nat));
            assert(next.last() == byte);
        }
        payload.push(byte);
        add_to_checksum(byte, &mut sum);
        i += 1;
        assert(payload@ =~= logical_bytes(bytes@, start as int, (i + 1) as nat).skip(1));
    }
    proof {
        lemma_fault_persists(bytes@, start as int, total, total);
    }
    let found = read_pair(bytes, &mut pos)?;
    proof {
        let logical = logical_bytes(bytes@, start as int, total);
        assert(logical.take(n + 1) =~= logical_bytes(bytes@, start as int, (n + 1) as nat));
        assert(logical.subrange(1, n + 1) =~= payload@);
    }
    if sum == found {
        Ok((opcode, payload))
    } else {
        Err(Error::Checksum)
    }
}

/// A fault among the first pairs is the fault of any longer run of pairs.
proof fn lemma_fault_persists(bytes: Seq<u8>, start: int, n: nat, m: nat)
    requires
        n <= m,
    ensures
        first_fault(bytes, start, n) is Some ==> first_fault(bytes, start, m) == first_fault(
            bytes,
            start,
            n,
        ),
    decreases m,
{
    if n < m {
        lemma_fault_persists(bytes, start, n, (m - 1) as nat);
    }
}

/// Pairs that are all sound have no first fault.
proof fn lemma_no_fault(bytes: Seq<u8>, start: int, n: nat)
    requires
        forall|k: int| 0 <= k < n ==> #[trigger] nth_pair_fault(bytes, start, k) is None,
    ensures
        first_fault(bytes, start, n) is None,
    decreases n,
{
    if n > 0 {
        lemma_no_fault(bytes, start, (n - 1) as nat);
    }
}

/// A frame is its header followed by the pairs of the opcode, the
/// parameters and the checksum.
proof fn lemma_frame_layout(opcode: u8, payload: Seq<u8>)
    ensures
        frame(opcode, payload) == seq![HEADER_LEAD, HEADER_TRAIL] + paired(
            (seq![opcode] + payload).push(checksum(seq![opcode] + payload)),
        ),
        frame(opcode, payload).len() == 2 * payload.len() + 6,
{
    let logical = seq![opcode] + payload;
    assert(paired(logical) + paired(seq![checksum(logical)]) =~= paired(
        logical.push(checksum(logical)),
    ));
    assert(frame(opcode, payload) =~= seq![HEADER_LEAD, HEADER_TRAIL] + paired(
        logical.push(checksum(logical)),
    ));
}

/// Decoding restores what encoding was given: the frame built for an opcode
/// that is no header byte and for any parameter bytes decodes, with the
/// checksum accepted, to that opcode and those bytes.
pub proof fn frame_round_trip(opcode: u8, payload: Seq<u8>)
    requires
        !is_header_byte(opcode),
    ensures
        decoded_frame(frame(opcode, payload), payload.len()) == Ok::<(u8, Seq<u8>), Error>(
            (opcode, payload),
        ),
{
    let logical = seq![opcode] + payload;
    let all = logical.push(checksum(logical));
    let f = frame(opcode, payload);
    let n = payload.len() as int;
    lemma_frame_layout(opcode, payload);
    assert(f[2] == paired(all)[0]);
    assert(skip_header(f, 2) == 2);
    assert(skip_header(f, 1) == 2);
    assert(skip_header(f, 0) == 2);
    assert forall|k: int| 0 <= k < n + 2 implies #[trigger] nth_pair_fault(f, 2, k) is None by {
        assert(f[2 + 2 * k] == paired(all)[2 * k]);
        assert(f[3 + 2 * k] == paired(all)[2 * k + 1]);
    }
    lemma_no_fault(f, 2, payload.len() + 2);
    let read = logical_bytes(f, 2, payload.len() + 2);
    assert forall|k: int| 0 <= k < n + 2 implies read[k] == all[k] by {
        assert(f[2 + 2 * k] == paired(all)[2 * k]);
    }
    assert(read =~= all);
    assert(read.take(n + 1) =~= logical);
    assert(read.subrange(1, n + 1) =~= payload);
}

/// In a frame every pair is sound: the byte behind the first of a pair is
/// its complement.
proof fn lemma_frame_pair(opcode: u8, payload: Seq<u8>, k: int)
    requires
        0 <= k < payload.len() + 2,
    ensures
        3 + 2 * k < frame(opcode, payload).len(),
        frame(opcode, payload)[3 + 2 * k] == complement(frame(opcode, payload)[2 + 2 * k]),
{
    let logical = seq![opcode] + payload;
    let all = logical.push(checksum(logical));
    lemma_frame_layout(opcode, payload);
    assert(frame(opcode, payload)[2 + 2 * k] == paired(all)[2 * k]);
    assert(frame(opcode, payload)[3 + 2 * k] == paired(all)[2 * k + 1]);
}

/// A single changed byte is caught: if one byte of a frame after its header
/// is replaced by another value, and the opcode byte by no header byte, the
/// frame is refused with a checksum error.
pub proof fn frame_detects_change(opcode: u8, payload: Seq<u8>, i: int, byte: u8)
    requires
        !is_header_byte(opcode),
        2 <= i < frame(opcode, payload).len(),
        byte != frame(opcode, payload)[i],
        i == 2 ==> !is_header_byte(byte),
    ensures
        decoded_frame(frame(opcode, payload).update(i, byte), payload.len()) == Err::<
            (u8, Seq<u8>),
            Error,
        >(Error::Checksum),
{
    let f = frame(opcode, payload);
    let g = f.update(i, byte);
    lemma_frame_layout(opcode, payload);
    assert(f[2] == opcode) by {
        let logical = seq![opcode] + payload;
        assert(f[2] == paired(logical.push(checksum(logical)))[0]);
    }
    assert(skip_header(g, 2) == 2);
    assert(skip_header(g, 1) == 2);
    assert(skip_header(g, 0) == 2);
    let hit = (i - 2) / 2;
    assert(i == 2 + 2 * hit || i == 3 + 2 * hit);
    assert forall|k: int| 0 <= k < hit implies #[trigger] nth_pair_fault(g, 2, k) is None by {
        lemma_frame_pair(opcode, payload, k);
    }
    lemma_no_fault(g, 2, hit as nat);
    lemma_frame_pair(opcode, payload, hit);
    assert(nth_pair_fault(g, 2, hit) == Some(Error::Checksum));
    assert(first_fault(g, 2, (hit + 1) as nat) == Some(Error::Checksum));
    lemma_fault_persists(g, 2, (hit + 1) as nat, payload.len() + 2);
}

} // verus!
