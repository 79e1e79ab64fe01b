//! Wire blocks of the file transfer.
//!
//! Every block is 133 bytes: one marker byte, one sequence byte, the
//! bitwise complement of the sequence byte, a 128-byte payload padded
//! with zeros on the right, and the CRC-16/CCITT of the payload, high
//! byte first.  The header and the terminator block carry sequence 0;
//! data blocks count from 1 and wrap modulo 256.

use vstd::prelude::*;
use crate::crc::{crc16, crc_hi, crc_lo, compute_crc16};

verus! {

/// Marker byte opening every block.
pub const BLOCK_MARKER: u8 = 0x01;

/// Number of data blocks needed for a file of `n` bytes: the least `m`
/// with `128 * m >= n`.
pub open spec fn data_block_count(n: nat) -> nat {
    (n + 127) / 128
}

/// Payload of data block `i`: the bytes `data[128*i .. 128*i+128]`, with
/// positions past the end of the file filled with zeros.
pub open spec fn chunk_payload(data: Seq<u8>, i: int) -> Seq<u8> {
    Seq::new(128, |j: int| if 128 * i + j < data.len() { data[128 * i + j] } else { 0u8 })
}

/// Sequence byte of data block `i`: blocks count from 1 and wrap modulo 256.
pub open spec fn data_block_seqno(i: int) -> u8 {
    ((i + 1) % 256) as u8
}

/// The 133 wire bytes of a block with sequence byte `seqno` over a
/// 128-byte `payload`.
pub open spec fn block_bytes(seqno: u8, payload: Seq<u8>) -> Seq<u8> {
    seq![BLOCK_MARKER, seqno, !seqno] + payload
        + seq![crc_hi(crc16(payload)), crc_lo(crc16(payload))]
}

/// Wire bytes of data block `i` of `data`.
pub open spec fn data_block_bytes(data: Seq<u8>, i: int) -> Seq<u8> {
    block_bytes(data_block_seqno(i), chunk_payload(data, i))
}

/// ASCII decimal digits of `n`, most significant first, no sign and no
/// leading zeros (a single `'0'` for zero).
pub open spec fn dec_digits(n: nat) -> Seq<u8>
    decreases n,
{
    if n < 10 {
        seq![(0x30 + n) as u8]
    } else {
        dec_digits(n / 10) + seq![(0x30 + n % 10) as u8]
    }
}

/// Powers of ten, for bounding the length of a decimal rendering.
pub open spec fn pow10(k: nat) -> nat
    decreases k,
{
    if k == 0 {
        1
    } else {
        10 * pow10((k - 1) as nat)
    }
}

pub proof fn lemma_pow10_pos(k: nat)
    ensures
        pow10(k) >= 1,
    decreases k,
{
    if k > 0 {
        lemma_pow10_pos((k - 1) as nat);
    }
}

/// A number below `10^k` has at most `k` decimal digits.
pub proof fn lemma_dec_digits_len_bound(n: nat, k: nat)
    requires
        k >= 1,
        n < pow10(k),
    ensures
        dec_digits(n).len() <= k,
    decreases n,
{
    if n < 10 {
    } else {
        let p = pow10((k - 1) as nat);
        lemma_pow10_pos((k - 1) as nat);
        if k == 1 {
            assert(pow10(1) == 10 * pow10(0));
            assert(false);
        }
        vstd::arithmetic::div_mod::lemma_div_is_ordered(n as int, 10 * p - 1, 10);
        vstd::arithmetic::div_mod::lemma_fundamental_div_mod_converse(
            10 * (p as int) - 1,
            10,
            p as int - 1,
            9,
        );
        assert(n / 10 < p);
        assert(n / 10 < n) by (nonlinear_arith)
            requires
                n >= 10,
        ;
        lemma_dec_digits_len_bound(n / 10, (k - 1) as nat);
    }
}

/// A file size that fits the 24-bit announcement needs at most eight
/// decimal digits in the header payload.
pub proof fn lemma_dec_digits_len_24bit(n: nat)
    requires
        n < 0x1000000,
    ensures
        dec_digits(n).len() <= 8,
{
    assert(pow10(0) == 1);
    assert(pow10(1) == 10);
    assert(pow10(2) == 100);
    assert(pow10(3) == 1000);
    assert(pow10(4) == 10000);
    assert(pow10(5) == 100000);
    assert(pow10(6) == 1000000);
    assert(pow10(7) == 10000000);
    assert(pow10(8) == 100000000);
    lemma_dec_digits_len_bound(n, 8);
}

/// Header payload: nul-terminated file name, then the nul-terminated
/// decimal file size, zero-padded to 128 bytes.
pub open spec fn header_payload(name: Seq<u8>, size: nat) -> Seq<u8> {
    let s = name + seq![0u8] + dec_digits(size) + seq![0u8];
    s + Seq::new((128 - s.len()) as nat, |j: int| 0u8)
}

/// Wire bytes of the header block: sequence 0 over the header payload.
pub open spec fn header_block_bytes(name: Seq<u8>, size: nat) -> Seq<u8> {
    block_bytes(0, header_payload(name, size))
}

/// The all-zero payload of the terminator block.
pub open spec fn terminator_payload() -> Seq<u8> {
    Seq::new(128, |j: int| 0u8)
}

/// Wire bytes of the terminator block: sequence 0 over an all-zero payload.
pub open spec fn terminator_block_bytes() -> Seq<u8> {
    block_bytes(0, terminator_payload())
}

/// `data_block_count` is exactly the ceiling of `n / 128`: it covers all
/// of `n`, and every block but the last starts inside the file.
pub proof fn lemma_block_count_is_ceil(n: nat)
    ensures
        128 * data_block_count(n) >= n,
        data_block_count(n) > 0 ==> 128 * (data_block_count(n) - 1) < n,
        n == 0 ==> data_block_count(n) == 0,
{
    assert(128 * ((n + 127) / 128) >= n && ((n + 127) / 128 > 0 ==> 128 * (((n + 127) / 128)
        - 1) < n) && (n == 0 ==> (n + 127) / 128 == 0)) by (nonlinear_arith);
}

/// Every data-block index addresses bytes of the file: block `i` of a
/// transfer starts before the end of `data`.
pub proof fn lemma_chunk_start_in_file(n: nat, i: int)
    requires
        0 <= i < data_block_count(n),
    ensures
        128 * i < n,
{
    assert(0 <= i < (n + 127) / 128 ==> 128 * i < n) by (nonlinear_arith);
}

/// The tail of the final data block beyond the end of the file is
/// zero-padded: every payload position at or past `n - 128 * i` is zero.
pub proof fn lemma_final_block_padding(data: Seq<u8>, i: int, j: int)
    requires
        0 <= j < 128,
        128 * i + j >= data.len(),
    ensures
        chunk_payload(data, i)[j] == 0,
{
}

/// Data-block sequence numbers start at 1, advance by 1 per block modulo
/// 256, and each block carries the bitwise complement of its sequence
/// byte right after it.
pub proof fn lemma_data_block_numbering(data: Seq<u8>, i: int)
    requires
        0 <= i,
    ensures
        data_block_bytes(data, i)[1] == data_block_seqno(i),
        data_block_bytes(data, i)[2] == !data_block_seqno(i),
        data_block_seqno(0) == 1,
        data_block_seqno(i + 1) == ((data_block_seqno(i) + 1) % 256) as u8,
{
    assert(data_block_bytes(data, i)[1] == data_block_seqno(i));
    assert(data_block_bytes(data, i)[2] == !data_block_seqno(i));
    assert((i + 2) % 256 == (((i + 1) % 256) + 1) % 256) by (nonlinear_arith);
}

/// Appends the decimal digits of `n` to `out`.
pub fn push_decimal(n: u32, out: &mut Vec<u8>)
    ensures
        final(out)@ == old(out)@ + dec_digits(n as nat),
    decreases n,
{
    if n < 10 {
        out.push(0x30 + n as u8);
    } else {
        proof {
            assert(n / 10 < n) by (nonlinear_arith)
                requires
                    n >= 10,
            ;
        }
        push_decimal(n / 10, out);
        out.push(0x30 + (n % 10) as u8);
        proof {
            assert(old(out)@ + dec_digits((n / 10) as nat) + seq![(0x30 + (n as nat) % 10) as u8]
                =~= old(out)@ + dec_digits(n as nat));
        }
    }
}

/// Frames a 128-byte payload as one wire block with sequence byte `seqno`.
pub fn make_block(seqno: u8, payload: &Vec<u8>) -> (r: Vec<u8>)
    requires
        payload@.len() == 128,
    ensures
        r@ == block_bytes(seqno, payload@),
        r@.len() == 133,
{
    let mut out: Vec<u8> = Vec::new();
    out.push(BLOCK_MARKER);
    out.push(seqno);
    out.push(!seqno);
    let mut j: usize = 0;
    while j < payload.len()
        invariant
            j <= payload@.len(),
            payload@.len() == 128,
            out@ == seq![BLOCK_MARKER, seqno, !seqno] + payload@.take(j as int),
        decreases payload@.len() - j,
    {
        out.push(payload[j]);
        proof {
            assert(payload@.take(j + 1) =~= payload@.take(j as int) + seq![payload@[j as int]]);
            assert(seq![BLOCK_MARKER, seqno, !seqno] + payload@.take(j as int)
                + seq![payload@[j as int]] =~= seq![BLOCK_MARKER, seqno, !seqno]
                + payload@.take(j + 1));
        }
        j = j + 1;
    }
    let c = compute_crc16(payload);
    out.push((c >> 8) as u8);
    out.push((c & 0xFF) as u8);
    proof {
        assert(payload@.take(128) =~= payload@);
        assert(out@ =~= block_bytes(seqno, payload@));
    }
    out
}

/// Extracts the 128-byte payload of data block `i`, zero-padding past
/// the end of the file.
pub fn data_chunk(data: &Vec<u8>, i: usize) -> (r: Vec<u8>)
    requires
        128 * (i as int) < data@.len(),
    ensures
        r@ == chunk_payload(data@, i as int),
{
    let mut out: Vec<u8> = Vec::new();
    let len: usize = data.len();
    let start: usize = 128 * i;
    let mut j: usize = 0;
    while j < 128
        invariant
            j <= 128,
            start == 128 * (i as int),
            start < data@.len(),
            out@ == chunk_payload(data@, i as int).take(j as int),
        decreases 128 - j,
    {
        if j < data.len() - start {
            out.push(data[start + j]);
        } else {
            out.push(0);
        }
        proof {
            assert(chunk_payload(data@, i as int).take(j + 1) =~= chunk_payload(data@,
                i as int).take(j as int) + seq![chunk_payload(data@, i as int)[j as int]]);
        }
        j = j + 1;
    }
    proof {
        assert(chunk_payload(data@, i as int).take(128) =~= chunk_payload(data@, i as int));
    }
    out
}

/// Builds the full wire form of data block `i`.
pub fn make_data_block(data: &Vec<u8>, i: usize) -> (r: Vec<u8>)
    requires
        128 * (i as int) < data@.len(),
    ensures
        r@ == data_block_bytes(data@, i as int),
        r@.len() == 133,
{
    let seqno: u8 = ((i % 256 + 1) % 256) as u8;
    proof {
        assert((i % 256 + 1) % 256 == ((i as int) + 1) % 256) by (nonlinear_arith);
    }
    let chunk = data_chunk(data, i);
    make_block(seqno, &chunk)
}

/// Builds the header payload: nul-terminated name and decimal size,
/// padded with zeros to 128 bytes.
pub fn make_header_payload(name: &Vec<u8>, size: u32) -> (r: Vec<u8>)
    requires
        name@.len() + dec_digits(size as nat).len() + 2 <= 128,
    ensures
        r@ == header_payload(name@, size as nat),
        r@.len() == 128,
{
    let ghost s: Seq<u8> = name@ + seq![0u8] + dec_digits(size as nat) + seq![0u8];
    let mut out: Vec<u8> = Vec::new();
    let mut j: usize = 0;
    while j < name.len()
        invariant
            j <= name@.len(),
            out@ == name@.take(j as int),
        decreases name@.len() - j,
    {
        out.push(name[j]);
        proof {
            assert(name@.take(j + 1) =~= name@.take(j as int) + seq![name@[j as int]]);
        }
        j = j + 1;
    }
    proof {
        assert(name@.take(name@.len() as int) =~= name@);
    }
    out.push(0);
    push_decimal(size, &mut out);
    out.push(0);
    proof {
        assert(out@ =~= s);
    }
    let fixed: usize = out.len();
    while out.len() < 128
        invariant
            s.len() == fixed,
            fixed <= out@.len() <= 128,
            out@.take(fixed as int) == s,
            forall|k: int| fixed <= k < out@.len() ==> out@[k] == 0,
        decreases 128 - out.len(),
    {
        out.push(0);
    }
    proof {
        assert(out@ =~= header_payload(name@, size as nat));
    }
    out
}

/// Builds the header block: sequence 0 over the header payload.
pub fn make_header_block(name: &Vec<u8>, size: u32) -> (r: Vec<u8>)
    requires
        name@.len() + dec_digits(size as nat).len() + 2 <= 128,
    ensures
        r@ == header_block_bytes(name@, size as nat),
        r@.len() == 133,
{
    let payload = make_header_payload(name, size);
    make_block(0, &payload)
}

/// Builds the terminator block: sequence 0 over an all-zero payload.
pub fn make_terminator_block() -> (r: Vec<u8>)
    ensures
        r@ == terminator_block_bytes(),
        r@.len() == 133,
{
    let mut payload: Vec<u8> = Vec::new();
    while payload.len() < 128
        invariant
            payload@.len() <= 128,
            forall|k: int| 0 <= k < payload@.len() ==> payload@[k] == 0,
        decreases 128 - payload.len(),
    {
        payload.push(0);
    }
    proof {
        assert(payload@ =~= terminator_payload());
    }
    make_block(0, &payload)
}

} // verus!
