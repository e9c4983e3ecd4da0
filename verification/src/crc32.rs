//! CRC32 (IEEE) checksums of byte strings, of strings and of files, by
//! `crc32fast`.

use vstd::prelude::*;
use crc32fast::Hasher;
use crate::filesafe::PathKind;

verus! {

#[verifier::external_type_specification]
#[verifier::external_body]
pub struct ExHasher(crc32fast::Hasher);

/// One bit of the reflected CRC-32 (IEEE 802.3) division: shift right, and
/// where a one falls out, xor the reflected polynomial `0xEDB88320`.
pub open spec fn crc32_shift(c: u32) -> u32 {
    if c & 1 == 1 {
        (c >> 1) ^ 0xEDB8_8320
    } else {
        c >> 1
    }
}

/// `n` bit steps of the division.
pub open spec fn crc32_shifts(c: u32, n: nat) -> u32
    decreases n,
{
    if n == 0 {
        c
    } else {
        crc32_shifts(crc32_shift(c), (n - 1) as nat)
    }
}

/// The CRC register after `data`: it starts at `0xFFFFFFFF`, and each byte
/// is xored into its low bits and then shifted through eight bit steps.
pub open spec fn crc32_register(data: Seq<u8>) -> u32
    decreases data.len(),
{
    if data.len() == 0 {
        0xFFFF_FFFF
    } else {
        crc32_shifts(crc32_register(data.drop_last()) ^ (data.last() as u32), 8)
    }
}

/// The CRC-32 (IEEE) checksum of `data`: the final register, inverted.
pub open spec fn crc32_checksum(data: Seq<u8>) -> u32 {
    crc32_register(data) ^ 0xFFFF_FFFF
}

/// The bytes that a `crc32fast::Hasher` has been fed since it was made.
pub uninterp spec fn hasher_input(h: Hasher) -> Seq<u8>;

/// `crc32fast::Hasher::new`: a hasher that has been fed nothing.
#[verifier::external_body]
fn hasher_new() -> (h: Hasher)
    ensures
        hasher_input(h) == Seq::<u8>::empty(),
{
    Hasher::new()
}

/// `crc32fast::Hasher::update`: feeds `buf` to the hasher, after what it
/// was fed before.
#[verifier::external_body]
fn hasher_update(h: &mut Hasher, buf: &[u8])
    ensures
        hasher_input(*final(h)) == hasher_input(*old(h)) + buf@,
{
    h.update(buf)
}

/// `crc32fast::Hasher::finalize`: the CRC-32 (IEEE) checksum of all the
/// bytes the hasher was fed.
#[verifier::external_body]
fn hasher_finalize(h: Hasher) -> (r: u32)
    ensures
        r == crc32_checksum(hasher_input(h)),
{
    h.finalize()
}

/// The CRC32 checksum of `text`; that of no bytes is 0.
pub fn calc_crc32(text: &[u8]) -> (r: u32)
    ensures
        r == crc32_checksum(text@),
        text@.len() == 0 ==> r == 0,
{
    let mut hasher = hasher_new();
    hasher_update(&mut hasher, text);
    assert(Seq::<u8>::empty() + text@ =~= text@);
    assert(0xFFFF_FFFFu32 ^ 0xFFFF_FFFFu32 == 0) by (bit_vector);
    hasher_finalize(hasher)
}

/// The CRC32 checksum of the UTF-8 encoding of `text`.
pub fn calc_crc32_string(text: String) -> (r: u32)
    ensures
        r == crc32_checksum(vstd::utf8::encode_utf8(text@)),
{
    calc_crc32(text.as_str().as_bytes())
}

/// The checksum that a file gets, where `kind` is what the disk holds at its
/// path and `contents` are its bytes: 0 where nothing or a directory is there
/// (and then `contents` are not looked at).
pub fn calc_crc32_file(kind: PathKind, contents: &[u8]) -> (r: u32)
    ensures
        r == (if kind == PathKind::Missing || kind == PathKind::Directory {
            0
        } else {
            crc32_checksum(contents@)
        }),
{
    if kind == PathKind::Missing || kind == PathKind::Directory {
        return 0;
    }
    calc_crc32(contents)
}

/// The four bytes of `c`, least significant first.
pub open spec fn le_bytes(c: u32) -> Seq<u8> {
    seq![(c & 0xff) as u8, ((c >> 8) & 0xff) as u8, ((c >> 16) & 0xff) as u8, ((c >> 24) & 0xff) as u8]
}

proof fn lemma_register_push(data: Seq<u8>, b: u8)
    ensures
        crc32_register(data.push(b)) == crc32_shifts(crc32_register(data) ^ (b as u32), 8),
{
    assert(data.push(b).drop_last() =~= data);
}

proof fn lemma_shifts_eight(x: u32)
    ensures
        crc32_shifts(x, 8) == crc32_shift(crc32_shift(crc32_shift(crc32_shift(crc32_shift(
            crc32_shift(crc32_shift(crc32_shift(x))),
        ))))),
{
    reveal_with_fuel(crc32_shifts, 9);
}

/// The CRC-32 residue: a message followed by its own checksum, least
/// significant byte first, has the checksum `0x2144DF1C`, whatever the
/// message.
pub proof fn lemma_crc32_residue(data: Seq<u8>)
    ensures
        crc32_checksum(data + le_bytes(crc32_checksum(data))) == 0x2144_DF1C,
{
    let r = crc32_register(data);
    let c = crc32_checksum(data);
    let b = le_bytes(c);
    let d1 = data.push(b[0]);
    let d2 = d1.push(b[1]);
    let d3 = d2.push(b[2]);
    let d4 = d3.push(b[3]);
    assert(data + b =~= d4);
    lemma_register_push(data, b[0]);
    lemma_register_push(d1, b[1]);
    lemma_register_push(d2, b[2]);
    lemma_register_push(d3, b[3]);
    assert((((c & 0xff) as u8) as u32) == c & 0xff) by (bit_vector);
    assert(((((c >> 8) & 0xff) as u8) as u32) == (c >> 8) & 0xff) by (bit_vector);
    assert(((((c >> 16) & 0xff) as u8) as u32) == (c >> 16) & 0xff) by (bit_vector);
    assert(((((c >> 24) & 0xff) as u8) as u32) == (c >> 24) & 0xff) by (bit_vector);
    let x0: u32 = r ^ (c & 0xff);
    let y1: u32 = crc32_shift(x0);
    let y2: u32 = crc32_shift(y1);
    let y3: u32 = crc32_shift(y2);
    let y4: u32 = crc32_shift(y3);
    let y5: u32 = crc32_shift(y4);
    let y6: u32 = crc32_shift(y5);
    let y7: u32 = crc32_shift(y6);
    let y8: u32 = crc32_shift(y7);
    lemma_shifts_eight(x0);
    let x1: u32 = y8 ^ ((c >> 8) & 0xff);
    let y9: u32 = crc32_shift(x1);
    let y10: u32 = crc32_shift(y9);
    let y11: u32 = crc32_shift(y10);
    let y12: u32 = crc32_shift(y11);
    let y13: u32 = crc32_shift(y12);
    let y14: u32 = crc32_shift(y13);
    let y15: u32 = crc32_shift(y14);
    let y16: u32 = crc32_shift(y15);
    lemma_shifts_eight(x1);
    let x2: u32 = y16 ^ ((c >> 16) & 0xff);
    let y17: u32 = crc32_shift(x2);
    let y18: u32 = crc32_shift(y17);
    let y19: u32 = crc32_shift(y18);
    let y20: u32 = crc32_shift(y19);
    let y21: u32 = crc32_shift(y20);
    let y22: u32 = crc32_shift(y21);
    let y23: u32 = crc32_shift(y22);
    let y24: u32 = crc32_shift(y23);
    lemma_shifts_eight(x2);
    let x3: u32 = y24 ^ ((c >> 24) & 0xff);
    let y25: u32 = crc32_shift(x3);
    let y26: u32 = crc32_shift(y25);
    let y27: u32 = crc32_shift(y26);
    let y28: u32 = crc32_shift(y27);
    let y29: u32 = crc32_shift(y28);
    let y30: u32 = crc32_shift(y29);
    let y31: u32 = crc32_shift(y30);
    let y32: u32 = crc32_shift(y31);
    lemma_shifts_eight(x3);
    assert(y32 == 0xDEBB_20E3u32) by (bit_vector)
        requires
            c == r ^ 0xFFFF_FFFFu32,
            x0 == r ^ (c & 0xff),
            y1 == crc32_shift(x0),
            y2 == crc32_shift(y1),
            y3 == crc32_shift(y2),
            y4 == crc32_shift(y3),
            y5 == crc32_shift(y4),
            y6 == crc32_shift(y5),
            y7 == crc32_shift(y6),
            y8 == crc32_shift(y7),
            x1 == y8 ^ ((c >> 8) & 0xff),
            y9 == crc32_shift(x1),
            y10 == crc32_shift(y9),
            y11 == crc32_shift(y10),
            y12 == crc32_shift(y11),
            y13 == crc32_shift(y12),
            y14 == crc32_shift(y13),
            y15 == crc32_shift(y14),
            y16 == crc32_shift(y15),
            x2 == y16 ^ ((c >> 16) & 0xff),
            y17 == crc32_shift(x2),
            y18 == crc32_shift(y17),
            y19 == crc32_shift(y18),
            y20 == crc32_shift(y19),
            y21 == crc32_shift(y20),
            y22 == crc32_shift(y21),
            y23 == crc32_shift(y22),
            y24 == crc32_shift(y23),
            x3 == y24 ^ ((c >> 24) & 0xff),
            y25 == crc32_shift(x3),
            y26 == crc32_shift(y25),
            y27 == crc32_shift(y26),
            y28 == crc32_shift(y27),
            y29 == crc32_shift(y28),
            y30 == crc32_shift(y29),
            y31 == crc32_shift(y30),
            y32 == crc32_shift(y31),
    ;
    assert(0xDEBB_20E3u32 ^ 0xFFFF_FFFFu32 == 0x2144_DF1Cu32) by (bit_vector);
}

} // verus!
