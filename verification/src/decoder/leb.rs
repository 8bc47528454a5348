//! Variable-length integers.

use vstd::prelude::*;

verus! {

/// The unsigned number that the bytes of `s` spell from their first byte on,
/// and how many bytes it takes. Each byte gives seven bits, lowest first, and
/// its top bit says whether another byte follows. `shift` is the place of the
/// next seven bits: 0 at the start. `None` where `s` ends before the number
/// does, or where the tenth byte holds more than the last bit of a `u64`.
pub open spec fn leb_unsigned(s: Seq<u8>, shift: u64) -> Option<(u64, nat)>
    decreases s.len(),
{
    if s.len() == 0 || shift > 63 {
        None
    } else if shift == 63 && s[0] != 0x00 && s[0] != 0x01 {
        None
    } else {
        let low: u64 = ((s[0] & 0x7f) as u64) << shift;
        if s[0] & 0x80 == 0 {
            Some((low, 1nat))
        } else {
            match leb_unsigned(s.drop_first(), (shift + 7) as u64) {
                Some((rest, n)) => Some((low | rest, n + 1)),
                None => None,
            }
        }
    }
}

/// The signed number that the bytes of `s` spell, as the 64 bits of its
/// two's complement, and how many bytes it takes. As `leb_unsigned`, but the
/// bit below the top bit of the last byte is the sign: where it is set, all
/// higher places are filled with ones. The tenth byte must be `0x00` or `0x7f`.
pub open spec fn leb_signed_bits(s: Seq<u8>, shift: u64) -> Option<(u64, nat)>
    decreases s.len(),
{
    if s.len() == 0 || shift > 63 {
        None
    } else if shift == 63 && s[0] != 0x00 && s[0] != 0x7f {
        None
    } else {
        let low: u64 = ((s[0] & 0x7f) as u64) << shift;
        if s[0] & 0x80 == 0 {
            if shift + 7 < 64 && s[0] & 0x40 == 0x40 {
                Some((low | (0xffff_ffff_ffff_ffffu64 << ((shift + 7) as u64)), 1nat))
            } else {
                Some((low, 1nat))
            }
        } else {
            match leb_signed_bits(s.drop_first(), (shift + 7) as u64) {
                Some((rest, n)) => Some((low | rest, n + 1)),
                None => None,
            }
        }
    }
}

/// How many bytes are passed over from the first byte of `s` on when a
/// number is given up as too large: all up to the first whose top bit is
/// clear, that one included, or all there are.
pub open spec fn leb_skipped(s: Seq<u8>) -> nat
    decreases s.len(),
{
    if s.len() == 0 {
        0
    } else if s[0] & 0x80 == 0 {
        1
    } else {
        1 + leb_skipped(s.drop_first())
    }
}

/// How many bytes of `s` a read of an unsigned number takes, whether it
/// succeeds or not. A read that meets the end of `s` takes all of it; one
/// that gives the number up as too large passes over the rest of its bytes.
pub open spec fn leb_unsigned_taken(s: Seq<u8>, shift: u64) -> nat
    decreases s.len(),
{
    if s.len() == 0 || shift > 63 {
        0
    } else if shift == 63 && s[0] != 0x00 && s[0] != 0x01 {
        leb_skipped(s)
    } else if s[0] & 0x80 == 0 {
        1
    } else {
        1 + leb_unsigned_taken(s.drop_first(), (shift + 7) as u64)
    }
}

/// How many bytes of `s` a read of a signed number takes, whether it
/// succeeds or not.
pub open spec fn leb_signed_taken(s: Seq<u8>, shift: u64) -> nat
    decreases s.len(),
{
    if s.len() == 0 || shift > 63 {
        0
    } else if shift == 63 && s[0] != 0x00 && s[0] != 0x7f {
        leb_skipped(s)
    } else if s[0] & 0x80 == 0 {
        1
    } else {
        1 + leb_signed_taken(s.drop_first(), (shift + 7) as u64)
    }
}

/// No more bytes are passed over than there are.
pub proof fn lemma_leb_skipped_len(s: Seq<u8>)
    ensures
        leb_skipped(s) <= s.len(),
    decreases s.len(),
{
    if s.len() > 0 {
        lemma_leb_skipped_len(s.drop_first());
    }
}

/// A number never takes more bytes than there are.
pub proof fn lemma_leb_unsigned_len(s: Seq<u8>, shift: u64)
    ensures
        leb_unsigned(s, shift) matches Some((_, n)) ==> 1 <= n <= s.len() && n
            == leb_unsigned_taken(s, shift),
        leb_unsigned_taken(s, shift) <= s.len(),
    decreases s.len(),
{
    if s.len() > 0 && shift <= 63 {
        lemma_leb_skipped_len(s);
        lemma_leb_unsigned_len(s.drop_first(), (shift + 7) as u64);
    }
}

/// A number never takes more bytes than there are.
pub proof fn lemma_leb_signed_len(s: Seq<u8>, shift: u64)
    ensures
        leb_signed_bits(s, shift) matches Some((_, n)) ==> 1 <= n <= s.len() && n
            == leb_signed_taken(s, shift),
        leb_signed_taken(s, shift) <= s.len(),
    decreases s.len(),
{
    if s.len() > 0 && shift <= 63 {
        lemma_leb_skipped_len(s);
        lemma_leb_signed_len(s.drop_first(), (shift + 7) as u64);
    }
}

/// Calls `leb128::read::unsigned` on `input`. Gives the number read, as
/// `leb_unsigned` states it, or `None` where the crate reports the end of
/// the input or an overflow; and, either way, how many bytes of `input` are
/// left behind what the crate has taken, as `leb_unsigned_taken` states it.
#[verifier::external_body]
pub(crate) fn read_unsigned(input: &[u8]) -> (r: (Option<u64>, usize))
    ensures
        r.0 == match leb_unsigned(input@, 0) {
            Some((v, _)) => Some(v),
            None => None,
        },
        r.1 == input.len() - leb_unsigned_taken(input@, 0),
{
    let mut rest: &[u8] = input;
    match leb128::read::unsigned(&mut rest) {
        Ok(v) => (Some(v), rest.len()),
        Err(_) => (None, rest.len()),
    }
}

/// Calls `leb128::read::signed` on `input`. Gives the number read, as
/// `leb_signed_bits` states it, or `None` where the crate reports the end
/// of the input or an overflow; and, either way, how many bytes of `input`
/// are left behind what the crate has taken, as `leb_signed_taken` states
/// it.
#[verifier::external_body]
pub(crate) fn read_signed(input: &[u8]) -> (r: (Option<i64>, usize))
    ensures
        r.0 == match leb_signed_bits(input@, 0) {
            Some((v, _)) => Some(v as i64),
            None => None,
        },
        r.1 == input.len() - leb_signed_taken(input@, 0),
{
    let mut rest: &[u8] = input;
    match leb128::read::signed(&mut rest) {
        Ok(v) => (Some(v), rest.len()),
        Err(_) => (None, rest.len()),
    }
}

} // verus!
