//! Little-endian codec for process-image values.
use byteorder::{ByteOrder, LittleEndian};
use vstd::arithmetic::power2::{lemma2_to64, pow2};
use vstd::prelude::*;

use crate::error::ControlError;

verus! {

/// 256 to the power `n`: the number of values that `n` bytes can hold.
pub open spec fn pow256(n: nat) -> nat
    decreases n,
{
    if n == 0 {
        1
    } else {
        256 * pow256((n - 1) as nat)
    }
}

/// The unsigned number that the bytes `b` hold, least significant byte first.
pub open spec fn le_value(b: Seq<u8>) -> nat
    decreases b.len(),
{
    if b.len() == 0 {
        0
    } else {
        b[0] as nat + 256 * le_value(b.drop_first())
    }
}

/// The `n` least significant bytes of `v`, least significant byte first.
pub open spec fn le_bytes(v: nat, n: nat) -> Seq<u8>
    decreases n,
{
    if n == 0 {
        Seq::empty()
    } else {
        seq![(v % 256) as u8] + le_bytes(v / 256, (n - 1) as nat)
    }
}

/// The bit widths in which a value can be encoded.
pub open spec fn is_encodable_width(size: usize) -> bool {
    size == 8 || size == 16 || size == 32 || size == 64
}

/// The buffer lengths, in bytes, from which a value can be decoded.
pub open spec fn is_decodable_length(len: nat) -> bool {
    len == 1 || len == 2 || len == 4
}

/// Relies on byteorder's `LittleEndian::read_u16`: the first two bytes, least
/// significant first. It panics on a shorter buffer.
#[verifier::external_body]
fn le_read_u16(buf: &[u8]) -> (r: u16)
    requires
        buf@.len() >= 2,
    ensures
        r as int == buf@[0] as int + 256 * buf@[1] as int,
{
    LittleEndian::read_u16(buf)
}

/// Relies on byteorder's `LittleEndian::read_u32`: the first four bytes, least
/// significant first. It panics on a shorter buffer.
#[verifier::external_body]
fn le_read_u32(buf: &[u8]) -> (r: u32)
    requires
        buf@.len() >= 4,
    ensures
        r as int == buf@[0] as int + 256 * (buf@[1] as int + 256 * (buf@[2] as int + 256
            * buf@[3] as int)),
{
    LittleEndian::read_u32(buf)
}

/// Relies on byteorder's `LittleEndian::write_u16`: `n` as two bytes, least
/// significant first.
#[verifier::external_body]
fn le_write_u16(n: u16) -> (r: Vec<u8>)
    ensures
        r@ == le_bytes(n as nat, 2),
{
    let mut buf = [0u8; 2];
    LittleEndian::write_u16(&mut buf, n);
    buf.to_vec()
}

/// Relies on byteorder's `LittleEndian::write_u32`: `n` as four bytes, least
/// significant first.
#[verifier::external_body]
fn le_write_u32(n: u32) -> (r: Vec<u8>)
    ensures
        r@ == le_bytes(n as nat, 4),
{
    let mut buf = [0u8; 4];
    LittleEndian::write_u32(&mut buf, n);
    buf.to_vec()
}

/// Relies on byteorder's `LittleEndian::write_u64`: `n` as eight bytes, least
/// significant first.
#[verifier::external_body]
fn le_write_u64(n: u64) -> (r: Vec<u8>)
    ensures
        r@ == le_bytes(n as nat, 8),
{
    let mut buf = [0u8; 8];
    LittleEndian::write_u64(&mut buf, n);
    buf.to_vec()
}

/// Only the low `n` bytes of a value are encoded.
pub proof fn lemma_le_bytes_mod(v: nat, n: nat)
    ensures
        le_bytes(v % pow256(n), n) == le_bytes(v, n),
    decreases n,
{
    if n > 0 {
        let p = pow256((n - 1) as nat);
        lemma_pow256_positive((n - 1) as nat);
        vstd::arithmetic::div_mod::lemma_mod_breakdown(v as int, 256, p as int);
        vstd::arithmetic::div_mod::lemma_mod_mod(v as int, 256, p as int);
        let w = v % (256 * p);
        assert(w == 256 * ((v / 256) % p) + v % 256);
        vstd::arithmetic::div_mod::lemma_fundamental_div_mod_converse_div(
            w as int,
            256,
            ((v / 256) % p) as int,
            (v % 256) as int,
        );
        lemma_le_bytes_mod(v / 256, (n - 1) as nat);
    }
}

/// `pow256(n)` is positive.
pub proof fn lemma_pow256_positive(n: nat)
    ensures
        pow256(n) > 0,
    decreases n,
{
    if n > 0 {
        lemma_pow256_positive((n - 1) as nat);
    }
}

/// Encoding `v` in `n` bytes gives `n` bytes.
pub proof fn lemma_le_bytes_len(v: nat, n: nat)
    ensures
        le_bytes(v, n).len() == n,
    decreases n,
{
    if n > 0 {
        lemma_le_bytes_len(v / 256, (n - 1) as nat);
    }
}

/// Decoding what `n` bytes of `v` encode gives `v` modulo `256^n`.
pub proof fn lemma_le_round_trip(v: nat, n: nat)
    ensures
        le_value(le_bytes(v, n)) == v % pow256(n),
    decreases n,
{
    if n > 0 {
        let p = pow256((n - 1) as nat);
        lemma_pow256_positive((n - 1) as nat);
        let rest = le_bytes(v / 256, (n - 1) as nat);
        let b = seq![(v % 256) as u8] + rest;
        assert(b.drop_first() =~= rest);
        lemma_le_round_trip(v / 256, (n - 1) as nat);
        vstd::arithmetic::div_mod::lemma_mod_breakdown(v as int, 256, p as int);
    }
}

/// For the widths of 8, 16 and 32 bits, what `num_to_bytes` encodes
/// `decode_value` accepts, and decodes to the value modulo `2^w`.
pub proof fn lemma_round_trip(v: u64, w: usize)
    requires
        w == 8 || w == 16 || w == 32,
    ensures
        is_encodable_width(w),
        is_decodable_length(le_bytes(v as nat, (w / 8) as nat).len()),
        le_value(le_bytes(v as nat, (w / 8) as nat)) == v as nat % pow2(w as nat),
{
    lemma2_to64();
    reveal_with_fuel(pow256, 5);
    lemma_le_bytes_len(v as nat, (w / 8) as nat);
    lemma_le_round_trip(v as nat, (w / 8) as nat);
}

/// Encodes `num` little-endian in `size` bits, that is `size / 8` bytes.
pub fn num_to_bytes(num: u64, size: usize) -> (r: Result<Vec<u8>, ControlError>)
    ensures
        r is Ok <==> is_encodable_width(size),
        r is Ok ==> r->Ok_0@ == le_bytes(num as nat, (size / 8) as nat),
        r is Ok ==> r->Ok_0@.len() == size / 8,
        !is_encodable_width(size) ==> r == Err::<Vec<u8>, ControlError>(
            ControlError::InvalidSize(size),
        ),
{
    proof {
        lemma_le_bytes_len(num as nat, (size / 8) as nat);
    }
    if size == 8 {
        let b = (num % 256) as u8;
        let v = vec![b];
        proof {
            reveal_with_fuel(le_bytes, 2);
            assert(v@ =~= le_bytes(num as nat, 1));
        }
        Ok(v)
    } else if size == 16 {
        let n = (num % 65536) as u16;
        proof {
            reveal_with_fuel(pow256, 3);
            assert(pow256(2) == 65536);
            lemma_le_bytes_mod(num as nat, 2);
        }
        Ok(le_write_u16(n))
    } else if size == 32 {
        let n = (num % 0x1_0000_0000) as u32;
        proof {
            reveal_with_fuel(pow256, 5);
            assert(pow256(4) == 0x1_0000_0000);
            lemma_le_bytes_mod(num as nat, 4);
        }
        Ok(le_write_u32(n))
    } else if size == 64 {
        Ok(le_write_u64(num))
    } else {
        Err(ControlError::InvalidSize(size))
    }
}

/// Decodes a 1-, 2- or 4-byte little-endian buffer into an unsigned value.
pub fn decode_value(data: &[u8]) -> (r: Result<u32, ControlError>)
    ensures
        r is Ok <==> is_decodable_length(data@.len()),
        r is Ok ==> r->Ok_0 as nat == le_value(data@),
        !is_decodable_length(data@.len()) ==> r == Err::<u32, ControlError>(
            ControlError::InvalidLength(data@.len() as usize),
        ),
{
    proof {
        reveal_with_fuel(le_value, 5);
    }
    let len = data.len();
    if len == 1 {
        Ok(data[0] as u32)
    } else if len == 2 {
        Ok(le_read_u16(data) as u32)
    } else if len == 4 {
        Ok(le_read_u32(data))
    } else {
        Err(ControlError::InvalidLength(len))
    }
}

} // verus!
