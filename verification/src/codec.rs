//! The binary format of booleans and integers.
use vstd::prelude::*;
use crate::error::{Error, end_of_file};
use crate::reader::Reader;
use crate::wire::{
    be_value, be_bytes, from_twos, to_twos, fits_signed, pow256, pow256_exec, push_be,
    lemma_be_value_bound, lemma_be_bytes_len, lemma_be_value_of_bytes, lemma_twos_of_pattern,
    lemma_pattern_of_twos, lemma_pow_mono, lemma_pow256_values,
};

verus! {

/// Reads an `n`-byte signed big-endian integer from the front of `s`, giving it and the rest.
pub open spec fn parse_int(s: Seq<u8>, n: nat) -> Result<(int, Seq<u8>), Error> {
    if s.len() >= n {
        Ok((from_twos(be_value(s.take(n as int)), n), s.skip(n as int)))
    } else {
        Err(end_of_file())
    }
}

/// Reads an `n`-byte unsigned big-endian integer from the front of `s`, giving it and the rest.
pub open spec fn parse_uint(s: Seq<u8>, n: nat) -> Result<(nat, Seq<u8>), Error> {
    if s.len() >= n {
        Ok((be_value(s.take(n as int)), s.skip(n as int)))
    } else {
        Err(end_of_file())
    }
}

/// The `n` bytes of `v` as a signed big-endian integer.
pub open spec fn int_bytes(v: int, n: nat) -> Seq<u8> {
    be_bytes(to_twos(v, n), n)
}

/// Reads a boolean byte from the front of `s`: any byte but zero is true.
pub open spec fn parse_bool(s: Seq<u8>) -> Result<(bool, Seq<u8>), Error> {
    if s.len() >= 1 {
        Ok((s[0] != 0, s.skip(1)))
    } else {
        Err(end_of_file())
    }
}

/// The byte of a boolean.
pub open spec fn bool_bytes(b: bool) -> Seq<u8> {
    seq![if b { 1u8 } else { 0u8 }]
}

/// A signed integer read back from its bytes, followed by anything, is that integer.
pub proof fn lemma_parse_int_bytes(v: int, n: nat, tail: Seq<u8>)
    requires
        fits_signed(v, n),
    ensures
        parse_int(int_bytes(v, n) + tail, n) == Ok::<(int, Seq<u8>), Error>((v, tail)),
{
    lemma_pattern_of_twos(v, n);
    lemma_be_bytes_len(to_twos(v, n), n);
    lemma_be_value_of_bytes(to_twos(v, n), n);
    let s = int_bytes(v, n) + tail;
    assert(s.take(n as int) =~= int_bytes(v, n));
    assert(s.skip(n as int) =~= tail);
}

/// An unsigned integer read back from its bytes, followed by anything, is that integer.
pub proof fn lemma_parse_uint_bytes(v: nat, n: nat, tail: Seq<u8>)
    requires
        v < pow256(n),
    ensures
        parse_uint(be_bytes(v, n) + tail, n) == Ok::<(nat, Seq<u8>), Error>((v, tail)),
{
    lemma_be_bytes_len(v, n);
    lemma_be_value_of_bytes(v, n);
    let s = be_bytes(v, n) + tail;
    assert(s.take(n as int) =~= be_bytes(v, n));
    assert(s.skip(n as int) =~= tail);
}

/// The integer read from bytes fits in as many bytes.
pub proof fn lemma_parse_int_fits(s: Seq<u8>, n: nat)
    requires
        s.len() >= n,
    ensures
        fits_signed(from_twos(be_value(s.take(n as int)), n), n),
{
    lemma_be_value_bound(s.take(n as int));
    lemma_twos_of_pattern(be_value(s.take(n as int)), n);
}

/// Reads an `n`-byte signed big-endian integer.
pub fn read_signed(raw: &mut Reader<'_>, n: usize) -> (res: Result<i64, Error>)
    requires
        1 <= n <= 8,
    ensures
        parse_int(old(raw)@, n as nat) matches Ok((v, rest)) ==> (res matches Ok(x) && x == v
            && final(raw)@ == rest),
        parse_int(old(raw)@, n as nat) matches Err(e) ==> res == Err::<i64, Error>(e) && final(raw)@ == old(raw)@,
{
    let u = match raw.read_be_uint(n) {
        Ok(u) => u,
        Err(e) => {
            return Err(e);
        },
    };
    let p = pow256_exec(n);
    proof {
        lemma_be_value_bound(old(raw)@.take(n as int));
        lemma_twos_of_pattern(u as nat, n as nat);
        lemma_pow_mono(n as nat, 8);
        lemma_pow256_values();
    }
    let v: i128 = if 2 * (u as u128) >= p {
        u as i128 - p as i128
    } else {
        u as i128
    };
    Ok(v as i64)
}

/// Reads an `n`-byte unsigned big-endian integer.
pub fn read_unsigned(raw: &mut Reader<'_>, n: usize) -> (res: Result<u64, Error>)
    requires
        1 <= n <= 8,
    ensures
        parse_uint(old(raw)@, n as nat) matches Ok((v, rest)) ==> (res matches Ok(x) && x == v
            && final(raw)@ == rest),
        parse_uint(old(raw)@, n as nat) matches Err(e) ==> res == Err::<u64, Error>(e) && final(raw)@ == old(raw)@,
{
    proof {
        if old(raw)@.len() >= n {
            lemma_be_value_bound(old(raw)@.take(n as int));
            lemma_pow_mono(n as nat, 8);
            lemma_pow256_values();
        }
    }
    raw.read_be_uint(n)
}

/// Appends `v` as an `n`-byte signed big-endian integer.
pub fn write_signed(w: &mut Vec<u8>, v: i64, n: usize)
    requires
        1 <= n <= 8,
        fits_signed(v as int, n as nat),
    ensures
        final(w)@ == old(w)@ + int_bytes(v as int, n as nat),
{
    let p = pow256_exec(n);
    proof {
        lemma_pattern_of_twos(v as int, n as nat);
        lemma_pow_mono(n as nat, 8);
        lemma_pow256_values();
    }
    let u: u64 = if v < 0 {
        (v as i128 + p as i128) as u64
    } else {
        v as u64
    };
    push_be(w, u, n);
}

/// Reads a boolean byte.
pub fn read_bool(raw: &mut Reader<'_>) -> (res: Result<bool, Error>)
    ensures
        parse_bool(old(raw)@) matches Ok((v, rest)) ==> res == Ok::<bool, Error>(v) && final(raw)@ == rest,
        parse_bool(old(raw)@) matches Err(e) ==> res == Err::<bool, Error>(e) && final(raw)@
            == old(raw)@,
{
    match raw.read_u8() {
        Ok(b) => Ok(b != 0),
        Err(e) => Err(e),
    }
}

/// Appends the byte of a boolean.
pub fn write_bool(w: &mut Vec<u8>, b: bool)
    ensures
        final(w)@ == old(w)@ + bool_bytes(b),
{
    w.push(if b { 1u8 } else { 0u8 });
    assert(w@ =~= old(w)@ + bool_bytes(b));
}

} // verus!
