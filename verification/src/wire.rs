//! Big-endian integers and two's complement, as numbers.
use vstd::prelude::*;

verus! {

/// `256` to the power `n`.
pub open spec fn pow256(n: nat) -> nat
    decreases n,
{
    if n == 0 {
        1
    } else {
        256 * pow256((n - 1) as nat)
    }
}

/// The unsigned number whose big-endian bytes are `s`.
pub open spec fn be_value(s: Seq<u8>) -> nat
    decreases s.len(),
{
    if s.len() == 0 {
        0
    } else {
        be_value(s.drop_last()) * 256 + s.last() as nat
    }
}

/// The `n` big-endian bytes of `v` (its lowest `n` bytes when `v` is larger).
pub open spec fn be_bytes(v: nat, n: nat) -> Seq<u8>
    decreases n,
{
    if n == 0 {
        seq![]
    } else {
        be_bytes(v / 256, (n - 1) as nat).push((v % 256) as u8)
    }
}

/// The signed number that the `n`-byte two's complement pattern `u` stands for.
pub open spec fn from_twos(u: nat, n: nat) -> int {
    if 2 * u >= pow256(n) {
        u - pow256(n)
    } else {
        u as int
    }
}

/// The `n`-byte two's complement pattern of `v`.
pub open spec fn to_twos(v: int, n: nat) -> nat {
    if v < 0 {
        (v + pow256(n)) as nat
    } else {
        v as nat
    }
}

/// Whether `v` fits in `n` bytes of two's complement.
pub open spec fn fits_signed(v: int, n: nat) -> bool {
    -(pow256(n) as int) <= 2 * v < pow256(n)
}

pub proof fn lemma_pow256_values()
    ensures
        pow256(0) == 1,
        pow256(1) == 0x100,
        pow256(2) == 0x1_0000,
        pow256(4) == 0x1_0000_0000,
        pow256(8) == 0x1_0000_0000_0000_0000,
{
    reveal_with_fuel(pow256, 9);
}

pub proof fn lemma_pow256_positive(n: nat)
    ensures
        pow256(n) > 0,
    decreases n,
{
    if n > 0 {
        lemma_pow256_positive((n - 1) as nat);
    }
}

proof fn lemma_step_bound(x: nat, b: nat, p: nat) by (nonlinear_arith)
    requires
        x < p,
        b < 256,
    ensures
        x * 256 + b < 256 * p,
{
}

proof fn lemma_div_bound(v: nat, p: nat) by (nonlinear_arith)
    requires
        v < 256 * p,
    ensures
        v / 256 < p,
{
}

proof fn lemma_div_mod_256(x: nat, b: nat) by (nonlinear_arith)
    requires
        b < 256,
    ensures
        (x * 256 + b) / 256 == x,
        (x * 256 + b) % 256 == b,
{
}

proof fn lemma_fundamental_256(v: nat) by (nonlinear_arith)
    ensures
        (v / 256) * 256 + v % 256 == v,
{
}

/// A number read from `n` bytes is below `256^n`.
pub proof fn lemma_be_value_bound(s: Seq<u8>)
    ensures
        be_value(s) < pow256(s.len()),
    decreases s.len(),
{
    if s.len() > 0 {
        lemma_be_value_bound(s.drop_last());
        lemma_step_bound(be_value(s.drop_last()), s.last() as nat, pow256((s.len() - 1) as nat));
    }
}

/// Writing `n` bytes gives `n` bytes.
pub proof fn lemma_be_bytes_len(v: nat, n: nat)
    ensures
        be_bytes(v, n).len() == n,
    decreases n,
{
    if n > 0 {
        lemma_be_bytes_len(v / 256, (n - 1) as nat);
    }
}

/// Reading back the bytes written of a number that fits gives the number.
pub proof fn lemma_be_value_of_bytes(v: nat, n: nat)
    requires
        v < pow256(n),
    ensures
        be_value(be_bytes(v, n)) == v,
    decreases n,
{
    if n > 0 {
        lemma_div_bound(v, pow256((n - 1) as nat));
        lemma_be_value_of_bytes(v / 256, (n - 1) as nat);
        let s = be_bytes(v, n);
        assert(s.drop_last() == be_bytes(v / 256, (n - 1) as nat));
        lemma_fundamental_256(v);
    }
}

/// Writing back the number read from some bytes gives those bytes.
pub proof fn lemma_be_bytes_of_value(s: Seq<u8>)
    ensures
        be_bytes(be_value(s), s.len()) == s,
    decreases s.len(),
{
    if s.len() > 0 {
        let d = s.drop_last();
        lemma_be_bytes_of_value(d);
        lemma_div_mod_256(be_value(d), s.last() as nat);
        assert(be_bytes(be_value(s), s.len()) =~= d.push(s.last()));
    }
}

/// The signed number of a pattern fits, and its pattern is that pattern.
pub proof fn lemma_twos_of_pattern(u: nat, n: nat)
    requires
        u < pow256(n),
    ensures
        fits_signed(from_twos(u, n), n),
        to_twos(from_twos(u, n), n) == u,
{
}

/// The pattern of a number that fits stands for that number.
pub proof fn lemma_pattern_of_twos(v: int, n: nat)
    requires
        fits_signed(v, n),
    ensures
        to_twos(v, n) < pow256(n),
        from_twos(to_twos(v, n), n) == v,
{
}

/// `256^i <= 256^j` when `i <= j`.
pub proof fn lemma_pow_mono(i: nat, j: nat)
    requires
        i <= j,
    ensures
        pow256(i) <= pow256(j),
    decreases j,
{
    if i < j {
        lemma_pow_mono(i, (j - 1) as nat);
    }
}

/// `256^n`, for `n <= 8`.
pub fn pow256_exec(n: usize) -> (p: u128)
    requires
        n <= 8,
    ensures
        p == pow256(n as nat),
{
    let mut p: u128 = 1;
    let mut i: usize = 0;
    proof {
        lemma_pow256_values();
    }
    while i < n
        invariant
            i <= n <= 8,
            p == pow256(i as nat),
            pow256(8) == 0x1_0000_0000_0000_0000,
        decreases n - i,
    {
        proof {
            lemma_pow_mono((i + 1) as nat, 8);
        }
        p = p * 256;
        i = i + 1;
    }
    p
}

/// Appends the bytes of `b` to `out`.
pub fn push_bytes(out: &mut Vec<u8>, b: &[u8])
    ensures
        final(out)@ == old(out)@ + b@,
{
    let mut i: usize = 0;
    while i < b.len()
        invariant
            i <= b@.len(),
            out@ == old(out)@ + b@.take(i as int),
        decreases b@.len() - i,
    {
        out.push(b[i]);
        i = i + 1;
        assert(out@ =~= old(out)@ + b@.take(i as int));
    }
    assert(b@.take(b@.len() as int) =~= b@);
}

/// Appends the `n` big-endian bytes of `v` to `out`.
pub fn push_be(out: &mut Vec<u8>, v: u64, n: usize)
    requires
        n <= 8,
    ensures
        final(out)@ == old(out)@ + be_bytes(v as nat, n as nat),
    decreases n,
{
    if n > 0 {
        push_be(out, v / 256, n - 1);
        out.push((v % 256) as u8);
        proof {
            assert(be_bytes(v as nat, n as nat) == be_bytes((v / 256) as nat, (n - 1) as nat).push(
                (v % 256) as u8,
            ));
        }
    } else {
        assert(old(out)@ + be_bytes(v as nat, 0) =~= old(out)@);
    }
}

} // verus!
