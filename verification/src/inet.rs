//! Network addresses in the binary format of `INET` and `CIDR`.
use vstd::prelude::*;
use crate::error::{Error, end_of_file};
use crate::reader::Reader;
use crate::wire::{be_value, be_bytes, push_be, lemma_be_bytes_len, lemma_be_value_of_bytes, lemma_pow256_values};

verus! {

/// An IP address.
#[derive(Clone, Copy, Debug, PartialEq, Eq, Structural)]
pub enum IpAddr {
    /// An IPv4 address: its four octets.
    Ipv4Addr(u8, u8, u8, u8),
    /// An IPv6 address: its eight 16-bit groups.
    Ipv6Addr(u16, u16, u16, u16, u16, u16, u16, u16),
}

/// The address family byte of IPv4.
pub const INET_FAMILY_V4: u8 = 2;

/// The address family byte of IPv6.
pub const INET_FAMILY_V6: u8 = 3;

/// The 16-bit big-endian group at index `i` of `s`.
pub open spec fn group_at(s: Seq<u8>, i: int) -> u16 {
    be_value(s.subrange(2 * i, 2 * i + 2)) as u16
}

/// Reads an address: family, prefix bits, CIDR flag and length bytes, then the
/// address bytes; what follows them, up to sixteen bytes, is read too.
pub open spec fn parse_inet(s: Seq<u8>) -> Result<(IpAddr, Seq<u8>), Error> {
    if s.len() < 4 {
        Err(end_of_file())
    } else if s[3] > 16 {
        Err(Error::BadData)
    } else if s.len() - 4 < s[3] {
        Err(end_of_file())
    } else {
        let family = s[0];
        let nb = s[3];
        let body = s.skip(4);
        let rest = if body.len() < 16 {
            Seq::<u8>::empty()
        } else {
            body.skip(16)
        };
        if family == INET_FAMILY_V4 && nb == 4 {
            Ok((IpAddr::Ipv4Addr(body[0], body[1], body[2], body[3]), rest))
        } else if family == INET_FAMILY_V6 && nb == 16 {
            Ok(
                (
                    IpAddr::Ipv6Addr(
                        group_at(body, 0),
                        group_at(body, 1),
                        group_at(body, 2),
                        group_at(body, 3),
                        group_at(body, 4),
                        group_at(body, 5),
                        group_at(body, 6),
                        group_at(body, 7),
                    ),
                    rest,
                ),
            )
        } else {
            Err(Error::BadData)
        }
    }
}

/// The bytes of an address: family, prefix bits (the whole address), not CIDR,
/// length, then the address bytes.
pub open spec fn inet_bytes(a: IpAddr) -> Seq<u8> {
    match a {
        IpAddr::Ipv4Addr(a, b, c, d) => seq![INET_FAMILY_V4, 32u8, 0u8, 4u8, a, b, c, d],
        IpAddr::Ipv6Addr(a, b, c, d, e, f, g, h) => seq![INET_FAMILY_V6, 128u8, 0u8, 16u8]
            + be_bytes(a as nat, 2) + be_bytes(b as nat, 2) + be_bytes(c as nat, 2) + be_bytes(
            d as nat,
            2,
        ) + be_bytes(e as nat, 2) + be_bytes(f as nat, 2) + be_bytes(g as nat, 2) + be_bytes(
            h as nat,
            2,
        ),
    }
}

proof fn lemma_group_of_word(w: u16, s: Seq<u8>, i: int)
    requires
        0 <= i,
        2 * i + 2 <= s.len(),
        s.subrange(2 * i, 2 * i + 2) == be_bytes(w as nat, 2),
    ensures
        group_at(s, i) == w,
{
    lemma_pow256_values();
    lemma_be_value_of_bytes(w as nat, 2);
}

/// An address read back from its bytes is that address.
pub proof fn lemma_parse_inet_bytes(a: IpAddr)
    ensures
        parse_inet(inet_bytes(a)) matches Ok((b, rest)) && b == a && rest.len() == 0,
{
    match a {
        IpAddr::Ipv4Addr(..) => {},
        IpAddr::Ipv6Addr(w0, w1, w2, w3, w4, w5, w6, w7) => {
            let s = inet_bytes(a);
            lemma_be_bytes_len(w0 as nat, 2);
            lemma_be_bytes_len(w1 as nat, 2);
            lemma_be_bytes_len(w2 as nat, 2);
            lemma_be_bytes_len(w3 as nat, 2);
            lemma_be_bytes_len(w4 as nat, 2);
            lemma_be_bytes_len(w5 as nat, 2);
            lemma_be_bytes_len(w6 as nat, 2);
            lemma_be_bytes_len(w7 as nat, 2);
            assert(s.len() == 20);
            let body = s.skip(4);
            assert(body.subrange(0, 2) =~= be_bytes(w0 as nat, 2));
            assert(body.subrange(2, 4) =~= be_bytes(w1 as nat, 2));
            assert(body.subrange(4, 6) =~= be_bytes(w2 as nat, 2));
            assert(body.subrange(6, 8) =~= be_bytes(w3 as nat, 2));
            assert(body.subrange(8, 10) =~= be_bytes(w4 as nat, 2));
            assert(body.subrange(10, 12) =~= be_bytes(w5 as nat, 2));
            assert(body.subrange(12, 14) =~= be_bytes(w6 as nat, 2));
            assert(body.subrange(14, 16) =~= be_bytes(w7 as nat, 2));
            lemma_group_of_word(w0, body, 0);
            lemma_group_of_word(w1, body, 1);
            lemma_group_of_word(w2, body, 2);
            lemma_group_of_word(w3, body, 3);
            lemma_group_of_word(w4, body, 4);
            lemma_group_of_word(w5, body, 5);
            lemma_group_of_word(w6, body, 6);
            lemma_group_of_word(w7, body, 7);
            assert(body.skip(16).len() == 0);
        },
    }
}

fn group(b: &[u8], i: usize) -> (w: u16)
    requires
        i < 8,
        2 * i + 2 <= b@.len(),
    ensures
        w == group_at(b@, i as int),
{
    let hi = b[2 * i];
    let lo = b[2 * i + 1];
    proof {
        let s = b@.subrange(2 * i, 2 * i + 2);
        assert(s.drop_last().drop_last().len() == 0);
        assert(be_value(s) == be_value(s.drop_last()) * 256 + lo);
        assert(be_value(s.drop_last()) == be_value(s.drop_last().drop_last()) * 256 + hi);
    }
    (hi as u16) * 256 + lo as u16
}

/// Reads an address.
pub fn read_inet(raw: &mut Reader<'_>) -> (res: Result<IpAddr, Error>)
    ensures
        parse_inet(old(raw)@) matches Ok((a, rest)) ==> res == Ok::<IpAddr, Error>(a) && final(raw)@
            == rest,
        parse_inet(old(raw)@) matches Err(e) ==> res == Err::<IpAddr, Error>(e),
{
    let ghost s = raw@;
    let family = match raw.read_u8() {
        Ok(b) => b,
        Err(e) => return Err(e),
    };
    let _bits = match raw.read_u8() {
        Ok(b) => b,
        Err(e) => return Err(e),
    };
    let _is_cidr = match raw.read_u8() {
        Ok(b) => b,
        Err(e) => return Err(e),
    };
    let nb = match raw.read_u8() {
        Ok(b) => b,
        Err(e) => return Err(e),
    };
    assert(raw@ =~= s.skip(4));
    if nb > 16 {
        return Err(Error::BadData);
    }
    let avail = raw.remaining();
    if avail < nb as usize {
        return Err(Error::IoError(crate::error::IoErrorKind::EndOfFile));
    }
    let take = if avail < 16 {
        avail
    } else {
        16
    };
    let body = match raw.read_exact(take) {
        Ok(b) => b,
        Err(e) => return Err(e),
    };
    proof {
        let full = s.skip(4);
        assert(body@ =~= full.take(take as int));
        if avail < 16 {
            assert(raw@ =~= Seq::<u8>::empty());
        }
        assert forall|i: int| 0 <= i < 8 && 2 * i + 2 <= take implies group_at(body@, i)
            == group_at(full, i) by {
            assert(body@.subrange(2 * i, 2 * i + 2) =~= full.subrange(2 * i, 2 * i + 2));
        }
    }
    if family == INET_FAMILY_V4 && nb == 4 {
        Ok(IpAddr::Ipv4Addr(body[0], body[1], body[2], body[3]))
    } else if family == INET_FAMILY_V6 && nb == 16 {
        Ok(
            IpAddr::Ipv6Addr(
                group(body, 0),
                group(body, 1),
                group(body, 2),
                group(body, 3),
                group(body, 4),
                group(body, 5),
                group(body, 6),
                group(body, 7),
            ),
        )
    } else {
        Err(Error::BadData)
    }
}

/// Appends the bytes of an address.
pub fn write_inet(w: &mut Vec<u8>, a: IpAddr)
    ensures
        final(w)@ == old(w)@ + inet_bytes(a),
{
    match a {
        IpAddr::Ipv4Addr(a, b, c, d) => {
            w.push(INET_FAMILY_V4);
            w.push(32);
            w.push(0);
            w.push(4);
            w.push(a);
            w.push(b);
            w.push(c);
            w.push(d);
            assert(w@ =~= old(w)@ + inet_bytes(IpAddr::Ipv4Addr(a, b, c, d)));
        },
        IpAddr::Ipv6Addr(a, b, c, d, e, f, g, h) => {
            w.push(INET_FAMILY_V6);
            w.push(128);
            w.push(0);
            w.push(16);
            push_be(w, a as u64, 2);
            push_be(w, b as u64, 2);
            push_be(w, c as u64, 2);
            push_be(w, d as u64, 2);
            push_be(w, e as u64, 2);
            push_be(w, f as u64, 2);
            push_be(w, g as u64, 2);
            push_be(w, h as u64, 2);
            assert(w@ =~= old(w)@ + inet_bytes(IpAddr::Ipv6Addr(a, b, c, d, e, f, g, h)));
        },
    }
}

} // verus!
