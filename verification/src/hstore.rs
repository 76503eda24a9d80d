//! `hstore` maps from text keys to nullable text values.
use vstd::prelude::*;
use vstd::utf8::{encode_utf8, encode_utf8_valid_utf8, encode_utf8_decode_utf8};
use crate::codec::{parse_int, int_bytes, read_signed, write_signed, lemma_parse_int_bytes};
use crate::error::{Error, end_of_file, opt_view};
use crate::reader::Reader;
use crate::text::{decode_text, text_from_bytes, text_bytes_of};
use crate::wire::{fits_signed, lemma_pow256_values};

verus! {

/// An entry of an `hstore` as text: key and nullable value.
pub type EntryView = (Seq<char>, Option<Seq<char>>);

/// The text of an entry.
pub open spec fn entry_view(e: (String, Option<String>)) -> EntryView {
    (e.0@, opt_view(e.1))
}

/// The text of a list of entries.
pub open spec fn entries_view(v: Seq<(String, Option<String>)>) -> Seq<EntryView> {
    v.map_values(|e: (String, Option<String>)| entry_view(e))
}

/// No key occurs twice.
pub open spec fn distinct_keys(v: Seq<EntryView>) -> bool {
    forall|i: int, j: int| 0 <= i < j < v.len() ==> #[trigger] v[i].0 != #[trigger] v[j].0
}

/// Some entry has key `k`.
pub open spec fn has_key(v: Seq<EntryView>, k: Seq<char>) -> bool {
    exists|i: int| 0 <= i < v.len() && #[trigger] v[i].0 == k
}

/// The position of the entry with key `k`.
pub open spec fn key_index(v: Seq<EntryView>, k: Seq<char>) -> int {
    choose|i: int| 0 <= i < v.len() && #[trigger] v[i].0 == k
}

/// The value that key `k` maps to.
pub open spec fn value_of(v: Seq<EntryView>, k: Seq<char>) -> Option<Seq<char>> {
    v[key_index(v, k)].1
}

/// Sets key `k` to `val`: an entry with that key keeps its place, a new key goes last.
pub open spec fn insert_entry(v: Seq<EntryView>, k: Seq<char>, val: Option<Seq<char>>) -> Seq<
    EntryView,
> {
    if has_key(v, k) {
        v.update(key_index(v, k), (k, val))
    } else {
        v.push((k, val))
    }
}

/// Setting a key keeps the keys distinct.
pub proof fn lemma_insert_distinct(v: Seq<EntryView>, k: Seq<char>, val: Option<Seq<char>>)
    requires
        distinct_keys(v),
    ensures
        distinct_keys(insert_entry(v, k, val)),
        has_key(insert_entry(v, k, val), k),
        value_of(insert_entry(v, k, val), k) == val,
{
    let r = insert_entry(v, k, val);
    if has_key(v, k) {
        let idx = key_index(v, k);
        assert(r[idx].0 == k);
        assert forall|i: int, j: int| 0 <= i < j < r.len() implies #[trigger] r[i].0
            != #[trigger] r[j].0 by {
            assert(v[i].0 != v[j].0);
            if i == idx {
                assert(v[idx].0 == k);
            }
        }
        assert(key_index(r, k) == idx);
    } else {
        let n = v.len() as int;
        assert(r[n].0 == k);
        assert forall|i: int, j: int| 0 <= i < j < r.len() implies #[trigger] r[i].0
            != #[trigger] r[j].0 by {
            if j < n {
                assert(v[i].0 != v[j].0);
            } else {
                assert(r[i].0 == v[i].0);
            }
        }
        let c = key_index(r, k);
        if c != n {
            assert(r[c].0 == v[c].0);
        }
    }
}

/// Setting a key leaves every other key and its value as they were.
pub proof fn lemma_insert_other(
    v: Seq<EntryView>,
    k: Seq<char>,
    val: Option<Seq<char>>,
    other: Seq<char>,
)
    requires
        distinct_keys(v),
        other != k,
    ensures
        has_key(insert_entry(v, k, val), other) == has_key(v, other),
        has_key(v, other) ==> value_of(insert_entry(v, k, val), other) == value_of(v, other),
{
    let r = insert_entry(v, k, val);
    lemma_insert_distinct(v, k, val);
    if has_key(v, other) {
        let i = key_index(v, other);
        assert(r[i].0 == other);
        let j = key_index(r, other);
        if j != i {
            if j < i {
                assert(r[j].0 != r[i].0);
            } else {
                assert(r[i].0 != r[j].0);
            }
        }
    }
    if has_key(r, other) {
        let j = key_index(r, other);
        assert(v[j].0 == other);
    }
}

/// A map from text keys to nullable text values, which keeps its entries in
/// the order in which their keys were first set.
#[derive(Debug)]
pub struct Hstore {
    entries: Vec<(String, Option<String>)>,
}

impl View for Hstore {
    type V = Seq<EntryView>;

    closed spec fn view(&self) -> Seq<EntryView> {
        entries_view(self.entries@)
    }
}

impl Hstore {
    #[verifier::type_invariant]
    spec fn inv(self) -> bool {
        distinct_keys(entries_view(self.entries@))
    }

    /// A map with no entries.
    pub fn new() -> (h: Self)
        ensures
            h@ == Seq::<EntryView>::empty(),
    {
        let h = Hstore { entries: Vec::new() };
        assert(h@ =~= Seq::<EntryView>::empty());
        h
    }

    /// The number of entries.
    pub fn len(&self) -> (n: usize)
        ensures
            n == self@.len(),
    {
        self.entries.len()
    }

    /// The entries, in order.
    pub fn entries(&self) -> (res: &Vec<(String, Option<String>)>)
        ensures
            entries_view(res@) == self@,
            distinct_keys(entries_view(res@)),
    {
        proof {
            use_type_invariant(self);
        }
        &self.entries
    }

    /// The position of key `key`, if it is there.
    fn find(&self, key: &String) -> (res: Option<usize>)
        ensures
            res is Some <==> has_key(self@, key@),
            res matches Some(i) ==> i == key_index(self@, key@) && i < self@.len(),
    {
        proof {
            use_type_invariant(self);
        }
        let mut i: usize = 0;
        while i < self.entries.len()
            invariant
                i <= self.entries@.len(),
                self@ == entries_view(self.entries@),
                self@.len() == self.entries@.len(),
                distinct_keys(self@),
                forall|j: int| 0 <= j < i ==> #[trigger] self@[j].0 != key@,
            decreases self.entries@.len() - i,
        {
            if self.entries[i].0 == *key {
                proof {
                    assert(self@[i as int].0 == key@);
                    let c = key_index(self@, key@);
                    if c != i {
                        if c < i {
                            assert(self@[c].0 != self@[i as int].0);
                        } else {
                            assert(self@[i as int].0 != self@[c].0);
                        }
                    }
                }
                return Some(i);
            }
            i = i + 1;
        }
        None
    }

    /// The value of key `key`, if the key is there.
    pub fn get(&self, key: &str) -> (res: Option<&Option<String>>)
        ensures
            res is Some <==> has_key(self@, key@),
            res matches Some(v) ==> opt_view(*v) == value_of(self@, key@),
    {
        let k = key.to_owned();
        match self.find(&k) {
            Some(i) => Some(&self.entries[i].1),
            None => None,
        }
    }

    /// Sets key `key` to `value`.
    pub fn insert(&mut self, key: String, value: Option<String>)
        ensures
            final(self)@ == insert_entry(old(self)@, key@, opt_view(value)),
    {
        proof {
            use_type_invariant(&*self);
        }
        let found = self.find(&key);
        let ghost kv = key@;
        let ghost vv = opt_view(value);
        let ghost new_view = insert_entry(old(self)@, kv, vv);
        proof {
            lemma_insert_distinct(old(self)@, kv, vv);
        }
        let mut entries: Vec<(String, Option<String>)> = Vec::new();
        std::mem::swap(&mut entries, &mut self.entries);
        match found {
            Some(i) => {
                entries.set(i, (key, value));
            },
            None => {
                entries.push((key, value));
            },
        }
        assert(entries_view(entries@) =~= new_view);
        self.entries = entries;
    }
}

/// Reads `len` bytes of UTF-8 text from the front of `s`; a negative length
/// runs past the end of any buffer.
pub open spec fn parse_text(s: Seq<u8>, len: int) -> Result<(Seq<char>, Seq<u8>), Error> {
    if len < 0 || s.len() < len {
        Err(end_of_file())
    } else {
        match decode_text(s.take(len)) {
            Ok(t) => Ok((t, s.skip(len))),
            Err(e) => Err(e),
        }
    }
}

/// Reads one entry: key length and key, then value length and value, where a
/// negative value length stands for `NULL`.
pub open spec fn parse_entry(s: Seq<u8>) -> Result<(EntryView, Seq<u8>), Error> {
    match parse_int(s, 4) {
        Err(e) => Err(e),
        Ok((klen, s1)) => match parse_text(s1, klen) {
            Err(e) => Err(e),
            Ok((k, s2)) => match parse_int(s2, 4) {
                Err(e) => Err(e),
                Ok((vlen, s3)) => if vlen < 0 {
                    Ok(((k, None), s3))
                } else {
                    match parse_text(s3, vlen) {
                        Err(e) => Err(e),
                        Ok((v, s4)) => Ok(((k, Some(v)), s4)),
                    }
                },
            },
        },
    }
}

/// Reads `n` more entries, setting each in `acc` in turn.
pub open spec fn parse_entries(s: Seq<u8>, n: nat, acc: Seq<EntryView>) -> Result<
    (Seq<EntryView>, Seq<u8>),
    Error,
>
    decreases n,
{
    if n == 0 {
        Ok((acc, s))
    } else {
        match parse_entry(s) {
            Err(e) => Err(e),
            Ok((e, rest)) => parse_entries(rest, (n - 1) as nat, insert_entry(acc, e.0, e.1)),
        }
    }
}

/// Reads an `hstore`: the count of entries, then the entries; a later entry
/// with the key of an earlier one sets its value.
pub open spec fn parse_hstore(s: Seq<u8>) -> Result<(Seq<EntryView>, Seq<u8>), Error> {
    match parse_int(s, 4) {
        Err(e) => Err(e),
        Ok((count, rest)) => parse_entries(
            rest,
            if count < 0 {
                0
            } else {
                count as nat
            },
            Seq::empty(),
        ),
    }
}

/// A length as a 32-bit signed big-endian integer (cut to 32 bits).
pub open spec fn len_bytes(n: nat) -> Seq<u8> {
    int_bytes((n as i32) as int, 4)
}

/// Text as its length and UTF-8 bytes.
pub open spec fn text_bytes(t: Seq<char>) -> Seq<u8> {
    len_bytes(encode_utf8(t).len()) + encode_utf8(t)
}

/// The bytes of an entry: its key, then its value or `-1` for `NULL`.
pub open spec fn entry_bytes(e: EntryView) -> Seq<u8> {
    text_bytes(e.0) + match e.1 {
        None => int_bytes(-1, 4),
        Some(v) => text_bytes(v),
    }
}

/// The bytes of entries, in order.
pub open spec fn entries_bytes(v: Seq<EntryView>) -> Seq<u8>
    decreases v.len(),
{
    if v.len() == 0 {
        Seq::empty()
    } else {
        entry_bytes(v[0]) + entries_bytes(v.drop_first())
    }
}

/// The bytes of an `hstore`: the count of entries, then the entries.
pub open spec fn hstore_bytes(v: Seq<EntryView>) -> Seq<u8> {
    len_bytes(v.len()) + entries_bytes(v)
}

/// Every length that the format writes fits in its 32-bit field.
pub open spec fn lengths_fit(v: Seq<EntryView>) -> bool {
    &&& v.len() <= i32::MAX
    &&& forall|i: int|
        0 <= i < v.len() ==> {
            &&& encode_utf8(#[trigger] v[i].0).len() <= i32::MAX
            &&& v[i].1 matches Some(t) ==> encode_utf8(t).len() <= i32::MAX
        }
}

proof fn lemma_entries_bytes_concat(a: Seq<EntryView>, b: Seq<EntryView>)
    ensures
        entries_bytes(a + b) == entries_bytes(a) + entries_bytes(b),
    decreases a.len(),
{
    if a.len() == 0 {
        assert(a + b =~= b);
        assert(entries_bytes(a) + entries_bytes(b) =~= entries_bytes(b));
    } else {
        assert((a + b).drop_first() =~= a.drop_first() + b);
        lemma_entries_bytes_concat(a.drop_first(), b);
        assert(entries_bytes(a + b) =~= entries_bytes(a) + entries_bytes(b));
    }
}

proof fn lemma_entries_bytes_push(v: Seq<EntryView>, e: EntryView)
    ensures
        entries_bytes(v.push(e)) == entries_bytes(v) + entry_bytes(e),
{
    lemma_entries_bytes_concat(v, seq![e]);
    assert(v + seq![e] =~= v.push(e));
    assert(seq![e].drop_first() =~= Seq::<EntryView>::empty());
    assert(seq![e][0] == e);
    assert(entries_bytes(Seq::<EntryView>::empty()) == Seq::<u8>::empty());
    assert(entries_bytes(seq![e]) == entry_bytes(e) + entries_bytes(Seq::<EntryView>::empty()));
    assert(entries_bytes(seq![e]) =~= entry_bytes(e));
}

proof fn lemma_len_fits(n: nat)
    requires
        n <= i32::MAX,
    ensures
        (n as i32) as int == n,
        fits_signed(n as int, 4),
{
    lemma_pow256_values();
}

proof fn lemma_parse_text_bytes(t: Seq<char>, tail: Seq<u8>)
    requires
        encode_utf8(t).len() <= i32::MAX,
    ensures
        parse_int(text_bytes(t) + tail, 4) == Ok::<(int, Seq<u8>), Error>(
            (encode_utf8(t).len() as int, encode_utf8(t) + tail),
        ),
        parse_text(encode_utf8(t) + tail, encode_utf8(t).len() as int) == Ok::<
            (Seq<char>, Seq<u8>),
            Error,
        >((t, tail)),
{
    let b = encode_utf8(t);
    lemma_len_fits(b.len());
    lemma_parse_int_bytes(b.len() as int, 4, b + tail);
    assert(text_bytes(t) + tail =~= int_bytes(b.len() as int, 4) + (b + tail));
    encode_utf8_valid_utf8(t);
    encode_utf8_decode_utf8(t);
    assert((b + tail).take(b.len() as int) =~= b);
    assert((b + tail).skip(b.len() as int) =~= tail);
}

proof fn lemma_parse_entry_bytes(e: EntryView, tail: Seq<u8>)
    requires
        encode_utf8(e.0).len() <= i32::MAX,
        e.1 matches Some(t) ==> encode_utf8(t).len() <= i32::MAX,
    ensures
        parse_entry(entry_bytes(e) + tail) == Ok::<(EntryView, Seq<u8>), Error>((e, tail)),
{
    let vb = match e.1 {
        None => int_bytes(-1, 4),
        Some(v) => text_bytes(v),
    };
    assert(entry_bytes(e) + tail =~= text_bytes(e.0) + (vb + tail));
    lemma_parse_text_bytes(e.0, vb + tail);
    assert(encode_utf8(e.0) + (vb + tail) =~= encode_utf8(e.0) + (vb + tail));
    match e.1 {
        None => {
            lemma_pow256_values();
            lemma_parse_int_bytes(-1, 4, tail);
        },
        Some(v) => {
            lemma_parse_text_bytes(v, tail);
            let b = encode_utf8(v);
            lemma_len_fits(b.len());
        },
    }
}

proof fn lemma_parse_entries_bytes(v: Seq<EntryView>, i: nat, tail: Seq<u8>)
    requires
        distinct_keys(v),
        lengths_fit(v),
        i <= v.len(),
    ensures
        parse_entries(entries_bytes(v.skip(i as int)) + tail, (v.len() - i) as nat, v.take(i as int))
            == Ok::<(Seq<EntryView>, Seq<u8>), Error>((v, tail)),
    decreases v.len() - i,
{
    if i == v.len() {
        assert(v.skip(i as int) =~= Seq::<EntryView>::empty());
        assert(entries_bytes(v.skip(i as int)) + tail =~= tail);
        assert(v.take(i as int) =~= v);
    } else {
        let rest = v.skip(i as int);
        assert(rest[0] == v[i as int]);
        assert(rest.drop_first() =~= v.skip(i + 1 as int));
        let more = entries_bytes(v.skip(i + 1 as int)) + tail;
        assert(entries_bytes(rest) + tail =~= entry_bytes(v[i as int]) + more);
        lemma_parse_entry_bytes(v[i as int], more);
        let acc = v.take(i as int);
        if has_key(acc, v[i as int].0) {
            let j = choose|j: int| 0 <= j < acc.len() && #[trigger] acc[j].0 == v[i as int].0;
            assert(v[j].0 != v[i as int].0);
        }
        assert(insert_entry(acc, v[i as int].0, v[i as int].1) =~= v.take(i + 1 as int));
        lemma_parse_entries_bytes(v, (i + 1) as nat, tail);
    }
}

/// An `hstore` read back from its bytes has the same entries in the same order,
/// wherever every length fits in its 32-bit field.
pub proof fn lemma_parse_hstore_bytes(v: Seq<EntryView>)
    requires
        distinct_keys(v),
        lengths_fit(v),
    ensures
        parse_hstore(hstore_bytes(v)) == Ok::<(Seq<EntryView>, Seq<u8>), Error>(
            (v, Seq::<u8>::empty()),
        ),
{
    lemma_len_fits(v.len());
    lemma_parse_int_bytes(v.len() as int, 4, entries_bytes(v));
    assert(v.skip(0) =~= v);
    assert(v.take(0) =~= Seq::<EntryView>::empty());
    assert(entries_bytes(v) + Seq::<u8>::empty() =~= entries_bytes(v));
    lemma_parse_entries_bytes(v, 0, Seq::<u8>::empty());
}


fn read_text(raw: &mut Reader<'_>, len: i64) -> (res: Result<String, Error>)
    requires
        -0x8000_0000 <= len < 0x8000_0000,
    ensures
        parse_text(old(raw)@, len as int) matches Ok((t, rest)) ==> (res matches Ok(s) && s@ == t
            && final(raw)@ == rest),
        parse_text(old(raw)@, len as int) matches Err(e) ==> res == Err::<String, Error>(e),
{
    if len < 0 {
        return Err(end_of_file_error());
    }
    let b = match raw.read_exact(len as usize) {
        Ok(b) => b,
        Err(e) => return Err(e),
    };
    text_from_bytes(b)
}

fn end_of_file_error() -> (e: Error)
    ensures
        e == end_of_file(),
{
    Error::IoError(crate::error::IoErrorKind::EndOfFile)
}

fn read_entry(raw: &mut Reader<'_>) -> (res: Result<(String, Option<String>), Error>)
    ensures
        parse_entry(old(raw)@) matches Ok((e, rest)) ==> (res matches Ok(x) && entry_view(x) == e
            && final(raw)@ == rest),
        parse_entry(old(raw)@) matches Err(e) ==> res == Err::<(String, Option<String>), Error>(e),
{
    let ghost s = raw@;
    let klen = match read_signed(raw, 4) {
        Ok(n) => n,
        Err(e) => return Err(e),
    };
    proof {
        crate::codec::lemma_parse_int_fits(s, 4);
        lemma_pow256_values();
    }
    let key = match read_text(raw, klen) {
        Ok(k) => k,
        Err(e) => return Err(e),
    };
    let ghost s2 = raw@;
    let vlen = match read_signed(raw, 4) {
        Ok(n) => n,
        Err(e) => return Err(e),
    };
    proof {
        crate::codec::lemma_parse_int_fits(s2, 4);
    }
    if vlen < 0 {
        Ok((key, None))
    } else {
        let val = match read_text(raw, vlen) {
            Ok(v) => v,
            Err(e) => return Err(e),
        };
        Ok((key, Some(val)))
    }
}

/// Reads an `hstore`.
pub fn read_hstore(raw: &mut Reader<'_>) -> (res: Result<Hstore, Error>)
    ensures
        parse_hstore(old(raw)@) matches Ok((v, rest)) ==> (res matches Ok(h) && h@ == v && final(raw)@ == rest),
        parse_hstore(old(raw)@) matches Err(e) ==> res == Err::<Hstore, Error>(e),
{
    let ghost s = raw@;
    let count = match read_signed(raw, 4) {
        Ok(n) => n,
        Err(e) => return Err(e),
    };
    proof {
        crate::codec::lemma_parse_int_fits(s, 4);
        lemma_pow256_values();
    }
    let n: i64 = if count < 0 {
        0
    } else {
        count
    };
    let mut h = Hstore::new();
    let mut i: i64 = 0;
    while i < n
        invariant
            0 <= i <= n < 0x8000_0000,
            s == old(raw)@,
            parse_hstore(s) == parse_entries(raw@, (n - i) as nat, h@),
        decreases n - i,
    {
        let ghost before = raw@;
        let (k, v) = match read_entry(raw) {
            Ok(x) => x,
            Err(e) => return Err(e),
        };
        let ghost hv = h@;
        h.insert(k, v);
        i = i + 1;
        assert(parse_entries(before, (n - i + 1) as nat, hv) == parse_entries(raw@, (n - i) as nat, h@));
    }
    Ok(h)
}

fn write_text(w: &mut Vec<u8>, t: &str)
    ensures
        final(w)@ == old(w)@ + text_bytes(t@),
{
    let b = text_bytes_of(t);
    proof {
        lemma_pow256_values();
    }
    write_signed(w, b.len() as i32 as i64, 4);
    crate::wire::push_bytes(w, b);
    assert(final(w)@ =~= old(w)@ + text_bytes(t@));
}

/// Appends the bytes of an `hstore`.
pub fn write_hstore(w: &mut Vec<u8>, h: &Hstore)
    ensures
        final(w)@ == old(w)@ + hstore_bytes(h@),
{
    let entries = h.entries();
    proof {
        lemma_pow256_values();
    }
    write_signed(w, entries.len() as i32 as i64, 4);
    let ghost start = w@;
    let mut i: usize = 0;
    assert(h@.take(0) =~= Seq::<EntryView>::empty());
    assert(w@ =~= start + entries_bytes(h@.take(0)));
    while i < entries.len()
        invariant
            i <= entries@.len(),
            entries_view(entries@) == h@,
            h@.len() == entries@.len(),
            start == old(w)@ + len_bytes(h@.len()),
            w@ == start + entries_bytes(h@.take(i as int)),
        decreases entries@.len() - i,
    {
        proof {
            lemma_pow256_values();
        }
        let entry = &entries[i];
        write_text(w, entry.0.as_str());
        match &entry.1 {
            Some(t) => write_text(w, t.as_str()),
            None => write_signed(w, -1, 4),
        }
        proof {
            assert(h@[i as int] == entry_view(entries@[i as int]));
            lemma_entries_bytes_push(h@.take(i as int), h@[i as int]);
            assert(h@.take(i + 1 as int) =~= h@.take(i as int).push(h@[i as int]));
            assert(w@ =~= start + entries_bytes(h@.take(i + 1 as int)));
        }
        i = i + 1;
    }
    assert(h@.take(entries@.len() as int) =~= h@);
    assert(w@ =~= old(w)@ + hstore_bytes(h@));
}

} // verus!
