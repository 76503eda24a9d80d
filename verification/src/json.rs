//! JSON values, parsed and printed by `rustc_serialize`.
use vstd::prelude::*;
use vstd::utf8::valid_utf8;
use rustc_serialize::json::{Json, ParserError};

verus! {

#[verifier::external_type_specification]
#[verifier::external_body]
pub struct ExJson(Json);

#[verifier::external_type_specification]
#[verifier::external_body]
pub struct ExParserError(ParserError);

/// The deepest nesting of arrays and objects that is read. The parser of
/// `rustc_serialize` recurses once per level and its frames are large: on a
/// thread with a 2 MiB stack it runs out somewhat below 3000 levels, so deeper
/// text is not handed to it.
pub const MAX_JSON_DEPTH: usize = 2048;

/// The lexer state after some bytes of JSON text: open arrays and objects,
/// inside a string, just after a backslash in a string, the most arrays and
/// objects that were open at once, where an exponent stands (0: none, 1: just
/// after `e` or `E`, 2: after its sign, 3: in its digits), the value of the
/// exponent digits so far (cut to one above `usize::MAX`), and whether some
/// exponent was above `usize::MAX`.
pub type JsonScan = (nat, bool, bool, nat, nat, nat, bool);

/// One above the largest `usize`.
pub open spec fn exponent_cap() -> nat {
    usize::MAX as nat + 1
}

/// The lexer state after one more byte.
pub open spec fn json_scan_step(st: JsonScan, c: u8) -> JsonScan {
    let (depth, in_str, esc, most, mode, acc, big) = st;
    if in_str {
        if esc {
            (depth, true, false, most, 0, 0, big)
        } else if c == 0x5c {
            (depth, true, true, most, 0, 0, big)
        } else if c == 0x22 {
            (depth, false, false, most, 0, 0, big)
        } else {
            (depth, true, false, most, 0, 0, big)
        }
    } else if c == 0x22 {
        (depth, true, false, most, 0, 0, big)
    } else if c == 0x5b || c == 0x7b {
        let d = depth + 1;
        (d, false, false, if d > most { d } else { most }, 0, 0, big)
    } else if c == 0x5d || c == 0x7d {
        (if depth > 0 { (depth - 1) as nat } else { 0 }, false, false, most, 0, 0, big)
    } else if c == 0x65 || c == 0x45 {
        (depth, false, false, most, 1, 0, big)
    } else if (c == 0x2b || c == 0x2d) && mode == 1 {
        (depth, false, false, most, 2, 0, big)
    } else if 0x30 <= c <= 0x39 && mode >= 1 {
        let v = acc * 10 + (c - 0x30) as nat;
        (
            depth,
            false,
            false,
            most,
            3,
            if v > usize::MAX { exponent_cap() } else { v },
            big || v > usize::MAX,
        )
    } else {
        (depth, false, false, most, 0, 0, big)
    }
}

/// The lexer state after the bytes `s`.
pub open spec fn json_scan(s: Seq<u8>) -> JsonScan
    decreases s.len(),
{
    if s.len() == 0 {
        (0, false, false, 0, 0, 0, false)
    } else {
        json_scan_step(json_scan(s.drop_last()), s.last())
    }
}

/// How deeply arrays and objects nest in the JSON text `s`; brackets inside
/// strings do not count.
pub open spec fn json_nesting(s: Seq<u8>) -> nat {
    json_scan(s).3
}

/// Whether the JSON text `s` holds, outside strings, an exponent whose digits
/// make a number above `usize::MAX`: the parser of `rustc_serialize` builds the
/// exponent in a `usize` and overflows there.
pub open spec fn json_exponent_overflow(s: Seq<u8>) -> bool {
    json_scan(s).6
}

/// How deeply arrays and objects nest in the JSON text `b`, and whether it has
/// an exponent above `usize::MAX`.
pub fn json_scan_of(b: &[u8]) -> (res: (usize, bool))
    ensures
        res.0 == json_nesting(b@),
        res.1 == json_exponent_overflow(b@),
{
    let mut depth: usize = 0;
    let mut in_str = false;
    let mut esc = false;
    let mut most: usize = 0;
    let mut mode: u8 = 0;
    let mut acc: u128 = 0;
    let mut big = false;
    let cap: u128 = usize::MAX as u128 + 1;
    let mut i: usize = 0;
    while i < b.len()
        invariant
            i <= b@.len(),
            depth <= i,
            most <= i,
            cap == exponent_cap(),
            acc <= cap,
            depth == json_scan(b@.take(i as int)).0,
            in_str == json_scan(b@.take(i as int)).1,
            esc == json_scan(b@.take(i as int)).2,
            most == json_scan(b@.take(i as int)).3,
            mode == json_scan(b@.take(i as int)).4,
            acc == json_scan(b@.take(i as int)).5,
            big == json_scan(b@.take(i as int)).6,
            !in_str ==> !esc,
        decreases b@.len() - i,
    {
        let c = b[i];
        proof {
            let t = b@.take(i + 1);
            assert(t.drop_last() =~= b@.take(i as int));
            assert(t.last() == c);
            assert(json_scan(t) == json_scan_step(json_scan(b@.take(i as int)), c));
        }
        if in_str {
            if esc {
                esc = false;
            } else if c == 0x5c {
                esc = true;
            } else if c == 0x22 {
                in_str = false;
            }
            mode = 0;
            acc = 0;
        } else if c == 0x22 {
            in_str = true;
            mode = 0;
            acc = 0;
        } else if c == 0x5b || c == 0x7b {
            depth = depth + 1;
            if depth > most {
                most = depth;
            }
            mode = 0;
            acc = 0;
        } else if c == 0x5d || c == 0x7d {
            if depth > 0 {
                depth = depth - 1;
            }
            mode = 0;
            acc = 0;
        } else if c == 0x65 || c == 0x45 {
            mode = 1;
            acc = 0;
        } else if (c == 0x2b || c == 0x2d) && mode == 1 {
            mode = 2;
            acc = 0;
        } else if 0x30 <= c && c <= 0x39 && mode >= 1 {
            let v: u128 = acc * 10 + (c - 0x30) as u128;
            if v > usize::MAX as u128 {
                acc = cap;
                big = true;
            } else {
                acc = v;
            }
            mode = 3;
        } else {
            mode = 0;
            acc = 0;
        }
        i = i + 1;
    }
    assert(b@.take(b@.len() as int) =~= b@);
    (most, big)
}

/// The rest of a JSON string after its opening quote: characters, escapes
/// (a backslash and the byte after it), and the closing quote.
pub enum StrShape {
    Close,
    Char(u8, Box<StrShape>),
    Escape(u8, Box<StrShape>),
}

/// JSON text as nested groups: a byte that is no bracket, brace or quote, a
/// quoted string, or a group in brackets (`false`) or braces (`true`); each
/// followed by the rest of the text.
pub enum TextShape {
    End,
    Byte(u8, Box<TextShape>),
    Quoted(Box<StrShape>, Box<TextShape>),
    Group(bool, Box<TextShape>, Box<TextShape>),
}

/// The bytes of the rest of a string.
pub open spec fn str_text(s: StrShape) -> Seq<u8>
    decreases s,
{
    match s {
        StrShape::Close => seq![0x22u8],
        StrShape::Char(b, k) => seq![b] + str_text(*k),
        StrShape::Escape(b, k) => seq![0x5cu8, b] + str_text(*k),
    }
}

/// A character of a string is neither its quote nor a backslash.
pub open spec fn str_wf(s: StrShape) -> bool
    decreases s,
{
    match s {
        StrShape::Close => true,
        StrShape::Char(b, k) => b != 0x22 && b != 0x5c && str_wf(*k),
        StrShape::Escape(_, k) => str_wf(*k),
    }
}

/// The opening byte of a group: `{` or `[`.
pub open spec fn group_open(brace: bool) -> u8 {
    if brace { 0x7b } else { 0x5b }
}

/// The closing byte of a group: `}` or `]`.
pub open spec fn group_close(brace: bool) -> u8 {
    if brace { 0x7d } else { 0x5d }
}

/// The bytes of a text.
pub open spec fn shape_text(t: TextShape) -> Seq<u8>
    decreases t,
{
    match t {
        TextShape::End => Seq::empty(),
        TextShape::Byte(b, r) => seq![b] + shape_text(*r),
        TextShape::Quoted(q, r) => seq![0x22u8] + str_text(*q) + shape_text(*r),
        TextShape::Group(brace, inner, r) => seq![group_open(brace)] + shape_text(*inner) + seq![
            group_close(brace),
        ] + shape_text(*r),
    }
}

/// A plain byte is no bracket, brace or quote, and strings are well formed.
pub open spec fn shape_wf(t: TextShape) -> bool
    decreases t,
{
    match t {
        TextShape::End => true,
        TextShape::Byte(b, r) => b != 0x22 && b != 0x5b && b != 0x5d && b != 0x7b && b != 0x7d
            && shape_wf(*r),
        TextShape::Quoted(q, r) => str_wf(*q) && shape_wf(*r),
        TextShape::Group(_, inner, r) => shape_wf(*inner) && shape_wf(*r),
    }
}

/// The most groups that enclose one place of a text.
pub open spec fn shape_depth(t: TextShape) -> nat
    decreases t,
{
    match t {
        TextShape::End => 0,
        TextShape::Byte(_, r) => shape_depth(*r),
        TextShape::Quoted(_, r) => shape_depth(*r),
        TextShape::Group(_, inner, r) => {
            let d = 1 + shape_depth(*inner);
            let e = shape_depth(*r);
            if d > e { d } else { e }
        },
    }
}

/// The lexer state after the bytes `s`, starting from `st`.
pub open spec fn json_scan_from(st: JsonScan, s: Seq<u8>) -> JsonScan
    decreases s.len(),
{
    if s.len() == 0 {
        st
    } else {
        json_scan_step(json_scan_from(st, s.drop_last()), s.last())
    }
}

proof fn lemma_scan_from_concat(st: JsonScan, a: Seq<u8>, b: Seq<u8>)
    ensures
        json_scan_from(st, a + b) == json_scan_from(json_scan_from(st, a), b),
    decreases b.len(),
{
    if b.len() == 0 {
        assert(a + b =~= a);
    } else {
        lemma_scan_from_concat(st, a, b.drop_last());
        assert((a + b).drop_last() =~= a + b.drop_last());
        assert((a + b).last() == b.last());
    }
}

proof fn lemma_scan_is_from(s: Seq<u8>)
    ensures
        json_scan(s) == json_scan_from((0, false, false, 0, 0, 0, false), s),
    decreases s.len(),
{
    if s.len() > 0 {
        lemma_scan_is_from(s.drop_last());
    }
}

proof fn lemma_scan_one(st: JsonScan, c: u8)
    ensures
        json_scan_from(st, seq![c]) == json_scan_step(st, c),
{
    let s = seq![c];
    assert(s.drop_last() =~= Seq::<u8>::empty());
    assert(s.last() == c);
    assert(json_scan_from(st, s.drop_last()) == st);
    assert(json_scan_from(st, s) == json_scan_step(json_scan_from(st, s.drop_last()), s.last()));
}

proof fn lemma_scan_str(st: JsonScan, q: StrShape)
    requires
        str_wf(q),
        st.1,
        !st.2,
    ensures
        json_scan_from(st, str_text(q)).0 == st.0,
        json_scan_from(st, str_text(q)).3 == st.3,
        !json_scan_from(st, str_text(q)).1,
        !json_scan_from(st, str_text(q)).2,
    decreases q,
{
    match q {
        StrShape::Close => {
            lemma_scan_one(st, 0x22);
        },
        StrShape::Char(b, k) => {
            lemma_scan_from_concat(st, seq![b], str_text(*k));
            lemma_scan_one(st, b);
            lemma_scan_str(json_scan_step(st, b), *k);
        },
        StrShape::Escape(b, k) => {
            assert(seq![0x5cu8, b] =~= seq![0x5cu8] + seq![b]);
            lemma_scan_from_concat(st, seq![0x5cu8, b], str_text(*k));
            lemma_scan_from_concat(st, seq![0x5cu8], seq![b]);
            lemma_scan_one(st, 0x5c);
            let st1 = json_scan_step(st, 0x5c);
            lemma_scan_one(st1, b);
            lemma_scan_str(json_scan_step(st1, b), *k);
        },
    }
}

/// Lexing a text from outside any string keeps the open groups, ends outside
/// any string, and raises the most open groups to the groups open plus its depth.
pub proof fn lemma_scan_shape(st: JsonScan, t: TextShape)
    requires
        shape_wf(t),
        !st.1,
        !st.2,
        st.3 >= st.0,
    ensures
        json_scan_from(st, shape_text(t)).0 == st.0,
        !json_scan_from(st, shape_text(t)).1,
        !json_scan_from(st, shape_text(t)).2,
        json_scan_from(st, shape_text(t)).3 == if st.3 >= st.0 + shape_depth(t) {
            st.3
        } else {
            st.0 + shape_depth(t)
        },
    decreases t,
{
    match t {
        TextShape::End => {},
        TextShape::Byte(b, r) => {
            lemma_scan_from_concat(st, seq![b], shape_text(*r));
            lemma_scan_one(st, b);
            lemma_scan_shape(json_scan_step(st, b), *r);
        },
        TextShape::Quoted(q, r) => {
            let a = seq![0x22u8];
            lemma_scan_from_concat(st, a + str_text(*q), shape_text(*r));
            lemma_scan_from_concat(st, a, str_text(*q));
            lemma_scan_one(st, 0x22);
            let st1 = json_scan_step(st, 0x22);
            lemma_scan_str(st1, *q);
            lemma_scan_shape(json_scan_from(st1, str_text(*q)), *r);
        },
        TextShape::Group(brace, inner, r) => {
            let o = seq![group_open(brace)];
            let c = seq![group_close(brace)];
            let ti = shape_text(*inner);
            lemma_scan_from_concat(st, o + ti + c, shape_text(*r));
            lemma_scan_from_concat(st, o + ti, c);
            lemma_scan_from_concat(st, o, ti);
            lemma_scan_one(st, group_open(brace));
            let st1 = json_scan_step(st, group_open(brace));
            lemma_scan_shape(st1, *inner);
            let st2 = json_scan_from(st1, ti);
            lemma_scan_one(st2, group_close(brace));
            let st3 = json_scan_step(st2, group_close(brace));
            lemma_scan_shape(st3, *r);
        },
    }
}

/// The nesting that the lexer measures is the depth of the text's groups.
pub proof fn lemma_nesting_of_shape(t: TextShape)
    requires
        shape_wf(t),
    ensures
        json_nesting(shape_text(t)) == shape_depth(t),
{
    lemma_scan_is_from(shape_text(t));
    lemma_scan_shape((0, false, false, 0, 0, 0, false), t);
}

/// Whether `rustc_serialize` reads the bytes `b` as one JSON document.
pub uninterp spec fn json_accepts(b: Seq<u8>) -> bool;

/// The JSON document that `rustc_serialize` reads from the bytes `b`.
pub uninterp spec fn json_parsed(b: Seq<u8>) -> Json;

/// The compact text that `rustc_serialize` prints for a JSON document.
pub uninterp spec fn json_display(j: Json) -> Seq<char>;

/// `Json::from_reader` of `rustc_serialize`, reading all of `bytes`. Whether it
/// succeeds, and the document it builds, are functions of the bytes alone; it
/// succeeds only on UTF-8 (its source checks that first). It panics on an
/// exponent above `usize::MAX` and its builder recurses once per nesting level,
/// so it is called only on text without the one and nested no deeper than the
/// limit.
#[verifier::external_body]
pub(crate) fn json_from_bytes(bytes: &[u8]) -> (res: Result<Json, ParserError>)
    requires
        json_nesting(bytes@) <= MAX_JSON_DEPTH,
        !json_exponent_overflow(bytes@),
    ensures
        res is Ok <==> json_accepts(bytes@),
        res is Ok ==> valid_utf8(bytes@),
        res matches Ok(j) ==> j == json_parsed(bytes@),
{
    let mut r: &[u8] = bytes;
    Json::from_reader(&mut r)
}

/// The `Display` text of a `Json` (`to_string`), which prints it compactly.
/// Its encoder recurses once per nesting level, so a document nested deeply
/// enough to exhaust the thread's stack is not returned from; that bound is
/// the machine's, not one this function sets.
#[verifier::external_body]
pub(crate) fn json_text(j: &Json) -> (res: String)
    ensures
        res@ == json_display(*j),
{
    j.to_string()
}

} // verus!
