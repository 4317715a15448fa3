//! JSON text assembly for request bodies.
//!
//! The library writes its request payloads itself, so their bytes are
//! pinned down exactly: strings are escaped the way a JSON writer does it
//! (`\"`, `\\`, the short control escapes, `\u00XX` with lower-case hex
//! for the rest of the control range, everything else copied through),
//! and objects are assembled field by field.

use vstd::prelude::*;
use vstd::utf8::encode_utf8;

verus! {

/// The lower-case hex digit for a value below 16.
pub open spec fn spec_hex_lower(v: u8) -> u8
    recommends
        v < 16,
{
    if v < 10 {
        (0x30 + v) as u8
    } else {
        (0x57 + v) as u8
    }
}

/// The escape of one byte inside a JSON string: quote and backslash get a
/// backslash escape, the named control characters their short escapes, the
/// remaining control range `\u00XX`, and every other byte stands as it is.
pub open spec fn spec_json_esc_byte(b: u8) -> Seq<u8> {
    if b == 0x22 {
        seq![0x5cu8, 0x22u8]
    } else if b == 0x5c {
        seq![0x5cu8, 0x5cu8]
    } else if b == 0x08 {
        seq![0x5cu8, 0x62u8]
    } else if b == 0x09 {
        seq![0x5cu8, 0x74u8]
    } else if b == 0x0a {
        seq![0x5cu8, 0x6eu8]
    } else if b == 0x0c {
        seq![0x5cu8, 0x66u8]
    } else if b == 0x0d {
        seq![0x5cu8, 0x72u8]
    } else if b < 0x20 {
        seq![0x5cu8, 0x75u8, 0x30u8, 0x30u8, spec_hex_lower(b / 16), spec_hex_lower(b % 16)]
    } else {
        seq![b]
    }
}

/// The JSON escape of a byte sequence.
pub open spec fn spec_json_escape(b: Seq<u8>) -> Seq<u8>
    decreases b.len(),
{
    if b.len() == 0 {
        seq![]
    } else {
        spec_json_escape(b.drop_last()) + spec_json_esc_byte(b.last())
    }
}

/// The bytes of a JSON string literal holding the given bytes.
pub open spec fn spec_json_quoted_bytes(b: Seq<u8>) -> Seq<u8> {
    seq![0x22u8] + spec_json_escape(b) + seq![0x22u8]
}

/// The bytes of a JSON string literal holding the given text.
pub open spec fn spec_json_str(s: Seq<char>) -> Seq<u8> {
    spec_json_quoted_bytes(encode_utf8(s))
}

/// The members of a JSON object or array, joined with commas.
pub open spec fn spec_json_join(ms: Seq<Seq<u8>>) -> Seq<u8>
    decreases ms.len(),
{
    if ms.len() == 0 {
        seq![]
    } else if ms.len() == 1 {
        ms[0]
    } else {
        spec_json_join(ms.drop_last()) + seq![0x2cu8] + ms.last()
    }
}

/// The bytes of a JSON object with the given members.
pub open spec fn spec_json_object(ms: Seq<Seq<u8>>) -> Seq<u8> {
    seq![0x7bu8] + spec_json_join(ms) + seq![0x7du8]
}

/// The bytes of a JSON array with the given elements.
pub open spec fn spec_json_array(ms: Seq<Seq<u8>>) -> Seq<u8> {
    seq![0x5bu8] + spec_json_join(ms) + seq![0x5du8]
}

/// The bytes of one object member: the quoted key, a colon, the value.
pub open spec fn spec_json_member(key: Seq<char>, value: Seq<u8>) -> Seq<u8> {
    spec_json_str(key) + seq![0x3au8] + value
}

/// The bytes of a JSON boolean.
pub open spec fn spec_json_bool(b: bool) -> Seq<u8> {
    if b {
        seq![0x74u8, 0x72u8, 0x75u8, 0x65u8]
    } else {
        seq![0x66u8, 0x61u8, 0x6cu8, 0x73u8, 0x65u8]
    }
}

/// Computes the lower-case hex digit of a value below 16.
fn hex_lower(v: u8) -> (r: u8)
    requires
        v < 16,
    ensures
        r == spec_hex_lower(v),
{
    if v < 10 {
        0x30 + v
    } else {
        0x57 + v
    }
}

/// Appends the JSON escape of `bytes`.
pub(crate) fn push_json_escaped(out: &mut Vec<u8>, bytes: &[u8])
    ensures
        final(out)@ == old(out)@ + spec_json_escape(bytes@),
{
    let n = bytes.len();
    for i in 0..n
        invariant
            n == bytes@.len(),
            out@ == old(out)@ + spec_json_escape(bytes@.subrange(0, i as int)),
    {
        let b = bytes[i];
        if b == 0x22 {
            out.push(0x5c);
            out.push(0x22);
        } else if b == 0x5c {
            out.push(0x5c);
            out.push(0x5c);
        } else if b == 0x08 {
            out.push(0x5c);
            out.push(0x62);
        } else if b == 0x09 {
            out.push(0x5c);
            out.push(0x74);
        } else if b == 0x0a {
            out.push(0x5c);
            out.push(0x6e);
        } else if b == 0x0c {
            out.push(0x5c);
            out.push(0x66);
        } else if b == 0x0d {
            out.push(0x5c);
            out.push(0x72);
        } else if b < 0x20 {
            out.push(0x5c);
            out.push(0x75);
            out.push(0x30);
            out.push(0x30);
            out.push(hex_lower(b / 16));
            out.push(hex_lower(b % 16));
        } else {
            out.push(b);
        }
        proof {
            assert(bytes@.subrange(0, i + 1 as int).drop_last() =~= bytes@.subrange(
                0,
                i as int,
            ));
            assert(bytes@.subrange(0, i + 1 as int).last() == b);
            assert(out@ =~= old(out)@ + spec_json_escape(bytes@.subrange(0, i + 1 as int)));
        }
    }
    assert(bytes@.subrange(0, n as int) =~= bytes@);
}

/// Appends a JSON string literal holding the given bytes.
pub(crate) fn push_json_quoted_bytes(out: &mut Vec<u8>, bytes: &[u8])
    ensures
        final(out)@ == old(out)@ + spec_json_quoted_bytes(bytes@),
{
    out.push(0x22);
    push_json_escaped(out, bytes);
    out.push(0x22);
    assert(final(out)@ =~= old(out)@ + spec_json_quoted_bytes(bytes@));
}

/// Appends a JSON string literal holding the given text.
pub(crate) fn push_json_str(out: &mut Vec<u8>, s: &str)
    ensures
        final(out)@ == old(out)@ + spec_json_str(s@),
{
    push_json_quoted_bytes(out, s.as_bytes());
}

/// Appends the members, joined with commas.
pub(crate) fn push_json_join(out: &mut Vec<u8>, members: &Vec<Vec<u8>>)
    ensures
        final(out)@ == old(out)@ + spec_json_join(members.deep_view()),
{
    let n = members.len();
    for i in 0..n
        invariant
            n == members@.len(),
            out@ == old(out)@ + spec_json_join(members.deep_view().subrange(0, i as int)),
    {
        if i > 0 {
            out.push(0x2c);
        }
        crate::text::push_all(out, members[i].as_slice());
        proof {
            let ms = members.deep_view();
            assert(ms.subrange(0, i + 1 as int).drop_last() =~= ms.subrange(0, i as int));
            assert(ms.subrange(0, i + 1 as int).last() == members@[i as int]@);
            if i == 0 {
                assert(ms.subrange(0, 1).len() == 1);
                assert(out@ =~= old(out)@ + spec_json_join(ms.subrange(0, 1)));
            } else {
                assert(out@ =~= old(out)@ + spec_json_join(ms.subrange(0, i + 1 as int)));
            }
        }
    }
    assert(members.deep_view().subrange(0, n as int) =~= members.deep_view());
}

/// Appends a JSON object with the given members.
pub(crate) fn push_json_object(out: &mut Vec<u8>, members: &Vec<Vec<u8>>)
    ensures
        final(out)@ == old(out)@ + spec_json_object(members.deep_view()),
{
    out.push(0x7b);
    push_json_join(out, members);
    out.push(0x7d);
    assert(final(out)@ =~= old(out)@ + spec_json_object(members.deep_view()));
}

/// Appends a JSON array with the given elements.
pub(crate) fn push_json_array(out: &mut Vec<u8>, members: &Vec<Vec<u8>>)
    ensures
        final(out)@ == old(out)@ + spec_json_array(members.deep_view()),
{
    out.push(0x5b);
    push_json_join(out, members);
    out.push(0x5d);
    assert(final(out)@ =~= old(out)@ + spec_json_array(members.deep_view()));
}

/// Builds one object member from a key and rendered value bytes.
pub(crate) fn json_member(key: &str, value: Vec<u8>) -> (r: Vec<u8>)
    ensures
        r@ == spec_json_member(key@, value@),
{
    let mut m: Vec<u8> = Vec::new();
    push_json_str(&mut m, key);
    m.push(0x3a);
    crate::text::push_all(&mut m, value.as_slice());
    proof {
        assert(m@ =~= spec_json_member(key@, value@));
    }
    m
}

/// Builds the rendered bytes of a JSON string value.
pub(crate) fn json_str_value(s: &str) -> (r: Vec<u8>)
    ensures
        r@ == spec_json_str(s@),
{
    let mut m: Vec<u8> = Vec::new();
    push_json_str(&mut m, s);
    m
}

/// Builds the rendered bytes of a JSON boolean.
pub(crate) fn json_bool_value(b: bool) -> (r: Vec<u8>)
    ensures
        r@ == spec_json_bool(b),
{
    let mut m: Vec<u8> = Vec::new();
    if b {
        m.push(0x74);
        m.push(0x72);
        m.push(0x75);
        m.push(0x65);
    } else {
        m.push(0x66);
        m.push(0x61);
        m.push(0x6c);
        m.push(0x73);
        m.push(0x65);
    }
    proof {
        assert(m@ =~= spec_json_bool(b));
    }
    m
}

/// Builds the rendered bytes of a JSON integer.
pub(crate) fn json_i64_value(n: i64) -> (r: Vec<u8>)
    ensures
        r@ == crate::encode::spec_dec_bytes_i64(n as int),
{
    let mut m: Vec<u8> = Vec::new();
    crate::encode::push_dec_i64(&mut m, n);
    m
}

} // verus!
