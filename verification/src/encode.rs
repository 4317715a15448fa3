//! Byte encoders used for URLs and query strings.
//!
//! Three percent-encoding flavours appear on the wire: path segments (the
//! set a URL parser leaves intact inside one segment of a special-scheme
//! URL, with `/` and `%` escaped so a segment can carry them), query pairs
//! (`application/x-www-form-urlencoded`, where space becomes `+`), and the
//! conservative unreserved set used for signature values.  Escapes use
//! uppercase hex.  Decimal rendering of integers is here as well.

use vstd::prelude::*;

verus! {

/// The upper-case hex digit for a value below 16.
pub open spec fn spec_hex_upper(v: u8) -> u8
    recommends
        v < 16,
{
    if v < 10 {
        (0x30 + v) as u8
    } else {
        (0x37 + v) as u8
    }
}

/// The three-byte escape `%XX` of a byte, with upper-case hex digits.
pub open spec fn spec_percent_escape(b: u8) -> Seq<u8> {
    seq![0x25u8, spec_hex_upper(b / 16), spec_hex_upper(b % 16)]
}

/// Bytes that stay unchanged inside a percent-encoded path segment:
/// printable ASCII except space, `"`, `#`, `%`, `/`, `<`, `>`, `?`, `\`,
/// `` ` ``, `{` and `}`.
pub open spec fn path_segment_safe(b: u8) -> bool {
    &&& 0x20 < b < 0x7f
    &&& b != 0x22
    &&& b != 0x23
    &&& b != 0x25
    &&& b != 0x2f
    &&& b != 0x3c
    &&& b != 0x3e
    &&& b != 0x3f
    &&& b != 0x5c
    &&& b != 0x60
    &&& b != 0x7b
    &&& b != 0x7d
}

/// Bytes that stay unchanged under form-urlencoding: `*`, `-`, `.`, `_`,
/// digits and ASCII letters.
pub open spec fn form_safe(b: u8) -> bool {
    ||| b == 0x2a
    ||| b == 0x2d
    ||| b == 0x2e
    ||| b == 0x5f
    ||| 0x30 <= b <= 0x39
    ||| 0x41 <= b <= 0x5a
    ||| 0x61 <= b <= 0x7a
}

/// Bytes that stay unchanged under unreserved percent-encoding: `-`, `.`,
/// `_`, `~`, digits and ASCII letters.
pub open spec fn unreserved_safe(b: u8) -> bool {
    ||| b == 0x2d
    ||| b == 0x2e
    ||| b == 0x5f
    ||| b == 0x7e
    ||| 0x30 <= b <= 0x39
    ||| 0x41 <= b <= 0x5a
    ||| 0x61 <= b <= 0x7a
}

/// The percent-encoding of a byte sequence as one path segment.
pub open spec fn spec_path_segment_enc(b: Seq<u8>) -> Seq<u8>
    decreases b.len(),
{
    if b.len() == 0 {
        seq![]
    } else {
        spec_path_segment_enc(b.drop_last()) + (if path_segment_safe(b.last()) {
            seq![b.last()]
        } else {
            spec_percent_escape(b.last())
        })
    }
}

/// The form-urlencoding of a byte sequence: safe bytes kept, space turned
/// into `+`, every other byte escaped.
pub open spec fn spec_form_enc(b: Seq<u8>) -> Seq<u8>
    decreases b.len(),
{
    if b.len() == 0 {
        seq![]
    } else {
        spec_form_enc(b.drop_last()) + (if form_safe(b.last()) {
            seq![b.last()]
        } else if b.last() == 0x20 {
            seq![0x2bu8]
        } else {
            spec_percent_escape(b.last())
        })
    }
}

/// The unreserved percent-encoding of a byte sequence.
pub open spec fn spec_unreserved_enc(b: Seq<u8>) -> Seq<u8>
    decreases b.len(),
{
    if b.len() == 0 {
        seq![]
    } else {
        spec_unreserved_enc(b.drop_last()) + (if unreserved_safe(b.last()) {
            seq![b.last()]
        } else {
            spec_percent_escape(b.last())
        })
    }
}

/// The decimal digits of a natural number, most significant first.
pub open spec fn spec_dec_bytes(n: nat) -> Seq<u8>
    decreases n,
{
    if n < 10 {
        seq![(0x30 + n) as u8]
    } else {
        spec_dec_bytes(n / 10) + seq![(0x30 + n % 10) as u8]
    }
}

/// The decimal rendering of a signed integer: a minus sign before the
/// digits of the magnitude when negative.
pub open spec fn spec_dec_bytes_i64(n: int) -> Seq<u8> {
    if n < 0 {
        seq![0x2du8] + spec_dec_bytes((-n) as nat)
    } else {
        spec_dec_bytes(n as nat)
    }
}

/// Computes the upper-case hex digit of a value below 16.
pub(crate) fn hex_upper(v: u8) -> (r: u8)
    requires
        v < 16,
    ensures
        r == spec_hex_upper(v),
{
    if v < 10 {
        0x30 + v
    } else {
        0x37 + v
    }
}

/// Appends the `%XX` escape of a byte.
pub(crate) fn push_percent_escape(out: &mut Vec<u8>, b: u8)
    ensures
        final(out)@ == old(out)@ + spec_percent_escape(b),
{
    out.push(0x25);
    out.push(hex_upper(b / 16));
    out.push(hex_upper(b % 16));
    assert(final(out)@ =~= old(out)@ + spec_percent_escape(b));
}

/// Tests membership in the path-segment safe set.
fn is_path_segment_safe(b: u8) -> (r: bool)
    ensures
        r == path_segment_safe(b),
{
    0x20 < b && b < 0x7f && b != 0x22 && b != 0x23 && b != 0x25 && b != 0x2f && b != 0x3c && b
        != 0x3e && b != 0x3f && b != 0x5c && b != 0x60 && b != 0x7b && b != 0x7d
}

/// Tests membership in the form-urlencoding safe set.
fn is_form_safe(b: u8) -> (r: bool)
    ensures
        r == form_safe(b),
{
    b == 0x2a || b == 0x2d || b == 0x2e || b == 0x5f || (0x30 <= b && b <= 0x39) || (0x41 <= b
        && b <= 0x5a) || (0x61 <= b && b <= 0x7a)
}

/// Tests membership in the unreserved safe set.
fn is_unreserved_safe(b: u8) -> (r: bool)
    ensures
        r == unreserved_safe(b),
{
    b == 0x2d || b == 0x2e || b == 0x5f || b == 0x7e || (0x30 <= b && b <= 0x39) || (0x41 <= b
        && b <= 0x5a) || (0x61 <= b && b <= 0x7a)
}

/// Appends the path-segment percent-encoding of `bytes`.
pub(crate) fn push_path_segment_enc(out: &mut Vec<u8>, bytes: &[u8])
    ensures
        final(out)@ == old(out)@ + spec_path_segment_enc(bytes@),
{
    let n = bytes.len();
    for i in 0..n
        invariant
            n == bytes@.len(),
            out@ == old(out)@ + spec_path_segment_enc(bytes@.subrange(0, i as int)),
    {
        let b = bytes[i];
        if is_path_segment_safe(b) {
            out.push(b);
        } else {
            push_percent_escape(out, b);
        }
        assert(bytes@.subrange(0, i + 1 as int).drop_last() =~= bytes@.subrange(0, i as int));
        assert(bytes@.subrange(0, i + 1 as int).last() == b);
    }
    assert(bytes@.subrange(0, n as int) =~= bytes@);
}

/// Appends the form-urlencoding of `bytes`.
pub(crate) fn push_form_enc(out: &mut Vec<u8>, bytes: &[u8])
    ensures
        final(out)@ == old(out)@ + spec_form_enc(bytes@),
{
    let n = bytes.len();
    for i in 0..n
        invariant
            n == bytes@.len(),
            out@ == old(out)@ + spec_form_enc(bytes@.subrange(0, i as int)),
    {
        let b = bytes[i];
        if is_form_safe(b) {
            out.push(b);
        } else if b == 0x20 {
            out.push(0x2b);
        } else {
            push_percent_escape(out, b);
        }
        assert(bytes@.subrange(0, i + 1 as int).drop_last() =~= bytes@.subrange(0, i as int));
        assert(bytes@.subrange(0, i + 1 as int).last() == b);
    }
    assert(bytes@.subrange(0, n as int) =~= bytes@);
}

/// Appends the unreserved percent-encoding of `bytes`.
pub(crate) fn push_unreserved_enc(out: &mut Vec<u8>, bytes: &[u8])
    ensures
        final(out)@ == old(out)@ + spec_unreserved_enc(bytes@),
{
    let n = bytes.len();
    for i in 0..n
        invariant
            n == bytes@.len(),
            out@ == old(out)@ + spec_unreserved_enc(bytes@.subrange(0, i as int)),
    {
        let b = bytes[i];
        if is_unreserved_safe(b) {
            out.push(b);
        } else {
            push_percent_escape(out, b);
        }
        assert(bytes@.subrange(0, i + 1 as int).drop_last() =~= bytes@.subrange(0, i as int));
        assert(bytes@.subrange(0, i + 1 as int).last() == b);
    }
    assert(bytes@.subrange(0, n as int) =~= bytes@);
}

/// Appends the decimal digits of `n`.
pub(crate) fn push_dec_u64(out: &mut Vec<u8>, n: u64)
    ensures
        final(out)@ == old(out)@ + spec_dec_bytes(n as nat),
    decreases n,
{
    if n >= 10 {
        push_dec_u64(out, n / 10);
    }
    out.push(0x30 + (n % 10) as u8);
    assert(final(out)@ =~= old(out)@ + spec_dec_bytes(n as nat));
}

/// Appends the decimal rendering of a signed integer.
pub(crate) fn push_dec_i64(out: &mut Vec<u8>, n: i64)
    ensures
        final(out)@ == old(out)@ + spec_dec_bytes_i64(n as int),
{
    if n < 0 {
        out.push(0x2d);
        let m: u64 = (-(n as i128)) as u64;
        push_dec_u64(out, m);
        assert(final(out)@ =~= old(out)@ + spec_dec_bytes_i64(n as int));
    } else {
        push_dec_u64(out, n as u64);
    }
}

/// Every byte of a path-segment encoding is ASCII.
pub proof fn lemma_path_segment_enc_ascii(b: Seq<u8>)
    ensures
        crate::text::all_ascii_bytes(spec_path_segment_enc(b)),
    decreases b.len(),
{
    if b.len() > 0 {
        lemma_path_segment_enc_ascii(b.drop_last());
    }
}

/// Every byte of a form-urlencoding is ASCII.
pub proof fn lemma_form_enc_ascii(b: Seq<u8>)
    ensures
        crate::text::all_ascii_bytes(spec_form_enc(b)),
    decreases b.len(),
{
    if b.len() > 0 {
        lemma_form_enc_ascii(b.drop_last());
    }
}

/// Every byte of an unreserved encoding is ASCII.
pub proof fn lemma_unreserved_enc_ascii(b: Seq<u8>)
    ensures
        crate::text::all_ascii_bytes(spec_unreserved_enc(b)),
    decreases b.len(),
{
    if b.len() > 0 {
        lemma_unreserved_enc_ascii(b.drop_last());
    }
}

/// Every byte of a decimal rendering is ASCII.
pub proof fn lemma_dec_bytes_ascii(n: nat)
    ensures
        crate::text::all_ascii_bytes(spec_dec_bytes(n)),
    decreases n,
{
    if n >= 10 {
        lemma_dec_bytes_ascii(n / 10);
    }
}


/// The value of an upper-case hex digit.
pub open spec fn spec_hex_val(d: u8) -> u8 {
    if 0x30 <= d <= 0x39 {
        (d - 0x30) as u8
    } else if 0x41 <= d <= 0x46 {
        (d - 0x37) as u8
    } else {
        0u8
    }
}

/// The form-urlencoded decoding of a byte sequence: `+` turns back into a
/// space, `%XX` into the escaped byte, and everything else stands as it
/// is.
pub open spec fn spec_form_decode(b: Seq<u8>) -> Seq<u8>
    decreases b.len(),
{
    if b.len() == 0 {
        seq![]
    } else if b[0] == 0x2b {
        seq![0x20u8] + spec_form_decode(b.drop_first())
    } else if b[0] == 0x25 && b.len() >= 3 {
        seq![((spec_hex_val(b[1]) * 16 + spec_hex_val(b[2])) as u8)] + spec_form_decode(
            b.subrange(3, b.len() as int),
        )
    } else {
        seq![b[0]] + spec_form_decode(b.drop_first())
    }
}

/// Form-urlencoding distributes over concatenation.
pub proof fn lemma_form_enc_concat(a: Seq<u8>, b: Seq<u8>)
    ensures
        spec_form_enc(a + b) == spec_form_enc(a) + spec_form_enc(b),
    decreases b.len(),
{
    if b.len() == 0 {
        assert(a + b =~= a);
        assert(spec_form_enc(a) + spec_form_enc(b) =~= spec_form_enc(a));
    } else {
        lemma_form_enc_concat(a, b.drop_last());
        assert((a + b).drop_last() =~= a + b.drop_last());
        assert((a + b).last() == b.last());
        assert(spec_form_enc(a + b) =~= spec_form_enc(a) + spec_form_enc(b));
    }
}

/// Decoding a form-urlencoding gives back the bytes that were encoded.
/// Together
/// with the exact address contracts this says that re-parsing a built
/// webhook URL recovers the token value that went in.
pub proof fn lemma_form_enc_roundtrip(b: Seq<u8>)
    ensures
        spec_form_decode(spec_form_enc(b)) == b,
    decreases b.len(),
{
    if b.len() == 0 {
    } else {
        let b0 = b[0];
        let rest = b.drop_first();
        assert(b =~= seq![b0] + rest);
        lemma_form_enc_concat(seq![b0], rest);
        assert(seq![b0].drop_last() =~= Seq::<u8>::empty());
        assert(spec_form_enc(Seq::<u8>::empty()) == Seq::<u8>::empty());
        assert(seq![b0].len() == 1);
        assert(seq![b0].last() == b0);
        let piece = if form_safe(b0) {
            seq![b0]
        } else if b0 == 0x20 {
            seq![0x2bu8]
        } else {
            spec_percent_escape(b0)
        };
        assert(spec_form_enc(seq![b0]) == spec_form_enc(seq![b0].drop_last()) + (
        if form_safe(b0) {
            seq![b0]
        } else if b0 == 0x20 {
            seq![0x2bu8]
        } else {
            spec_percent_escape(b0)
        }));
        assert(spec_form_enc(seq![b0]) =~= piece);
        lemma_form_enc_roundtrip(rest);
        let enc = spec_form_enc(b);
        assert(enc =~= piece + spec_form_enc(rest));
        if form_safe(b0) {
            assert(enc[0] == b0 && b0 != 0x2b && b0 != 0x25);
            assert(enc.drop_first() =~= spec_form_enc(rest));
            assert(spec_form_decode(enc) =~= b);
        } else if b0 == 0x20 {
            assert(enc[0] == 0x2b);
            assert(enc.drop_first() =~= spec_form_enc(rest));
            assert(spec_form_decode(enc) =~= b);
        } else {
            assert(enc[0] == 0x25 && enc.len() >= 3);
            assert(enc[1] == spec_hex_upper(b0 / 16));
            assert(enc[2] == spec_hex_upper(b0 % 16));
            assert(spec_hex_val(spec_hex_upper(b0 / 16)) == b0 / 16);
            assert(spec_hex_val(spec_hex_upper(b0 % 16)) == b0 % 16);
            assert((spec_hex_val(enc[1]) * 16 + spec_hex_val(enc[2])) as u8 == b0);
            assert(enc.subrange(3, enc.len() as int) =~= spec_form_enc(rest));
            assert(spec_form_decode(enc) =~= b);
        }
    }
}

/// A form-urlencoding never contains a query separator: no `&`, `=` or
/// `#` byte appears in it, so the encoded value sits whole between its
/// delimiters when the query string is split again.
pub proof fn lemma_form_enc_no_separators(b: Seq<u8>)
    ensures
        forall|i: int|
            0 <= i < spec_form_enc(b).len() ==> #[trigger] spec_form_enc(b)[i] != 0x26
                && spec_form_enc(b)[i] != 0x3d && spec_form_enc(b)[i] != 0x23,
    decreases b.len(),
{
    if b.len() > 0 {
        lemma_form_enc_no_separators(b.drop_last());
        let prefix = spec_form_enc(b.drop_last());
        let piece = if form_safe(b.last()) {
            seq![b.last()]
        } else if b.last() == 0x20 {
            seq![0x2bu8]
        } else {
            spec_percent_escape(b.last())
        };
        assert(spec_form_enc(b) == prefix + piece);
        assert forall|i: int|
            0 <= i < spec_form_enc(b).len() implies #[trigger] spec_form_enc(b)[i] != 0x26
            && spec_form_enc(b)[i] != 0x3d && spec_form_enc(b)[i] != 0x23 by {
            if i < prefix.len() {
                assert(spec_form_enc(b)[i] == prefix[i]);
            } else {
                assert(spec_form_enc(b)[i] == piece[i - prefix.len()]);
            }
        }
    }
}

} // verus!
