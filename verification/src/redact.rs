//! Redaction and truncation of body snippets retained in errors.
//!
//! Truncation cuts a body at the largest character boundary within the byte
//! budget and appends a marker.  Redaction scans, case-insensitively, for
//! each sensitive key name in a fixed list and overwrites the window of up
//! to 32 bytes after the first occurrence of each key with a redaction
//! marker; window edges are kept on character boundaries.  Both are exact,
//! byte-level specifications; redaction is a textual best-effort mask, not
//! a guarantee that nothing sensitive survives elsewhere in the text.

use vstd::prelude::*;
use vstd::utf8::{encode_utf8, encode_utf8_valid_utf8, is_char_boundary, valid_utf8};

use vstd::string::StringSliceAdditionalSpecFns;

verus! {

/// The truncation marker appended to cut bodies.
pub open spec fn spec_truncate_marker() -> Seq<char> {
    ("...(truncated)")@
}

/// The redaction marker written over a masked window.
pub open spec fn spec_redaction_marker() -> Seq<char> {
    ("=<redacted>")@
}

/// The largest character boundary at or below `k`.
pub open spec fn spec_boundary_floor(bytes: Seq<u8>, k: int) -> int
    recommends
        valid_utf8(bytes),
        0 <= k <= bytes.len(),
    decreases k,
{
    if k <= 0 {
        0
    } else if is_char_boundary(bytes, k) {
        k
    } else {
        spec_boundary_floor(bytes, k - 1)
    }
}

/// The bytes a truncated snippet owes: the body itself when it fits the
/// budget, else the largest prefix that fits and ends on a character
/// boundary, with the truncation marker appended.
pub open spec fn spec_truncate_snippet(b: Seq<u8>, max_bytes: nat) -> Seq<u8>
    recommends
        valid_utf8(b),
{
    if b.len() <= max_bytes {
        b
    } else {
        b.subrange(0, spec_boundary_floor(b, max_bytes as int)) + encode_utf8(
            spec_truncate_marker(),
        )
    }
}

/// The ASCII-lowercase image of a byte.
pub open spec fn spec_lower_byte(b: u8) -> u8 {
    if 0x41 <= b <= 0x5a {
        (b + 0x20) as u8
    } else {
        b
    }
}

/// True when the key matches the text at offset `i`, comparing the text
/// ASCII-lowercased.
pub open spec fn spec_match_at(text: Seq<u8>, key: Seq<u8>, i: int) -> bool {
    &&& 0 <= i
    &&& i + key.len() <= text.len()
    &&& forall|j: int| 0 <= j < key.len() ==> spec_lower_byte(text[i + j]) == key[j]
}

/// The first offset at or after `i` where the key matches, if any.
pub open spec fn spec_find_from(text: Seq<u8>, key: Seq<u8>, i: int) -> Option<int>
    recommends
        0 <= i,
    decreases text.len() - i,
{
    if i < 0 || i + key.len() > text.len() {
        None
    } else if spec_match_at(text, key, i) {
        Some(i)
    } else {
        spec_find_from(text, key, i + 1)
    }
}

/// The first offset where the key matches, if any.
pub open spec fn spec_find_key(text: Seq<u8>, key: Seq<u8>) -> Option<int> {
    spec_find_from(text, key, 0)
}

/// The bytes owed after masking one key: unchanged when the key does not
/// occur; otherwise the window of up to 32 bytes after the first
/// occurrence, its edges floored to character boundaries, is replaced by
/// the redaction marker — unless the window is empty.
pub open spec fn spec_redact_key(t: Seq<u8>, key: Seq<u8>) -> Seq<u8>
    recommends
        valid_utf8(t),
{
    match spec_find_key(t, key) {
        None => t,
        Some(i) => {
            let start0 = i + key.len();
            let end0 = if start0 + 32 <= t.len() {
                start0 + 32
            } else {
                t.len() as int
            };
            let start = spec_boundary_floor(t, start0);
            let end = spec_boundary_floor(t, end0);
            if start < end {
                t.subrange(0, start) + encode_utf8(spec_redaction_marker()) + t.subrange(
                    end,
                    t.len() as int,
                )
            } else {
                t
            }
        },
    }
}

/// The key names whose surroundings are masked, in the order applied.
pub open spec fn spec_sensitive_keys() -> Seq<Seq<char>> {
    seq![
        ("token")@,
        ("access_token")@,
        ("appsecret")@,
        ("authorization")@,
        ("cookie")@,
        ("passwd")@,
        ("password")@,
        ("secret")@,
    ]
}

/// The bytes owed by redaction: each sensitive key masked in turn, each
/// applied to the result of the previous one.
pub open spec fn spec_redact_text(t: Seq<u8>) -> Seq<u8> {
    spec_redact_keys(t, spec_sensitive_keys().len() as int)
}

/// The first `n` sensitive keys masked in turn.
pub open spec fn spec_redact_keys(t: Seq<u8>, n: int) -> Seq<u8>
    decreases n,
{
    if n <= 0 {
        t
    } else {
        spec_redact_key(spec_redact_keys(t, n - 1), encode_utf8(spec_sensitive_keys()[n - 1]))
    }
}

/// Computes the largest character boundary at or below `k`.
fn boundary_floor(text: &str, k: usize) -> (r: usize)
    requires
        k <= text.spec_bytes().len(),
    ensures
        r == spec_boundary_floor(text.spec_bytes(), k as int),
        r <= k,
        is_char_boundary(text.spec_bytes(), r as int),
{
    proof {
        encode_utf8_valid_utf8(text@);
    }
    let mut end = k;
    while !text.is_char_boundary(end)
        invariant
            end <= k <= text.spec_bytes().len(),
            valid_utf8(text.spec_bytes()),
            spec_boundary_floor(text.spec_bytes(), k as int) == spec_boundary_floor(
                text.spec_bytes(),
                end as int,
            ),
        decreases end,
    {
        proof {
            assert(is_char_boundary(text.spec_bytes(), 0));
        }
        end = end - 1;
    }
    end
}

/// Cuts a body to the byte budget: bodies that fit are returned unchanged;
/// longer ones are cut at the largest character boundary within the budget
/// — never inside a multi-byte character — and the truncation marker is
/// appended.
pub fn truncate_snippet(input: &str, max_bytes: usize) -> (r: String)
    ensures
        encode_utf8(r@) == spec_truncate_snippet(input.spec_bytes(), max_bytes as nat),
{
    let n = input.as_bytes().len();
    if n <= max_bytes {
        return input.to_owned();
    }
    let end = boundary_floor(input, max_bytes);
    let (head, _) = input.split_at(end);
    let mut r = head.to_owned();
    r.append("...(truncated)");
    proof {
        assert(encode_utf8(r@) =~= encode_utf8(head@) + encode_utf8(spec_truncate_marker()))
            by {
            crate::text::lemma_encode_utf8_concat(head@, ("...(truncated)")@);
        }
        assert(encode_utf8(head@) =~= input.spec_bytes().subrange(
            0,
            spec_boundary_floor(input.spec_bytes(), max_bytes as int),
        ));
    }
    r
}

/// Lowercases an ASCII byte.
fn lower_byte(b: u8) -> (r: u8)
    ensures
        r == spec_lower_byte(b),
{
    if 0x41 <= b && b <= 0x5a {
        b + 0x20
    } else {
        b
    }
}

/// Tests whether the key matches the text at offset `i`.
fn match_at(text: &[u8], key: &[u8], i: usize) -> (b: bool)
    requires
        i + key@.len() <= text@.len(),
    ensures
        b == spec_match_at(text@, key@, i as int),
{
    let tlen = text.len();
    let klen = key.len();
    let mut j: usize = 0;
    let mut ok = true;
    while j < klen
        invariant
            j <= klen,
            klen == key@.len(),
            tlen == text@.len(),
            i + klen <= text@.len(),
            ok == (forall|j2: int| 0 <= j2 < j ==> spec_lower_byte(text@[i + j2]) == key@[j2]),
        decreases klen - j,
    {
        let here = lower_byte(text[i + j]) == key[j];
        proof {
            if ok && here {
                assert(forall|j2: int|
                    0 <= j2 < j + 1 ==> spec_lower_byte(text@[i + j2]) == key@[j2]);
            }
        }
        ok = ok && here;
        j = j + 1;
    }
    ok
}

/// Finds the first offset where the key matches the text,
/// case-insensitively.
fn find_key_ci(text: &[u8], key: &[u8]) -> (r: Option<usize>)
    ensures
        match r {
            Some(i) => spec_find_key(text@, key@) == Some(i as int) && i + key@.len()
                <= text@.len(),
            None => spec_find_key(text@, key@) is None,
        },
{
    let tlen = text.len();
    let klen = key.len();
    if klen > tlen {
        return None;
    }
    let mut i: usize = 0;
    while i <= tlen - klen
        invariant
            tlen == text@.len(),
            klen == key@.len(),
            klen <= tlen,
            i <= tlen,
            spec_find_from(text@, key@, 0) == spec_find_from(text@, key@, i as int),
        decreases text@.len() - i,
    {
        if match_at(text, key, i) {
            return Some(i);
        }
        i = i + 1;
    }
    None
}

/// Masks the window after the first occurrence of one key.
fn redact_key(text: &str, key: &str) -> (r: String)
    ensures
        encode_utf8(r@) == spec_redact_key(text.spec_bytes(), key.spec_bytes()),
{
    proof {
        encode_utf8_valid_utf8(text@);
    }
    let tb = text.as_bytes();
    let tblen = tb.len();
    match find_key_ci(tb, key.as_bytes()) {
        None => text.to_owned(),
        Some(i) => {
            let start0 = i + key.len();
            let end0 = if tblen - start0 > 32 {
                start0 + 32
            } else {
                tblen
            };
            let start = boundary_floor(text, start0);
            let end = boundary_floor(text, end0);
            if start < end {
                let (head, _) = text.split_at(start);
                let (_, tail) = text.split_at(end);
                let mut r = head.to_owned();
                r.append("=<redacted>");
                r.append(tail);
                proof {
                    crate::text::lemma_encode_utf8_concat(head@, ("=<redacted>")@);
                    crate::text::lemma_encode_utf8_concat(head@ + ("=<redacted>")@, tail@);
                    assert(encode_utf8(r@) =~= text.spec_bytes().subrange(0, start as int)
                        + encode_utf8(spec_redaction_marker()) + text.spec_bytes().subrange(
                        end as int,
                        text.spec_bytes().len() as int,
                    ));
                }
                r
            } else {
                text.to_owned()
            }
        },
    }
}

/// Masks, for each sensitive key name in the fixed list, the window after
/// its first occurrence, applying the keys in order.
pub fn redact_text(input: &str) -> (r: String)
    ensures
        encode_utf8(r@) == spec_redact_text(input.spec_bytes()),
{
    let ghost t0 = input.spec_bytes();
    let r1 = redact_key(input, "token");
    let r2 = redact_key(r1.as_str(), "access_token");
    let r3 = redact_key(r2.as_str(), "appsecret");
    let r4 = redact_key(r3.as_str(), "authorization");
    let r5 = redact_key(r4.as_str(), "cookie");
    let r6 = redact_key(r5.as_str(), "passwd");
    let r7 = redact_key(r6.as_str(), "password");
    let r8 = redact_key(r7.as_str(), "secret");
    proof {
        assert(spec_redact_keys(t0, 0) == t0);
        assert(encode_utf8(r1@) == spec_redact_keys(t0, 1));
        assert(encode_utf8(r2@) == spec_redact_keys(t0, 2));
        assert(encode_utf8(r3@) == spec_redact_keys(t0, 3));
        assert(encode_utf8(r4@) == spec_redact_keys(t0, 4));
        assert(encode_utf8(r5@) == spec_redact_keys(t0, 5));
        assert(encode_utf8(r6@) == spec_redact_keys(t0, 6));
        assert(encode_utf8(r7@) == spec_redact_keys(t0, 7));
        assert(encode_utf8(r8@) == spec_redact_keys(t0, 8));
    }
    r8
}


/// The boundary floor is a character boundary at or below its bound.
pub proof fn lemma_boundary_floor(bytes: Seq<u8>, k: int)
    requires
        valid_utf8(bytes),
        0 <= k <= bytes.len(),
    ensures
        0 <= spec_boundary_floor(bytes, k) <= k,
        is_char_boundary(bytes, spec_boundary_floor(bytes, k)),
    decreases k,
{
    if k <= 0 {
        assert(is_char_boundary(bytes, 0));
    } else if is_char_boundary(bytes, k) {
    } else {
        lemma_boundary_floor(bytes, k - 1);
    }
}

/// A truncated snippet of a body over the budget never cuts inside a
/// multi-byte character and always appends the truncation marker: it is a
/// prefix of the body, cut at a character boundary within the budget,
/// with the marker following.
pub proof fn lemma_truncate_never_splits(b: Seq<u8>, max_bytes: nat)
    requires
        valid_utf8(b),
        b.len() > max_bytes,
    ensures
        ({
            let cut = spec_boundary_floor(b, max_bytes as int);
            &&& 0 <= cut <= max_bytes
            &&& is_char_boundary(b, cut)
            &&& spec_truncate_snippet(b, max_bytes) == b.subrange(0, cut) + encode_utf8(
                spec_truncate_marker(),
            )
        }),
{
    lemma_boundary_floor(b, max_bytes as int);
}

} // verus!
