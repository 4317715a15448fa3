//! Base-address validation and endpoint building.
//!
//! A configured base address is parsed once by the URL parser of the `url`
//! crate and reduced to the plain parts the library reads: whether the
//! address is hierarchical, everything before the path, the path itself,
//! and whether a query or fragment is present.  All later work — rejecting
//! queries and fragments, stripping the trailing slash, appending
//! percent-encoded path segments — is done on those plain parts and
//! verified.

use vstd::prelude::*;
use vstd::utf8::{
    encode_utf8, encode_utf8_valid_utf8, is_ascii_chars, is_ascii_chars_encode_utf8,
    is_char_boundary_iff_not_is_continuation_byte, is_char_boundary_start_end_of_seq,
    valid_utf8, valid_utf8_concat,
};
use crate::encode::{lemma_path_segment_enc_ascii, spec_path_segment_enc, push_path_segment_enc};
use crate::error::{Error, Result};
use crate::text::{lemma_ascii_valid_utf8, push_str_bytes, string_from_utf8};

verus! {

/// What the URL parser reports of a base address: whether it is
/// hierarchical, the serialization up to the path, the path, and whether a
/// query or a fragment is present.
pub uninterp spec fn url_parts_of(raw: Seq<char>) -> Option<
    (bool, Seq<char>, Seq<char>, bool, bool),
>;

/// Relies on `url::Url::parse` (with surrounding whitespace trimmed first):
/// `None` when the input does not parse as a URL; otherwise whether the URL
/// can serve as a base, its serialization before the path, its path, and
/// whether a query or fragment is present.
#[verifier::external_body]
fn parse_url_parts(raw: &str) -> (r: Option<(bool, String, String, bool, bool)>)
    ensures
        r.deep_view() == url_parts_of(raw@),
{
    match url::Url::parse(raw.trim()) {
        Err(_) => None,
        Ok(u) => {
            if u.cannot_be_a_base() {
                Some((false, String::new(), String::new(), false, false))
            } else {
                let prefix = u[..url::Position::BeforePath].to_string();
                let path = u.path().to_string();
                Some((true, prefix, path, u.query().is_some(), u.fragment().is_some()))
            }
        },
    }
}

/// A validated, canonicalized base address: the serialization before the
/// path, and the path with any trailing slashes stripped.
#[derive(Debug, Clone)]
pub struct BaseUrl {
    prefix: String,
    path: String,
}

/// The path bytes with trailing slashes removed.
pub open spec fn spec_trim_trailing_slash(pb: Seq<u8>) -> Seq<u8>
    decreases pb.len(),
{
    if pb.len() > 0 && pb.last() == 0x2f {
        spec_trim_trailing_slash(pb.drop_last())
    } else {
        pb
    }
}

/// The canonical path: trailing slashes stripped, and the root path kept
/// as a single slash.
pub open spec fn spec_normalize_path(pb: Seq<u8>) -> Seq<u8> {
    if spec_trim_trailing_slash(pb).len() == 0 {
        seq![0x2fu8]
    } else {
        spec_trim_trailing_slash(pb)
    }
}

impl BaseUrl {
    /// The serialization of the address before its path.
    pub closed spec fn spec_prefix(&self) -> Seq<char> {
        self.prefix@
    }

    /// The canonical path of the address.
    pub closed spec fn spec_path(&self) -> Seq<char> {
        self.path@
    }

    /// Returns the canonical path.
    pub fn path(&self) -> (r: &str)
        ensures
            r@ == self.spec_path(),
    {
        self.path.as_str()
    }

    /// Returns the full address string.
    pub fn as_str(&self) -> (r: String)
        ensures
            r@ == self.spec_prefix() + self.spec_path(),
    {
        let mut s = self.prefix.clone();
        s.append(self.path.as_str());
        s
    }
}

/// Builds a base address from already-canonical parts; used for the
/// library's built-in default addresses, whose canonical form is fixed.
pub(crate) fn base_url_from_parts(prefix: String, path: String) -> (r: BaseUrl)
    ensures
        r.spec_prefix() == prefix@,
        r.spec_path() == path@,
{
    BaseUrl { prefix, path }
}

/// The outcome `normalize_base_url` owes for a given input: rejection with
/// an `InvalidConfig` error exactly when the input does not parse, is not
/// hierarchical, or carries a query or fragment; otherwise the base address
/// with its path canonicalized.
pub open spec fn spec_normalize_base_url(raw: Seq<char>, r: Result<BaseUrl>) -> bool {
    match url_parts_of(raw) {
        None => r matches Err(e) && e matches Error::InvalidConfig { message } && message@ == (
        ("Invalid base_url `")@ + raw + ("`")@),
        Some((hier, prefix, path, has_query, has_fragment)) => {
            if !hier {
                r matches Err(e) && e matches Error::InvalidConfig { message } && message@
                    == ("base_url must be hierarchical")@
            } else if has_query || has_fragment {
                r matches Err(e) && e matches Error::InvalidConfig { message } && message@
                    == ("base_url must not contain query or fragment")@
            } else {
                r matches Ok(b) && b.spec_prefix() == prefix && encode_utf8(b.spec_path())
                    == spec_normalize_path(encode_utf8(path))
            }
        },
    }
}

/// Strips trailing slashes from a path, keeping the root path as `/`.
fn normalize_path(path: &str) -> (r: String)
    ensures
        encode_utf8(r@) == spec_normalize_path(encode_utf8(path@)),
{
    proof {
        encode_utf8_valid_utf8(path@);
    }
    let pb = path.as_bytes();
    let mut k = pb.len();
    assert(pb@.subrange(0, k as int) =~= pb@);
    while k > 0 && pb[k - 1] == 0x2f
        invariant
            k <= pb@.len(),
            pb@ == encode_utf8(path@),
            spec_trim_trailing_slash(pb@) == spec_trim_trailing_slash(pb@.subrange(0, k as int)),
            forall|j: int| k <= j < pb@.len() ==> pb@[j] == 0x2f,
        decreases k,
    {
        assert(pb@.subrange(0, k as int).drop_last() =~= pb@.subrange(0, k - 1 as int));
        k = k - 1;
    }
    assert(pb@.subrange(0, k as int) =~= if k == pb@.len() {
        pb@
    } else {
        pb@.subrange(0, k as int)
    });
    assert(spec_trim_trailing_slash(pb@.subrange(0, k as int)) == pb@.subrange(0, k as int));
    if k == 0 {
        let r = String::from_str("/");
        proof {
            reveal_strlit("/");
            assert(r@ =~= seq!['/']);
            assert(is_ascii_chars(r@));
            is_ascii_chars_encode_utf8(r@);
            assert(encode_utf8(r@) =~= seq![0x2fu8]);
        }
        r
    } else {
        proof {
            if k < pb@.len() {
                assert(pb@[k as int] == 0x2f);
                is_char_boundary_iff_not_is_continuation_byte(pb@, k as int);
            } else {
                is_char_boundary_start_end_of_seq(pb@);
            }
        }
        let (head, _) = path.split_at(k);
        let r = head.to_owned();
        proof {
            assert(encode_utf8(r@) =~= pb@.subrange(0, k as int));
        }
        r
    }
}

/// Validates and canonicalizes a configured base address: rejects inputs
/// that do not parse, are not hierarchical, or carry a query or fragment;
/// strips a trailing slash from the path, keeping the root path.
pub fn normalize_base_url(value: &str) -> (r: Result<BaseUrl>)
    ensures
        spec_normalize_base_url(value@, r),
{
    match parse_url_parts(value) {
        None => {
            let mut message = String::from_str("Invalid base_url `");
            message.append(value);
            message.append("`");
            Err(Error::InvalidConfig { message })
        },
        Some((hier, prefix, path, has_query, has_fragment)) => {
            if !hier {
                Err(
                    Error::InvalidConfig {
                        message: String::from_str("base_url must be hierarchical"),
                    },
                )
            } else if has_query || has_fragment {
                Err(
                    Error::InvalidConfig {
                        message: String::from_str(
                            "base_url must not contain query or fragment",
                        ),
                    },
                )
            } else {
                let path = normalize_path(path.as_str());
                Ok(BaseUrl { prefix, path })
            }
        },
    }
}

/// The bytes of an endpoint address: the base serialization, then each
/// segment percent-encoded behind a slash.  A bare root path carries no
/// byte of its own, so the first appended segment starts the path.
pub open spec fn spec_endpoint_bytes(
    prefix: Seq<u8>,
    path: Seq<u8>,
    segs: Seq<Seq<u8>>,
) -> Seq<u8>
    decreases segs.len(),
{
    if segs.len() == 0 {
        prefix + (if path == seq![0x2fu8] {
            Seq::<u8>::empty()
        } else {
            path
        })
    } else {
        spec_endpoint_bytes(prefix, path, segs.drop_last()) + seq![0x2fu8]
            + spec_path_segment_enc(segs.last())
    }
}

/// The segment sequences of a slice of segment strings, as UTF-8 bytes.
pub open spec fn spec_segments_bytes(segs: Seq<Seq<char>>) -> Seq<Seq<u8>> {
    segs.map_values(|s: Seq<char>| encode_utf8(s))
}

/// Builds an endpoint address by appending each path segment,
/// percent-encoded, to the base address, leaving the base path intact.
pub fn endpoint_url(base_url: &BaseUrl, segments: &[&str]) -> (r: Result<String>)
    ensures
        r matches Ok(u) && encode_utf8(u@) == spec_endpoint_bytes(
            encode_utf8(base_url.spec_prefix()),
            encode_utf8(base_url.spec_path()),
            spec_segments_bytes(segments.deep_view()),
        ),
{
    broadcast use valid_utf8_concat;

    let ghost prefix_b = encode_utf8(base_url.spec_prefix());
    let ghost path_b = encode_utf8(base_url.spec_path());
    let mut out: Vec<u8> = Vec::new();
    push_str_bytes(&mut out, base_url.prefix.as_str());
    proof {
        encode_utf8_valid_utf8(base_url.spec_prefix());
    }
    let pb = base_url.path.as_str().as_bytes();
    if !(pb.len() == 1 && pb[0] == 0x2f) {
        push_str_bytes(&mut out, base_url.path.as_str());
        proof {
            encode_utf8_valid_utf8(base_url.spec_path());
            assert(path_b != seq![0x2fu8]);
        }
    } else {
        proof {
            assert(path_b =~= seq![0x2fu8]);
        }
    }
    assert(out@ == spec_endpoint_bytes(
        prefix_b,
        path_b,
        spec_segments_bytes(segments.deep_view()).subrange(0, 0),
    ));
    assert(valid_utf8(out@));
    let n = segments.len();
    for i in 0..n
        invariant
            n == segments@.len(),
            out@ == spec_endpoint_bytes(
                prefix_b,
                path_b,
                spec_segments_bytes(segments.deep_view()).subrange(0, i as int),
            ),
            valid_utf8(out@),
    {
        let ghost segsb = spec_segments_bytes(segments.deep_view());
        out.push(0x2f);
        let seg: &str = segments[i];
        push_path_segment_enc(&mut out, seg.as_bytes());
        proof {
            let before = spec_endpoint_bytes(prefix_b, path_b, segsb.subrange(0, i as int));
            let piece = seq![0x2fu8] + spec_path_segment_enc(encode_utf8(seg@));
            assert(segsb.subrange(0, i + 1 as int).drop_last() =~= segsb.subrange(0, i as int));
            assert(segsb.subrange(0, i + 1 as int).last() == encode_utf8(seg@));
            assert(out@ =~= spec_endpoint_bytes(
                prefix_b,
                path_b,
                segsb.subrange(0, i + 1 as int),
            ));
            lemma_path_segment_enc_ascii(encode_utf8(seg@));
            crate::text::lemma_all_ascii_concat(
                seq![0x2fu8],
                spec_path_segment_enc(encode_utf8(seg@)),
            );
            lemma_ascii_valid_utf8(piece);
            assert(valid_utf8(before));
            valid_utf8_concat(before, piece);
            assert(out@ =~= before + piece);
            assert(valid_utf8(out@));
        }
    }
    proof {
        assert(spec_segments_bytes(segments.deep_view()).subrange(0, n as int)
            =~= spec_segments_bytes(segments.deep_view()));
    }
    Ok(string_from_utf8(out))
}

} // verus!
