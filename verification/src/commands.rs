//! The two host-capability commands, as decisions and byte-exact results.
//!
//! The host performs the two outside queries — enumerating the monitors and
//! capturing a frame — and hands their outcomes in as plain values: the count
//! of the fresh enumeration (`None` where the query failed) and the captured
//! frame (`None` where no frame was had). Everything decided on those values
//! is verified here: the fallback count, whether a capture is asked for at
//! all, and the result string, which is either the empty sentinel or the
//! `data:image/webp;base64,` URI of the frame's lossless WebP encoding.

use crate::b64::{base64_decode, base64_encode, lemma_base64_round_trip};
use crate::webp::{encodable, encode_webp, has_webp_magic, webp_bytes_of, RawImage};
use vstd::prelude::*;

verus! {

/// What the monitor count command answers: the fresh enumeration's count, or
/// the fallback 1 where the query failed or found no display.
pub open spec fn fallback_count(enumeration: Option<usize>) -> usize {
    match enumeration {
        Some(n) => if n >= 1 {
            n
        } else {
            1usize
        },
        None => 1usize,
    }
}

/// The monitor count handed back to the caller. The enumeration's outcome
/// comes in as `Some` count where the query answered, `None` where it failed;
/// a failed query and an empty enumeration both fall back to 1.
pub fn monitor_count(enumeration: Option<usize>) -> (r: usize)
    ensures
        r == fallback_count(enumeration),
        r >= 1,
{
    match enumeration {
        Some(n) => if n >= 1 {
            n
        } else {
            1
        },
        None => 1,
    }
}

/// Which monitor a screenshot request captures: the requested index exactly
/// when it falls inside the fresh enumeration; no capture where the index is
/// out of range or the enumeration failed.
pub fn capture_target(enumeration: Option<usize>, monitor_index: usize) -> (r: Option<usize>)
    ensures
        r is Some <==> (enumeration matches Some(n) && monitor_index < n),
        r matches Some(i) ==> i == monitor_index,
{
    match enumeration {
        Some(n) => if monitor_index < n {
            Some(monitor_index)
        } else {
            None
        },
        None => None,
    }
}

/// The fixed prefix of every non-empty screenshot result.
pub open spec fn data_uri_prefix() -> Seq<char> {
    "data:image/webp;base64,"@
}

/// The data URI carrying a WebP payload: the fixed prefix, then the payload's
/// standard base64 text.
pub open spec fn webp_data_uri(payload: Seq<u8>) -> Seq<char> {
    data_uri_prefix() + base64_encode(payload)
}

/// A well-formed screenshot result: the data URI of some payload that opens a
/// RIFF container marked WEBP.
pub open spec fn is_screenshot_uri(s: Seq<char>) -> bool {
    exists|payload: Seq<u8>| has_webp_magic(payload) && s == webp_data_uri(payload)
}

/// The result string of one screenshot request, given the capture's outcome:
/// the data URI of the frame's WebP encoding, or the empty sentinel where no
/// frame was had or the frame is not encodable.
pub open spec fn screenshot_string(capture: Option<RawImage>) -> Seq<char> {
    match capture {
        Some(img) => if encodable(img) {
            webp_data_uri(webp_bytes_of(img.width, img.height, img.pixels@))
        } else {
            Seq::empty()
        },
        None => Seq::empty(),
    }
}

/// Wraps WebP bytes in the data URI the caller receives.
pub fn data_uri_from_webp(webp_bytes: &Vec<u8>) -> (r: String)
    ensures
        r@ == webp_data_uri(webp_bytes@),
        r@.len() == 23 + 4 * ((webp_bytes@.len() + 2) / 3),
{
    let mut uri = String::from_str("data:image/webp;base64,");
    let payload = crate::b64::encode_standard(webp_bytes);
    uri.append(payload.as_str());
    proof {
        reveal_strlit("data:image/webp;base64,");
        crate::b64::lemma_base64_encode_len(webp_bytes@);
    }
    uri
}

/// Encodes one captured frame: its WebP data URI, or the empty sentinel where
/// the encoder refuses the frame.
pub fn image_to_data_uri(img: &RawImage) -> (r: String)
    ensures
        encodable(*img) ==> r@ == webp_data_uri(webp_bytes_of(img.width, img.height, img.pixels@)),
        !encodable(*img) ==> r@.len() == 0,
        r@.len() > 0 ==> is_screenshot_uri(r@),
{
    if img.width == 0 || img.width > 16384 || img.height == 0 || img.height > 16384 {
        return String::new();
    }
    proof {
        assert(4 * (img.width as int) * (img.height as int) <= 0x40000000int)
            by (nonlinear_arith)
            requires
                1 <= img.width <= 16384,
                1 <= img.height <= 16384,
        ;
    }
    let expected: usize = 4 * (img.width as usize) * (img.height as usize);
    if img.pixels.len() != expected {
        return String::new();
    }
    match encode_webp(img.width, img.height, &img.pixels) {
        Some(webp_bytes) => {
            let r = data_uri_from_webp(&webp_bytes);
            proof {
                assert(has_webp_magic(webp_bytes@) && r@ == webp_data_uri(webp_bytes@));
            }
            r
        },
        None => String::new(),
    }
}

/// The screenshot command's answer for one capture outcome: exactly
/// `screenshot_string`, so a non-empty answer is always a well-formed WebP
/// data URI and the empty string is the only other value.
pub fn screenshot_encode(capture: Option<RawImage>) -> (r: String)
    ensures
        r@ == screenshot_string(capture),
        r@.len() > 0 ==> is_screenshot_uri(r@),
{
    match capture {
        Some(img) => image_to_data_uri(&img),
        None => String::new(),
    }
}

/// A screenshot of an encodable captured frame is never the empty sentinel:
/// its data URI carries at least the fixed prefix. Whether a frame is had at
/// all is the host's outside work, so this is the owed half of "a capture in
/// range answers with a data URI": once a frame arrives and the encoder takes
/// it, the empty sentinel is impossible.
pub proof fn lemma_encodable_screenshot_nonempty(img: RawImage)
    requires
        encodable(img),
    ensures
        screenshot_string(Some(img)).len() >= 23,
        screenshot_string(Some(img)) == webp_data_uri(
            webp_bytes_of(img.width, img.height, img.pixels@),
        ),
{
    reveal_strlit("data:image/webp;base64,");
}

/// Every non-empty screenshot result round-trips: stripping the fixed prefix
/// and decoding the base64 payload gives bytes that open a RIFF container
/// marked WEBP.
pub proof fn lemma_screenshot_uri_decodes_to_webp(s: Seq<char>)
    requires
        is_screenshot_uri(s),
    ensures
        base64_decode(s.skip(data_uri_prefix().len() as int)) matches Some(payload)
            && has_webp_magic(payload),
{
    let payload = choose|payload: Seq<u8>| has_webp_magic(payload) && s == webp_data_uri(payload);
    assert(s.skip(data_uri_prefix().len() as int) =~= base64_encode(payload));
    lemma_base64_round_trip(payload);
}

} // verus!
