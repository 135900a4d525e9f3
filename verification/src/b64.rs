//! Standard base64, as the data-URI payload uses it: the RFC 4648 alphabet,
//! groups of three bytes written as four digit characters, the final quantum
//! padded with `=`.
//!
//! The encoding is specified here in full; the executable encoding is done by
//! the `base64` crate behind a trusted wrapper whose contract ties it to this
//! specification. A strict decoding is specified as well, and proved to be the
//! encoding's inverse.

use base64::Engine;
use vstd::arithmetic::div_mod::{lemma_fundamental_div_mod, lemma_fundamental_div_mod_converse};
use vstd::prelude::*;

verus! {

/// The byte of the ASCII character standing for one base64 digit.
pub open spec fn b64_code(v: int) -> u8
    recommends
        0 <= v < 64,
{
    if 0 <= v < 26 {
        (65 + v) as u8  // 'A' to 'Z'
    } else if 26 <= v < 52 {
        (71 + v) as u8  // 'a' to 'z'
    } else if 52 <= v < 62 {
        (v - 4) as u8  // '0' to '9'
    } else if v == 62 {
        43u8  // '+'
    } else {
        47u8  // '/'
    }
}

/// The character standing for one base64 digit.
pub open spec fn b64_char(v: int) -> char {
    b64_code(v) as char
}

/// The digit value of a character; -1 where the character is no base64 digit.
pub open spec fn b64_value(c: char) -> int {
    let n: int = (c as u32) as int;
    if 65 <= n <= 90 {
        n - 65
    } else if 97 <= n <= 122 {
        n - 71
    } else if 48 <= n <= 57 {
        n + 4
    } else if n == 43 {
        62
    } else if n == 47 {
        63
    } else {
        -1
    }
}

pub open spec fn is_b64_digit(c: char) -> bool {
    b64_value(c) >= 0
}

/// Every digit's character maps back to the digit, and none is the padding
/// character.
pub proof fn lemma_b64_char_value(v: int)
    requires
        0 <= v < 64,
    ensures
        b64_value(b64_char(v)) == v,
        is_b64_digit(b64_char(v)),
        b64_char(v) != '=',
{
}

/// Four digit characters for one full group of three bytes.
pub open spec fn encode_group(b0: u8, b1: u8, b2: u8) -> Seq<char> {
    seq![
        b64_char(b0 as int / 4),
        b64_char((b0 as int % 4) * 16 + b1 as int / 16),
        b64_char((b1 as int % 16) * 4 + b2 as int / 64),
        b64_char(b2 as int % 64),
    ]
}

/// The final quantum where one byte is left: two digits and two pads.
pub open spec fn encode_tail1(b0: u8) -> Seq<char> {
    seq![b64_char(b0 as int / 4), b64_char((b0 as int % 4) * 16), '=', '=']
}

/// The final quantum where two bytes are left: three digits and one pad.
pub open spec fn encode_tail2(b0: u8, b1: u8) -> Seq<char> {
    seq![
        b64_char(b0 as int / 4),
        b64_char((b0 as int % 4) * 16 + b1 as int / 16),
        b64_char((b1 as int % 16) * 4),
        '=',
    ]
}

/// Standard base64 with padding: what `encode_standard` returns.
pub open spec fn base64_encode(bytes: Seq<u8>) -> Seq<char>
    decreases bytes.len(),
{
    if bytes.len() == 0 {
        Seq::empty()
    } else if bytes.len() == 1 {
        encode_tail1(bytes[0])
    } else if bytes.len() == 2 {
        encode_tail2(bytes[0], bytes[1])
    } else {
        encode_group(bytes[0], bytes[1], bytes[2]) + base64_encode(bytes.skip(3))
    }
}

/// The three bytes of one full group of four digit characters.
pub open spec fn decode_group(c0: char, c1: char, c2: char, c3: char) -> Seq<u8>
    recommends
        is_b64_digit(c0),
        is_b64_digit(c1),
        is_b64_digit(c2),
        is_b64_digit(c3),
{
    let v0 = b64_value(c0);
    let v1 = b64_value(c1);
    let v2 = b64_value(c2);
    let v3 = b64_value(c3);
    seq![
        (v0 * 4 + v1 / 16) as u8,
        ((v1 % 16) * 16 + v2 / 4) as u8,
        ((v2 % 4) * 64 + v3) as u8,
    ]
}

/// The final quantum of a base64 text: four characters, possibly padded, with
/// the dangling bits required to be zero.
pub open spec fn decode_tail(s: Seq<char>) -> Option<Seq<u8>>
    recommends
        s.len() == 4,
{
    if s[3] == '=' {
        if s[2] == '=' {
            if is_b64_digit(s[0]) && is_b64_digit(s[1]) && b64_value(s[1]) % 16 == 0 {
                Some(seq![(b64_value(s[0]) * 4 + b64_value(s[1]) / 16) as u8])
            } else {
                None
            }
        } else {
            if is_b64_digit(s[0]) && is_b64_digit(s[1]) && is_b64_digit(s[2]) && b64_value(s[2])
                % 4 == 0 {
                Some(
                    seq![
                        (b64_value(s[0]) * 4 + b64_value(s[1]) / 16) as u8,
                        ((b64_value(s[1]) % 16) * 16 + b64_value(s[2]) / 4) as u8,
                    ],
                )
            } else {
                None
            }
        }
    } else {
        if is_b64_digit(s[0]) && is_b64_digit(s[1]) && is_b64_digit(s[2]) && is_b64_digit(s[3]) {
            Some(decode_group(s[0], s[1], s[2], s[3]))
        } else {
            None
        }
    }
}

/// Strict base64 decoding: `None` where the text is not exactly the encoding
/// of some byte sequence.
pub open spec fn base64_decode(s: Seq<char>) -> Option<Seq<u8>>
    decreases s.len(),
{
    if s.len() == 0 {
        Some(Seq::empty())
    } else if s.len() < 4 {
        None
    } else if s.len() == 4 {
        decode_tail(s)
    } else if is_b64_digit(s[0]) && is_b64_digit(s[1]) && is_b64_digit(s[2]) && is_b64_digit(
        s[3],
    ) {
        match base64_decode(s.skip(4)) {
            Some(rest) => Some(decode_group(s[0], s[1], s[2], s[3]) + rest),
            None => None,
        }
    } else {
        None
    }
}

proof fn lemma_group_round_trip(b0: u8, b1: u8, b2: u8)
    ensures
        ({
            let e = encode_group(b0, b1, b2);
            &&& e.len() == 4
            &&& is_b64_digit(e[0]) && is_b64_digit(e[1]) && is_b64_digit(e[2]) && is_b64_digit(
                e[3],
            )
            &&& e[3] != '='
            &&& decode_group(e[0], e[1], e[2], e[3]) == seq![b0, b1, b2]
        }),
{
    let q0: int = b0 as int / 4;
    let r0: int = b0 as int % 4;
    let q1: int = b1 as int / 16;
    let r1: int = b1 as int % 16;
    let q2: int = b2 as int / 64;
    let r2: int = b2 as int % 64;
    lemma_b64_char_value(q0);
    lemma_b64_char_value(r0 * 16 + q1);
    lemma_b64_char_value(r1 * 4 + q2);
    lemma_b64_char_value(r2);
    lemma_fundamental_div_mod_converse(r0 * 16 + q1, 16, r0, q1);
    lemma_fundamental_div_mod_converse(r1 * 4 + q2, 4, r1, q2);
    lemma_fundamental_div_mod(b0 as int, 4);
    lemma_fundamental_div_mod(b1 as int, 16);
    lemma_fundamental_div_mod(b2 as int, 64);
    assert(decode_group(
        encode_group(b0, b1, b2)[0],
        encode_group(b0, b1, b2)[1],
        encode_group(b0, b1, b2)[2],
        encode_group(b0, b1, b2)[3],
    ) =~= seq![b0, b1, b2]);
}

proof fn lemma_tail1_round_trip(b0: u8)
    ensures
        encode_tail1(b0).len() == 4,
        decode_tail(encode_tail1(b0)) == Some(seq![b0]),
{
    let q0: int = b0 as int / 4;
    let r0: int = b0 as int % 4;
    lemma_b64_char_value(q0);
    lemma_b64_char_value(r0 * 16);
    lemma_fundamental_div_mod_converse(r0 * 16, 16, r0, 0);
    lemma_fundamental_div_mod(b0 as int, 4);
    assert(decode_tail(encode_tail1(b0))->0 =~= seq![b0]);
}

proof fn lemma_tail2_round_trip(b0: u8, b1: u8)
    ensures
        encode_tail2(b0, b1).len() == 4,
        decode_tail(encode_tail2(b0, b1)) == Some(seq![b0, b1]),
{
    let q0: int = b0 as int / 4;
    let r0: int = b0 as int % 4;
    let q1: int = b1 as int / 16;
    let r1: int = b1 as int % 16;
    lemma_b64_char_value(q0);
    lemma_b64_char_value(r0 * 16 + q1);
    lemma_b64_char_value(r1 * 4);
    lemma_fundamental_div_mod_converse(r0 * 16 + q1, 16, r0, q1);
    lemma_fundamental_div_mod_converse(r1 * 4, 4, r1, 0);
    lemma_fundamental_div_mod(b0 as int, 4);
    lemma_fundamental_div_mod(b1 as int, 16);
    assert(decode_tail(encode_tail2(b0, b1))->0 =~= seq![b0, b1]);
}

/// Decoding is the inverse of encoding: for every byte sequence, the strict
/// decoding of its standard base64 text gives the sequence back.
pub proof fn lemma_base64_round_trip(bytes: Seq<u8>)
    ensures
        base64_decode(base64_encode(bytes)) == Some(bytes),
    decreases bytes.len(),
{
    let s = base64_encode(bytes);
    if bytes.len() == 0 {
        assert(bytes =~= Seq::<u8>::empty());
    } else if bytes.len() == 1 {
        lemma_tail1_round_trip(bytes[0]);
        assert(seq![bytes[0]] =~= bytes);
    } else if bytes.len() == 2 {
        lemma_tail2_round_trip(bytes[0], bytes[1]);
        assert(seq![bytes[0], bytes[1]] =~= bytes);
    } else if bytes.len() == 3 {
        lemma_group_round_trip(bytes[0], bytes[1], bytes[2]);
        let e = encode_group(bytes[0], bytes[1], bytes[2]);
        assert(base64_encode(bytes.skip(3)) =~= Seq::<char>::empty());
        assert(s =~= e);
        assert(decode_tail(s) == Some(seq![bytes[0], bytes[1], bytes[2]]));
        assert(seq![bytes[0], bytes[1], bytes[2]] =~= bytes);
    } else {
        lemma_group_round_trip(bytes[0], bytes[1], bytes[2]);
        let e = encode_group(bytes[0], bytes[1], bytes[2]);
        let rest = base64_encode(bytes.skip(3));
        lemma_base64_round_trip(bytes.skip(3));
        assert(rest.len() >= 4);
        assert(s == e + rest);
        assert(s.len() > 4);
        assert(s[0] == e[0] && s[1] == e[1] && s[2] == e[2] && s[3] == e[3]);
        assert(s.skip(4) =~= rest);
        assert(base64_decode(s.skip(4)) == Some(bytes.skip(3)));
        assert(base64_decode(s)->0 =~= bytes);
    }
}

/// The text of an encoding is always whole quanta: four characters for every
/// started group of three bytes, the last padded rather than shortened.
pub proof fn lemma_base64_encode_len(bytes: Seq<u8>)
    ensures
        base64_encode(bytes).len() == 4 * ((bytes.len() + 2) / 3),
    decreases bytes.len(),
{
    let n = bytes.len() as int;
    if n == 0 {
    } else if n <= 2 {
    } else {
        lemma_base64_encode_len(bytes.skip(3));
        let q = (n - 1) / 3;
        let r = (n - 1) % 3;
        lemma_fundamental_div_mod(n - 1, 3);
        lemma_fundamental_div_mod_converse(n + 2, 3, q + 1, r);
    }
}

/// Relies on the `base64` crate's `STANDARD` engine: the RFC 4648 standard
/// alphabet with `=` padding and no line wrapping, which is `base64_encode`.
#[verifier::external_body]
pub(crate) fn encode_standard(bytes: &Vec<u8>) -> (r: String)
    ensures
        r@ == base64_encode(bytes@),
{
    base64::engine::general_purpose::STANDARD.encode(bytes.as_slice())
}

} // verus!
