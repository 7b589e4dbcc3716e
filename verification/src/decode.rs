//! The value decoder: raw 16-bit register words become exact scaled numbers,
//! and register word sequences become text (big-endian bytes, UTF-8).

use vstd::prelude::*;
use vstd::string::StringExecFns;
use vstd::utf8::{decode_utf8, encode_utf8, valid_utf8};

verus! {

/// An exact scaled reading: `mantissa` times ten to the power `exponent`.
///
/// The bridge keeps decoded telemetry in this exact form; a consumer that
/// wants a machine float converts at the edge.
#[derive(Clone, Copy, Debug, PartialEq, Eq, Structural)]
pub struct Decimal {
    pub mantissa: i64,
    pub exponent: i16,
}

/// A register word reinterpreted as a signed 16-bit value (two's complement).
pub open spec fn as_signed16(w: u16) -> int {
    if w >= 0x8000 {
        w - 0x10000
    } else {
        w as int
    }
}

/// The decoded form of one register word under a given scale factor.
pub open spec fn spec_decode(w: u16, scale_factor: i16) -> Decimal {
    Decimal { mantissa: as_signed16(w) as i64, exponent: scale_factor }
}

/// Decode one register word: reinterpret it as a signed 16-bit integer and
/// attach the point's decimal scale factor.  Total over the full 16-bit
/// domain; never fails.
pub fn decode(w: u16, scale_factor: i16) -> (d: Decimal)
    ensures
        d == spec_decode(w, scale_factor),
{
    let mantissa: i64 = if w >= 0x8000 {
        w as i64 - 0x10000
    } else {
        w as i64
    };
    Decimal { mantissa, exponent: scale_factor }
}

/// Ten to the power `e`.
pub open spec fn pow10(e: nat) -> int
    decreases e,
{
    if e == 0 {
        1
    } else {
        10 * pow10((e - 1) as nat)
    }
}

pub proof fn lemma_pow10_pos(e: nat)
    ensures
        pow10(e) >= 1,
    decreases e,
{
    if e > 0 {
        lemma_pow10_pos((e - 1) as nat);
    }
}

/// The numerator of a decimal read as the rational number
/// `mantissa * 10^exponent`.
pub open spec fn numerator(d: Decimal) -> int {
    if d.exponent >= 0 {
        d.mantissa * pow10(d.exponent as nat)
    } else {
        d.mantissa as int
    }
}

/// The denominator of a decimal read as the rational number
/// `mantissa * 10^exponent`.
pub open spec fn denominator(d: Decimal) -> int {
    if d.exponent >= 0 {
        1
    } else {
        pow10((-d.exponent) as nat)
    }
}

/// Law: for every register word `w` and scale factor `sf`, the decoded value
/// equals, as a rational number, the signed 16-bit reading times ten to the
/// scale factor, and its denominator is positive.
pub proof fn lemma_decode_scales(w: u16, sf: i16)
    ensures
        denominator(spec_decode(w, sf)) > 0,
        sf >= 0 ==> numerator(spec_decode(w, sf)) == as_signed16(w) * pow10(sf as nat)
            && denominator(spec_decode(w, sf)) == 1,
        sf < 0 ==> numerator(spec_decode(w, sf)) == as_signed16(w)
            && denominator(spec_decode(w, sf)) == pow10((-sf) as nat),
{
    if sf >= 0 {
        lemma_pow10_pos(sf as nat);
    } else {
        lemma_pow10_pos((-sf) as nat);
    }
}

/// The big-endian byte sequence of a register word sequence: each word
/// contributes its high byte, then its low byte.
pub open spec fn be_bytes_of(words: Seq<u16>) -> Seq<u8>
    decreases words.len(),
{
    if words.len() == 0 {
        Seq::empty()
    } else {
        be_bytes_of(words.drop_last()) + seq![
            (words.last() / 256) as u8,
            (words.last() % 256) as u8,
        ]
    }
}

/// Relies on `String::from_utf8` (std): it succeeds exactly on valid UTF-8
/// input and then returns the string whose characters are the UTF-8 decoding
/// of those bytes.
#[verifier::external_body]
fn utf8_to_string(bytes: Vec<u8>) -> (r: Option<String>)
    ensures
        r is Some <==> valid_utf8(bytes@),
        r matches Some(s) ==> s@ == decode_utf8(bytes@),
{
    String::from_utf8(bytes).ok()
}

/// Turn a register word sequence into text: the words' bytes are concatenated
/// in big-endian order and decoded as UTF-8.  Invalid UTF-8 yields a
/// diagnostic placeholder instead of an error, so that optional textual
/// identifiers degrade softly.
pub fn string_proc(data: &Vec<u16>) -> (r: String)
    ensures
        valid_utf8(be_bytes_of(data@)) ==> r@ == decode_utf8(be_bytes_of(data@)) && encode_utf8(
            r@,
        ) == be_bytes_of(data@),
        !valid_utf8(be_bytes_of(data@)) ==> r@ == "ERROR: invalid UTF-8"@,
{
    let mut bytes: Vec<u8> = Vec::new();
    let mut i: usize = 0;
    while i < data.len()
        invariant
            i <= data.len(),
            bytes@ == be_bytes_of(data@.subrange(0, i as int)),
        decreases data.len() - i,
    {
        let w = data[i];
        proof {
            assert(w / 256 < 256);
            assert(w % 256 < 256);
        }
        let h: u8 = (w / 256) as u8;
        let l: u8 = (w % 256) as u8;
        bytes.push(h);
        bytes.push(l);
        proof {
            let prefix = data@.subrange(0, i as int + 1);
            assert(prefix.drop_last() =~= data@.subrange(0, i as int));
            assert(bytes@ =~= be_bytes_of(prefix));
        }
        i += 1;
    }
    proof {
        assert(data@.subrange(0, data@.len() as int) =~= data@);
        if valid_utf8(bytes@) {
            vstd::utf8::decode_utf8_encode_utf8(bytes@);
        }
    }
    match utf8_to_string(bytes) {
        Some(s) => s,
        None => String::from_str("ERROR: invalid UTF-8"),
    }
}

} // verus!
