//! Decoding a bech32 string, such as an LNURL, into the text it carries.

use vstd::arithmetic::power2::pow2;
use vstd::prelude::*;
use vstd::utf8::{decode_utf8, decode_utf8_encode_utf8, encode_utf8, valid_utf8};

use bitcoin::bech32::FromBase32;

verus! {

/// The error of the bech32 crate, for decoding and for regrouping bits.
#[verifier::external_type_specification]
#[verifier::external_body]
pub struct ExBech32Error(bitcoin::bech32::Error);

/// The error of `String::from_utf8`.
#[verifier::external_type_specification]
#[verifier::external_body]
pub struct ExFromUtf8Error(std::string::FromUtf8Error);

/// The data part that `bitcoin::bech32::decode` finds in the text `s`, one
/// 5-bit value per character and without the checksum, or `None` where it
/// rejects `s`.
pub uninterp spec fn bech32_data(s: Seq<char>) -> Option<Seq<u8>>;

/// Whether every value of `d` fits in five bits.
pub open spec fn is_base32(d: Seq<u8>) -> bool {
    forall|i: int| 0 <= i < d.len() ==> #[trigger] d[i] < 32
}

/// The number that the 5-bit values `d` write in base 32, most significant
/// first.
pub open spec fn base32_value(d: Seq<u8>) -> nat
    decreases d.len(),
{
    if d.len() == 0 {
        0
    } else {
        base32_value(d.drop_last()) * 32 + d.last() as nat
    }
}

/// How many bits of `d` are left over when its bits are taken in eights.
pub open spec fn base32_spare_bits(d: Seq<u8>) -> nat {
    ((5 * d.len()) % 8) as nat
}

/// Whether the spare bits of `d` are padding: fewer than five, all of them
/// zero.
pub open spec fn base32_padding_ok(d: Seq<u8>) -> bool {
    &&& base32_spare_bits(d) < 5
    &&& base32_value(d) % pow2(base32_spare_bits(d)) == 0
}

/// The bytes that the bits of `d` make when taken in eights from the front,
/// the spare bits dropped.
pub open spec fn base32_bytes(d: Seq<u8>) -> Seq<u8> {
    Seq::new(
        ((5 * d.len()) / 8) as nat,
        |j: int| ((base32_value(d) / pow2((5 * d.len() - 8 * (j + 1)) as nat)) % 256) as u8,
    )
}

/// Calls `bitcoin::bech32::decode` and hands back the data part of what it
/// returns, each 5-bit value as a byte.
///
/// Trusted: the call succeeds exactly where `bech32_data` is `Some`, the
/// data are then that value, and each of them is below 32.
#[verifier::external_body]
fn bech32_decode(payload: &str) -> (r: Result<Vec<u8>, bitcoin::bech32::Error>)
    ensures
        r is Ok <==> bech32_data(payload@) is Some,
        r matches Ok(d) ==> bech32_data(payload@) == Some(d@) && is_base32(d@),
{
    match bitcoin::bech32::decode(payload) {
        Ok((_, data, _)) => Ok(data.iter().map(|v| v.to_u8()).collect()),
        Err(e) => Err(e),
    }
}

/// Calls `Vec::<u8>::from_base32` of the bech32 crate on the 5-bit values
/// `data`.
///
/// Trusted: the call succeeds exactly where the spare bits are padding, and
/// then returns the bits of `data` in eights.
#[verifier::external_body]
fn from_base32(data: &Vec<u8>) -> (r: Result<Vec<u8>, bitcoin::bech32::Error>)
    requires
        is_base32(data@),
    ensures
        r is Ok <==> base32_padding_ok(data@),
        r matches Ok(b) ==> b@ == base32_bytes(data@),
{
    let b32: Vec<bitcoin::bech32::u5> = data.iter().map(
        |b| bitcoin::bech32::u5::try_from_u8(*b).unwrap(),
    ).collect();
    Vec::<u8>::from_base32(&b32)
}

/// `String::from_utf8` succeeds exactly on valid UTF-8, and the string then
/// holds the characters that the bytes encode.
pub assume_specification[ String::from_utf8 ](vec: Vec<u8>) -> (r: Result<
    String,
    std::string::FromUtf8Error,
>)
    ensures
        r is Ok <==> valid_utf8(vec@),
        r matches Ok(s) ==> s@ == decode_utf8(vec@),
;

/// The step of decoding at which a text was rejected.
#[derive(Clone, Copy, Debug, PartialEq, Eq, Structural)]
pub enum DecodeStage {
    /// The text is no bech32 string.
    Bech32,
    /// The data part does not regroup into whole bytes.
    Base32,
    /// The bytes are no UTF-8 text.
    Utf8,
}

/// Why a text could not be decoded: the text, and the step that rejected it.
#[derive(Clone, Debug, PartialEq, Eq)]
pub struct DecodeError {
    /// The text that was to be decoded.
    pub payload: String,
    /// The step that rejected it.
    pub stage: DecodeStage,
}

/// A `DecodeError` as a mathematical value.
pub struct DecodeErrorView {
    pub payload: Seq<char>,
    pub stage: DecodeStage,
}

impl View for DecodeError {
    type V = DecodeErrorView;

    open spec fn view(&self) -> DecodeErrorView {
        DecodeErrorView { payload: self.payload@, stage: self.stage }
    }
}

/// Whether the 5-bit values `d` carry a text: they regroup into whole bytes,
/// and the bytes are UTF-8.
pub open spec fn carries_text(d: Seq<u8>) -> bool {
    is_base32(d) && base32_padding_ok(d) && valid_utf8(base32_bytes(d))
}

/// The text that the 5-bit values `d` carry, or the step that rejects them.
pub open spec fn text_of_base32(d: Seq<u8>) -> Result<Seq<char>, DecodeStage> {
    if !is_base32(d) || !base32_padding_ok(d) {
        Err(DecodeStage::Base32)
    } else if !valid_utf8(base32_bytes(d)) {
        Err(DecodeStage::Utf8)
    } else {
        Ok(decode_utf8(base32_bytes(d)))
    }
}

/// The text that the bech32 string `payload` carries, or the step that
/// rejects it.
pub open spec fn text_of_bech32(payload: Seq<char>) -> Result<Seq<char>, DecodeStage> {
    match bech32_data(payload) {
        None => Err(DecodeStage::Bech32),
        Some(d) => text_of_base32(d),
    }
}

/// What decoding `payload` gives where its steps give `outcome`: the text,
/// or an error that names `payload` and the step.
pub open spec fn decode_result(
    payload: Seq<char>,
    outcome: Result<Seq<char>, DecodeStage>,
) -> Result<Seq<char>, DecodeErrorView> {
    match outcome {
        Ok(text) => Ok(text),
        Err(stage) => Err(DecodeErrorView { payload, stage }),
    }
}

/// The views of a decoding result.
pub open spec fn result_view(r: Result<String, DecodeError>) -> Result<Seq<char>, DecodeErrorView> {
    match r {
        Ok(text) => Ok(text@),
        Err(e) => Err(e@),
    }
}

/// How the message of an error at the step `stage` begins.
pub open spec fn message_head(stage: DecodeStage) -> Seq<char> {
    match stage {
        DecodeStage::Bech32 => "Could not decode bech32: "@,
        DecodeStage::Base32 => "Could not decode Bech32: "@,
        DecodeStage::Utf8 => "Could not decode Bech32: "@,
    }
}

/// How the message of an error at the step `stage` ends: with what names
/// the step.
pub open spec fn stage_label(stage: DecodeStage) -> Seq<char> {
    match stage {
        DecodeStage::Bech32 => " - Invalid bech32"@,
        DecodeStage::Base32 => " - Invalid base32"@,
        DecodeStage::Utf8 => " - Could not parse to String"@,
    }
}

/// The message of a decoding error: it names the text and the step.
pub open spec fn decode_message(e: DecodeErrorView) -> Seq<char> {
    message_head(e.stage) + e.payload + stage_label(e.stage)
}

/// The message of a decoding error tells which text was rejected and at
/// which step: two errors with the same message are the same error.
pub proof fn lemma_message_tells_error(a: DecodeErrorView, b: DecodeErrorView)
    requires
        decode_message(a) == decode_message(b),
    ensures
        a == b,
{
    reveal_strlit("Could not decode bech32: ");
    reveal_strlit("Could not decode Bech32: ");
    reveal_strlit(" - Invalid bech32");
    reveal_strlit(" - Invalid base32");
    reveal_strlit(" - Could not parse to String");
    let ma = decode_message(a);
    let mb = decode_message(b);
    let ha = message_head(a.stage);
    let hb = message_head(b.stage);
    let ta = stage_label(a.stage);
    let tb = stage_label(b.stage);
    assert(ha.len() == 25 && hb.len() == 25);
    assert(ma[16] == ha[16] && mb[16] == hb[16]);
    assert(ma[ma.len() - 1] == ta[ta.len() - 1]);
    assert(mb[mb.len() - 1] == tb[tb.len() - 1]);
    assert(ma[ma.len() - 4] == ta[ta.len() - 4]);
    assert(mb[mb.len() - 4] == tb[tb.len() - 4]);
    assert(a.stage == b.stage);
    assert(a.payload.len() == b.payload.len());
    assert(a.payload =~= b.payload) by {
        assert forall|i: int| 0 <= i < a.payload.len() implies a.payload[i] == b.payload[i] by {
            assert(ma[25 + i] == a.payload[i]);
            assert(mb[25 + i] == b.payload[i]);
        }
    }
}

impl DecodeError {
    /// The message that reports this error.
    pub fn message(&self) -> (r: String)
        ensures
            r@ == decode_message(self@),
    {
        let (head, tail) = match self.stage {
            DecodeStage::Bech32 => ("Could not decode bech32: ", " - Invalid bech32"),
            DecodeStage::Base32 => ("Could not decode Bech32: ", " - Invalid base32"),
            DecodeStage::Utf8 => ("Could not decode Bech32: ", " - Could not parse to String"),
        };
        let mut out = head.to_owned();
        out.append(self.payload.as_str());
        out.append(tail);
        out
    }
}

/// Tells whether every value of `data` fits in five bits.
pub fn all_base32(data: &Vec<u8>) -> (r: bool)
    ensures
        r == is_base32(data@),
{
    let mut i: usize = 0;
    while i < data.len()
        invariant
            i <= data.len(),
            is_base32(data@.take(i as int)),
        decreases data.len() - i,
    {
        if data[i] >= 32 {
            return false;
        }
        assert forall|k: int| 0 <= k < i + 1 implies #[trigger] data@.take(i + 1)[k] < 32 by {
            if k < i {
                assert(data@.take(i as int)[k] < 32);
            }
        }
        i += 1;
    }
    assert(data@.take(i as int) =~= data@);
    true
}

/// Turns the data part of the bech32 string `payload` into the text it
/// carries: the 5-bit values are regrouped into bytes, and the bytes read as
/// UTF-8.
pub fn decode_base32(payload: &str, data: &Vec<u8>) -> (r: Result<String, DecodeError>)
    ensures
        result_view(r) == decode_result(payload@, text_of_base32(data@)),
{
    if !all_base32(data) {
        return Err(DecodeError { payload: payload.to_owned(), stage: DecodeStage::Base32 });
    }
    let bytes = match from_base32(data) {
        Ok(bytes) => bytes,
        Err(_) => {
            return Err(DecodeError { payload: payload.to_owned(), stage: DecodeStage::Base32 });
        },
    };
    match String::from_utf8(bytes) {
        Ok(text) => Ok(text),
        Err(_) => Err(DecodeError { payload: payload.to_owned(), stage: DecodeStage::Utf8 }),
    }
}

/// Decodes the bech32 string `payload` into the text it carries.
///
/// Fails with an error that names `payload` and the step that rejected it:
/// the bech32 decoding, the regrouping of the data into bytes, or the
/// reading of the bytes as UTF-8.
pub fn decode_bech32(payload: &str) -> (r: Result<String, DecodeError>)
    ensures
        result_view(r) == decode_result(payload@, text_of_bech32(payload@)),
        bech32_data(payload@) matches Some(d) ==> is_base32(d),
        bech32_data(payload@) matches Some(d) ==> (carries_text(d) ==> (r matches Ok(text)
            && encode_utf8(text@) == base32_bytes(d))),
        text_of_bech32(payload@) matches Err(stage) ==> (r matches Err(e) && e.payload@
            == payload@ && e.stage == stage && decode_message(e@) == message_head(stage)
            + payload@ + stage_label(stage)),
{
    proof {
        match bech32_data(payload@) {
            Some(d) => {
                if valid_utf8(base32_bytes(d)) {
                    decode_utf8_encode_utf8(base32_bytes(d));
                }
            },
            None => {},
        }
    }
    match bech32_decode(payload) {
        Ok(data) => decode_base32(payload, &data),
        Err(_) => Err(DecodeError { payload: payload.to_owned(), stage: DecodeStage::Bech32 }),
    }
}

} // verus!
