use bitcoin::bech32::{self, u5, ToBase32, Variant};
use node_console::config::ANDREIS_LNURLP;
use node_console::decode::{all_base32, decode_base32, decode_bech32, DecodeError, DecodeStage};

fn encode(data: &[u8]) -> String {
    let groups: Vec<u5> = data.iter().map(|v| u5::try_from_u8(*v).unwrap()).collect();
    bech32::encode("lnurl", groups, Variant::Bech32).unwrap()
}

fn error(payload: &str, stage: DecodeStage) -> DecodeError {
    DecodeError { payload: payload.to_string(), stage }
}

#[test]
fn decodes_the_lnurl_of_the_console() {
    assert_eq!(
        decode_bech32(ANDREIS_LNURLP),
        Ok("https://testnet.plebnet.dev/lnurlp/Gq65zW".to_string())
    );
}

#[test]
fn decodes_lower_case_as_upper_case() {
    let lower = ANDREIS_LNURLP.to_lowercase();
    assert_eq!(
        decode_bech32(&lower),
        Ok("https://testnet.plebnet.dev/lnurlp/Gq65zW".to_string())
    );
}

#[test]
fn decodes_what_was_encoded() {
    let texts = ["", "a", "hi", "https://example.com/\u{e9}", "\u{3df} \u{1f600}"];
    for text in texts {
        let payload =
            bech32::encode("lnurl", text.as_bytes().to_base32(), Variant::Bech32).unwrap();
        assert_eq!(decode_bech32(&payload), Ok(text.to_string()), "text {:?}", text);
    }
}

#[test]
fn decodes_known_payloads() {
    assert_eq!(decode_bech32("lnurl1dp5skhzyq7"), Ok("hi".to_string()));
    assert_eq!(
        decode_bech32("lnurl1dp68gurn8ghj7etcv9khqmr99e3k7mf0cw5s8pymzq"),
        Ok("https://example.com/\u{e9}".to_string())
    );
    assert_eq!(decode_bech32("A12UEL5L"), Ok(String::new()));
}

#[test]
fn rejects_what_is_no_bech32() {
    let payloads = [
        "",
        "no separator",
        "lnurl1dp5skhzyq8",
        "Lnurl1dp5skhzyq7",
        "lnurl1dp5skhzyb7",
        "1dp5skhzyq7",
        "lnurl1",
        "\u{3df}1dp5skhzyq7",
    ];
    for payload in payloads {
        assert_eq!(
            decode_bech32(payload),
            Err(error(payload, DecodeStage::Bech32)),
            "payload {:?}",
            payload
        );
    }
}

#[test]
fn rejects_spare_bits_that_are_no_padding() {
    assert_eq!(encode(&[31]), "lnurl1leltelt");
    assert_eq!(
        decode_bech32("lnurl1leltelt"),
        Err(error("lnurl1leltelt", DecodeStage::Base32))
    );
    assert_eq!(encode(&[13, 1, 20, 17]), "lnurl1dp53tpk3av");
    assert_eq!(
        decode_bech32("lnurl1dp53tpk3av"),
        Err(error("lnurl1dp53tpk3av", DecodeStage::Base32))
    );
}

#[test]
fn rejects_bytes_that_are_no_utf8() {
    assert_eq!(encode(&[31, 31, 31, 0]), "lnurl1lllq95yn5p");
    assert_eq!(
        decode_bech32("lnurl1lllq95yn5p"),
        Err(error("lnurl1lllq95yn5p", DecodeStage::Utf8))
    );
    let payload = "abcdef1qpzry9x8gf2tvdw0s3jn54khce6mua7lmqqqxw";
    assert_eq!(decode_bech32(payload), Err(error(payload, DecodeStage::Utf8)));
}

#[test]
fn regroups_five_bits_into_bytes() {
    assert_eq!(decode_base32("p", &vec![]), Ok(String::new()));
    assert_eq!(decode_base32("p", &vec![13, 1, 20, 16]), Ok("hi".to_string()));
    assert_eq!(decode_base32("p", &vec![12, 4]), Ok("a".to_string()));
    assert_eq!(decode_base32("p", &vec![12, 5, 17, 6, 6]), Ok("abc".to_string()));
    assert_eq!(
        decode_base32("p", &vec![12, 5, 17, 6, 6, 16, 0, 0]),
        Ok("abc@\u{0}".to_string())
    );
    assert_eq!(decode_base32("p", &vec![13, 1, 20, 16, 0]), Ok("hi\u{0}".to_string()));
    assert_eq!(decode_base32("p", &vec![0, 0]), Ok("\u{0}".to_string()));
}

#[test]
fn regrouping_rejects_bad_padding() {
    assert_eq!(decode_base32("p", &vec![31]), Err(error("p", DecodeStage::Base32)));
    assert_eq!(decode_base32("p", &vec![0]), Err(error("p", DecodeStage::Base32)));
    assert_eq!(decode_base32("p", &vec![12, 5]), Err(error("p", DecodeStage::Base32)));
    assert_eq!(decode_base32("p", &vec![13, 1, 20, 17]), Err(error("p", DecodeStage::Base32)));
    assert_eq!(decode_base32("p", &vec![13, 1, 20, 16, 1]), Err(error("p", DecodeStage::Base32)));
    assert_eq!(decode_base32("p", &vec![12, 5, 17]), Err(error("p", DecodeStage::Base32)));
}

#[test]
fn regrouping_rejects_values_of_more_than_five_bits() {
    assert_eq!(decode_base32("p", &vec![32]), Err(error("p", DecodeStage::Base32)));
    assert_eq!(decode_base32("p", &vec![13, 1, 255, 16]), Err(error("p", DecodeStage::Base32)));
}

#[test]
fn regrouping_rejects_bytes_that_are_no_utf8() {
    assert_eq!(decode_base32("p", &vec![31, 31, 31, 0]), Err(error("p", DecodeStage::Utf8)));
    assert_eq!(decode_base32("p", &vec![24, 0]), Err(error("p", DecodeStage::Utf8)));
}

#[test]
fn all_base32_tests_every_value() {
    assert!(all_base32(&vec![]));
    assert!(all_base32(&vec![0, 31, 16]));
    assert!(!all_base32(&vec![32]));
    assert!(!all_base32(&vec![0, 1, 2, 200]));
    assert!(!all_base32(&vec![40, 1, 2]));
}

#[test]
fn messages_name_the_payload_and_the_stage() {
    assert_eq!(
        error("xyz", DecodeStage::Bech32).message(),
        "Could not decode bech32: xyz - Invalid bech32"
    );
    assert_eq!(
        error("xyz", DecodeStage::Base32).message(),
        "Could not decode Bech32: xyz - Invalid base32"
    );
    assert_eq!(
        error("xyz", DecodeStage::Utf8).message(),
        "Could not decode Bech32: xyz - Could not parse to String"
    );
    assert_eq!(
        error("", DecodeStage::Bech32).message(),
        "Could not decode bech32:  - Invalid bech32"
    );
}

#[test]
fn message_of_a_failed_decoding() {
    let e = decode_bech32("lnurl1leltelt").unwrap_err();
    assert_eq!(e.message(), "Could not decode Bech32: lnurl1leltelt - Invalid base32");
    let e = decode_bech32("not bech32").unwrap_err();
    assert_eq!(e.message(), "Could not decode bech32: not bech32 - Invalid bech32");
}

/// What regrouping gives by arithmetic on the number that the groups write
/// in base 32.
fn regrouped(data: &[u8]) -> Option<Vec<u8>> {
    let mut value: u128 = 0;
    for v in data {
        value = value * 32 + u128::from(*v);
    }
    let bits = 5 * data.len();
    let spare = bits % 8;
    if spare >= 5 || value % (1u128 << spare) != 0 {
        return None;
    }
    let mut bytes = Vec::new();
    for j in 0..bits / 8 {
        bytes.push(((value >> (bits - 8 * (j + 1))) % 256) as u8);
    }
    Some(bytes)
}

fn expected_text(data: &[u8]) -> Result<String, DecodeError> {
    match regrouped(data) {
        None => Err(error("p", DecodeStage::Base32)),
        Some(bytes) => String::from_utf8(bytes).map_err(|_| error("p", DecodeStage::Utf8)),
    }
}

#[test]
fn regrouping_of_every_short_sequence() {
    let mut data: Vec<u8> = Vec::new();
    assert_eq!(decode_base32("p", &data), expected_text(&data));
    for a in 0..32u8 {
        data = vec![a];
        assert_eq!(decode_base32("p", &data), expected_text(&data));
        for b in 0..32u8 {
            data = vec![a, b];
            assert_eq!(decode_base32("p", &data), expected_text(&data));
            for c in 0..32u8 {
                data = vec![a, b, c];
                assert_eq!(decode_base32("p", &data), expected_text(&data));
                data = vec![a, b, c, 16];
                assert_eq!(decode_base32("p", &data), expected_text(&data));
            }
        }
    }
}

#[test]
fn regrouping_of_longer_sequences() {
    let mut seed: u32 = 12345;
    for len in 0..24usize {
        for _ in 0..200 {
            let mut data: Vec<u8> = Vec::new();
            for _ in 0..len {
                seed = seed.wrapping_mul(1103515245).wrapping_add(12345);
                data.push(((seed >> 16) % 32) as u8);
            }
            if len > 0 {
                let last = data[len - 1];
                data[len - 1] = last & 0b10000;
            }
            for i in 0..len {
                if i % 8 == 0 || (5 * i) % 8 < 3 {
                    data[i] &= 0b01111;
                }
            }
            assert_eq!(decode_base32("p", &data), expected_text(&data), "data {:?}", data);
        }
    }
}
