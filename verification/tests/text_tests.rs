use nymstr_core::hexfmt::hex_decode;
use nymstr_core::hexfmt::hex_encode;
use nymstr_core::jsontext::json_get_chat_ciphertext;
use nymstr_core::jsontext::json_get_str;
use nymstr_core::jsontext::json_obj1;
use nymstr_core::jsontext::json_obj2;
use nymstr_core::jsontext::json_obj3;

#[test]
fn hex_encodes_lower_case() {
    assert_eq!(hex_encode(&vec![0x00, 0x0f, 0xab, 0xff]), "000fabff");
    assert_eq!(hex_encode(&Vec::new()), "");
}

#[test]
fn hex_decode_round_trip() {
    let bytes = vec![0u8, 1, 2, 0x7f, 0x80, 0xfe, 0xff];
    assert_eq!(hex_decode(&hex_encode(&bytes)).unwrap(), bytes);
}

#[test]
fn hex_decode_accepts_upper_case() {
    assert_eq!(hex_decode("DEADbeef").unwrap(), vec![0xde, 0xad, 0xbe, 0xef]);
}

#[test]
fn hex_decode_rejects_odd_length() {
    assert!(hex_decode("abc").is_err());
}

#[test]
fn hex_decode_rejects_bad_digit() {
    assert!(hex_decode("zz").is_err());
    assert!(hex_decode("a ").is_err());
}

#[test]
fn json_objects_have_exact_shape() {
    assert_eq!(json_obj1("username", "alice"), "{\"username\":\"alice\"}");
    assert_eq!(
        json_obj2("signature", "00ff", "username", "alice"),
        "{\"signature\":\"00ff\",\"username\":\"alice\"}"
    );
    assert_eq!(
        json_obj3("body", "hi", "recipient", "bob", "sender", "alice"),
        "{\"body\":\"hi\",\"recipient\":\"bob\",\"sender\":\"alice\"}"
    );
}

#[test]
fn json_escaping_round_trips_through_a_parser() {
    let tricky = "a\"b\\c\nd\te\u{1}f";
    let doc = json_obj2("key", tricky, "other", "plain");
    let v: serde_json::Value = serde_json::from_str(&doc).expect("valid JSON");
    assert_eq!(v.get("key").and_then(|x| x.as_str()), Some(tricky));
    assert_eq!(v.get("other").and_then(|x| x.as_str()), Some("plain"));
}

#[test]
fn json_get_str_reads_fields() {
    assert_eq!(
        json_get_str("{\"nonce\":\"abc123\",\"n\":7}", "nonce").as_deref(),
        Some("abc123")
    );
    assert_eq!(json_get_str("{\"nonce\":\"abc123\"}", "missing"), None);
    assert_eq!(json_get_str("{\"nonce\":7}", "nonce"), None);
    assert_eq!(json_get_str("not json", "nonce"), None);
}

#[test]
fn json_chat_ciphertext_follows_the_nested_path() {
    let doc = "{\"sender\":\"bob\",\"body\":{\"encryptedPayload\":{\"ciphertext\":\"00ff\"}}}";
    assert_eq!(json_get_chat_ciphertext(doc).as_deref(), Some("00ff"));
    assert_eq!(json_get_chat_ciphertext("{\"body\":{}}"), None);
    assert_eq!(json_get_chat_ciphertext("nope"), None);
}
