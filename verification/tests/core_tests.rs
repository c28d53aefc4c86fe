use std::collections::HashSet;
use base64::Engine;
use nodegaze::crypto::{generate_key, CryptoError, StringCrypto};
use nodegaze::errors::{LightningError, ServiceError};
use nodegaze::node::{
    features_from_be_bytes, parse_channel_point, parse_node_features, Network, NodeId, NodeInfo,
    PubKey, ShortChannelID,
};
use nodegaze::num::{div_toward_zero, nonneg, nonneg_or_zero, wrap_to_i64, wrap_to_u64};
use nodegaze::text::{parse_unsigned, u64_to_decimal, IntErrorKind};
use nodegaze::tokens::generate_random_string;

const KEY_G: &str = "0279be667ef9dcbbac55a06295ce870b07029bfcdb2dce28d959f2815b16f81798";
const KEY_2G: &str = "02c6047f9441ed7d6d3045406e95c07cd85c778e4b8cef3ca7abac09b95c709ee5";

#[test]
fn test_encrypt_decrypt() {
    let crypto = StringCrypto::new("test_key_for_encryption_32bytes!").unwrap();
    let plaintext = "Hello, World! This is a secret message.";
    let encrypted = crypto.encrypt(plaintext).unwrap();
    assert_ne!(encrypted, plaintext);
    let decrypted = crypto.decrypt(&encrypted).unwrap();
    assert_eq!(decrypted, plaintext);
}

#[test]
fn test_unique_nonces() {
    let crypto = StringCrypto::new("test_key_for_encryption_32bytes!").unwrap();
    let a = crypto.encrypt("same message").unwrap();
    let b = crypto.encrypt("same message").unwrap();
    assert_ne!(a, b);
    assert_eq!(crypto.decrypt(&a).unwrap(), "same message");
    assert_eq!(crypto.decrypt(&b).unwrap(), "same message");
}

#[test]
fn encrypt_with_fixed_nonce_is_deterministic_and_round_trips() {
    let crypto = StringCrypto::new("short key").unwrap();
    let nonce = [7u8; 12];
    let a = crypto.encrypt_with_nonce("payload", &nonce).unwrap();
    let b = crypto.encrypt_with_nonce("payload", &nonce).unwrap();
    assert_eq!(a, b);
    assert_eq!(crypto.decrypt(&a).unwrap(), "payload");
}

#[test]
fn generated_key_is_accepted_and_works() {
    let key = generate_key();
    assert_eq!(key.len(), 44);
    let crypto = StringCrypto::new(&key).unwrap();
    let e = crypto.encrypt("ünïcødé text").unwrap();
    assert_eq!(crypto.decrypt(&e).unwrap(), "ünïcødé text");
}

#[test]
fn generated_key_is_padded_base64_of_32_bytes() {
    let key = generate_key();
    assert!(key.is_ascii());
    assert!(key.ends_with('='));
    let bytes = base64::engine::general_purpose::STANDARD.decode(&key).unwrap();
    assert_eq!(bytes.len(), 32);
}

#[test]
fn ciphertext_frames_nonce_text_and_tag() {
    let crypto = StringCrypto::new("test_key_for_encryption_32bytes!").unwrap();
    let plaintext = "ünïcødé";
    let e = crypto.encrypt(plaintext).unwrap();
    let raw = base64::engine::general_purpose::STANDARD.decode(&e).unwrap();
    assert_eq!(raw.len(), 12 + plaintext.len() + 16);
    let nonce = [7u8; 12];
    let fixed = crypto.encrypt_with_nonce("", &nonce).unwrap();
    let raw = base64::engine::general_purpose::STANDARD.decode(&fixed).unwrap();
    assert_eq!(raw.len(), 28);
    assert_eq!(&raw[..12], &nonce);
    assert_eq!(crypto.decrypt(&fixed).unwrap(), "");
}

#[test]
fn wrong_key_does_not_decrypt() {
    let a = StringCrypto::new("first key").unwrap();
    let b = StringCrypto::new("second key").unwrap();
    let e = a.encrypt("secret").unwrap();
    assert_eq!(b.decrypt(&e), Err(CryptoError::DecryptionFailed));
}

#[test]
fn garbage_is_invalid_data() {
    let a = StringCrypto::new("first key").unwrap();
    assert_eq!(a.decrypt("not base64!!"), Err(CryptoError::InvalidData));
    // Valid Base64 but shorter than a nonce.
    assert_eq!(a.decrypt("AAAA"), Err(CryptoError::InvalidData));
}

#[test]
fn base64_key_of_wrong_length_is_invalid() {
    // 44 characters of Base64 that decode to 33 bytes are not a key.
    let text = "AAAAAAAAAAAAAAAAAAAAAAAAAAAAAAAAAAAAAAAAAAAA";
    assert_eq!(text.len(), 44);
    assert!(matches!(StringCrypto::new(text), Err(CryptoError::InvalidKey)));
    let bad = "!!!!!!!!!!!!!!!!!!!!!!!!!!!!!!!!!!!!!!!!!!!!";
    assert_eq!(bad.len(), 44);
    assert!(matches!(StringCrypto::new(bad), Err(CryptoError::InvalidKey)));
}

#[test]
fn crypto_error_messages() {
    assert_eq!(CryptoError::InvalidKey.message(), "Invalid encryption key");
    assert_eq!(CryptoError::InvalidData.message(), "Invalid data format");
}

#[test]
fn short_channel_id_text_round_trip() {
    let id = ShortChannelID::from_u64(771_283_120_468_213_761);
    assert_eq!(id.to_u64(), 771_283_120_468_213_761);
    let text = id.to_text();
    assert_eq!(text, "771283120468213761");
    assert_eq!(ShortChannelID::from_str(&text), Ok(id));
    assert_eq!(ShortChannelID::from_str("0").unwrap().to_u64(), 0);
    assert_eq!(ShortChannelID::from_str("+42").unwrap().to_u64(), 42);
}

#[test]
fn short_channel_id_parse_errors() {
    assert_eq!(ShortChannelID::from_str(""), Err(IntErrorKind::Empty));
    assert_eq!(ShortChannelID::from_str("12a"), Err(IntErrorKind::InvalidDigit));
    assert_eq!(ShortChannelID::from_str("-1"), Err(IntErrorKind::InvalidDigit));
    assert_eq!(
        ShortChannelID::from_str("18446744073709551616"),
        Err(IntErrorKind::PosOverflow)
    );
    assert_eq!(
        ShortChannelID::from_str("18446744073709551615").unwrap().to_u64(),
        u64::MAX
    );
    assert_eq!(IntErrorKind::InvalidDigit.message(), "invalid digit found in string");
}

#[test]
fn decimal_rendering_and_parsing() {
    assert_eq!(u64_to_decimal(0), "0");
    assert_eq!(u64_to_decimal(1234567890), "1234567890");
    assert_eq!(parse_unsigned("65535", 65535), Ok(65535));
    assert_eq!(parse_unsigned("65536", 65535), Err(IntErrorKind::PosOverflow));
}

#[test]
fn pubkey_hex_round_trip_and_order() {
    let g = PubKey::from_hex(KEY_G).unwrap();
    assert_eq!(g.to_hex(), KEY_G);
    assert_eq!(g.serialize().len(), 33);
    let g2 = PubKey::from_hex(KEY_2G).unwrap();
    assert!(!g.same_as(&g2));
    assert!(g.same_as(&g.clone()));
    assert!(g.less_than(&g2) != g2.less_than(&g));
    assert!(PubKey::from_hex("zz").is_none());
    assert!(PubKey::from_slice(&[1, 2, 3]).is_none());
    let from_bytes = PubKey::from_slice(&g.serialize()).unwrap();
    assert!(from_bytes.same_as(&g));
}

#[test]
fn node_id_validation() {
    let g = PubKey::from_hex(KEY_G).unwrap();
    let g2 = PubKey::from_hex(KEY_2G).unwrap();
    let mut alias = String::from("alice");
    assert!(NodeId::PublicKey(g.clone()).validate(&g, &mut alias).is_ok());
    match NodeId::PublicKey(g.clone()).validate(&g2, &mut alias) {
        Err(LightningError::ValidationError(m)) => {
            assert!(m.contains(KEY_G));
            assert!(m.contains(KEY_2G));
        }
        other => panic!("unexpected {:?}", other),
    }
    assert!(NodeId::Alias("alice".to_string()).validate(&g, &mut alias).is_ok());
    assert!(NodeId::Alias("bob".to_string()).validate(&g, &mut alias).is_err());
    assert_eq!(alias, "alice");
    assert_eq!(
        NodeId::Alias("bob".to_string()).get_pk().err().unwrap(),
        "NodeId is not a PublicKey"
    );
    assert_eq!(NodeId::Alias("bob".to_string()).to_text(), "bob");
    assert_eq!(NodeId::PublicKey(g).to_text(), KEY_G);
}

#[test]
fn node_info_text_has_alias_and_key() {
    let info = NodeInfo {
        pubkey: PubKey::from_hex(KEY_G).unwrap(),
        alias: "alice".to_string(),
        features: vec![],
    };
    let text = info.to_text();
    assert!(text.contains("alice"));
}

#[test]
fn networks_by_name() {
    assert_eq!(Network::from_name("bitcoin"), Ok(Network::Bitcoin));
    assert_eq!(Network::from_name("regtest"), Ok(Network::Regtest));
    assert_eq!(
        Network::from_name("moon"),
        Err("failed to parse moon as network".to_string())
    );
    assert_eq!(Network::from_core_arg("main"), Ok(Network::Bitcoin));
    assert_eq!(Network::from_core_arg("test"), Ok(Network::Testnet));
    assert_eq!(Network::Bitcoin.name(), "bitcoin");
    assert_eq!(Network::Signet.name(), "signet");
}

#[test]
fn channel_point_parsing() {
    let txid = "4a5e1e4baab89f3a32518a88c31bc87f618f76673e2cc77ab2127b7afdeda33b";
    let op = parse_channel_point(&format!("{}:1", txid)).unwrap();
    assert_eq!(op.vout, 1);
    assert_eq!(op.txid.len(), 32);
    match parse_channel_point(txid) {
        Err(LightningError::ValidationError(m)) => assert_eq!(m, "Missing vout"),
        other => panic!("unexpected {:?}", other),
    }
    match parse_channel_point(&format!("{}:x", txid)) {
        Err(LightningError::ValidationError(m)) => {
            assert_eq!(m, "Invalid vout: invalid digit found in string")
        }
        other => panic!("unexpected {:?}", other),
    }
    match parse_channel_point("nothex:0") {
        Err(LightningError::ValidationError(m)) => assert!(m.starts_with("Invalid txid: ")),
        other => panic!("unexpected {:?}", other),
    }
}

#[test]
fn node_features_set_exactly_the_listed_bits() {
    let flags = parse_node_features(HashSet::from([0, 9, 13]));
    assert!(flags.len() >= 256);
    assert_eq!(flags[0], 0b0000_0001);
    assert_eq!(flags[1], 0b0010_0010);
    assert!(flags[2..].iter().all(|b| *b == 0));
    let big = parse_node_features(HashSet::from([2100]));
    assert_eq!(big.len(), 2100 / 8 + 1);
    assert_eq!(big[2100 / 8], 1 << (2100 % 8));
    assert_eq!(features_from_be_bytes(&vec![1, 2, 3]), vec![3, 2, 1]);
}

#[test]
fn integer_conversions() {
    assert_eq!(nonneg_or_zero(-5), 0);
    assert_eq!(nonneg_or_zero(5), 5);
    assert_eq!(nonneg(-1), None);
    assert_eq!(nonneg(7), Some(7));
    assert_eq!(wrap_to_u64(-1), u64::MAX);
    assert_eq!(wrap_to_i64(u64::MAX), -1);
    assert_eq!(div_toward_zero(-7, 2), -3);
    assert_eq!(div_toward_zero(7, 2), 3);
}

#[test]
fn error_messages() {
    assert_eq!(
        LightningError::ConnectionError("down".to_string()).message(),
        "Node connection error: down"
    );
    assert_eq!(
        LightningError::PermanentError("x".to_string()).message(),
        "Permanent error: \"x\""
    );
    assert_eq!(LightningError::InvalidPaymentHash.message(), "Invalid payment hash");
    assert_eq!(
        ServiceError::not_found("User", "42").message(),
        "User not found: 42"
    );
    assert_eq!(
        ServiceError::already_exists("Account", "acme").message(),
        "Account already exists: acme"
    );
    assert_eq!(
        ServiceError::validation("bad").message(),
        "Validation error: bad"
    );
    assert_eq!(
        ServiceError::permission_denied("no").message(),
        "Permission denied: no"
    );
    assert_eq!(
        ServiceError::invalid_operation("nope").message(),
        "Invalid operation: nope"
    );
    assert_eq!(
        ServiceError::external_service("api").message(),
        "External service error: api"
    );
}

#[test]
fn random_strings_are_alphanumeric() {
    let token = generate_random_string(32);
    assert_eq!(token.len(), 32);
    assert!(token.chars().all(|c| c.is_ascii_alphanumeric()));
    let short_code = generate_random_string(8);
    assert_eq!(short_code.len(), 8);
    assert_eq!(generate_random_string(0), "");
}
