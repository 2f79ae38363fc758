use vnc_des::codec::is_white_space;
use vnc_des::{
    info, name, version, PasswordProcessor, VncDesConfig, VncDesConfigBuilder, VncDesEngine,
    VncDesError, VncDesProcessor, TIGHTVNC_DEFAULT_KEY,
};

#[test]
fn test_version_info() {
    assert!(!version().is_empty());
    assert!(!name().is_empty());
    assert!(info().contains(version()));
    assert!(info().contains(name()));
}

#[test]
fn test_basic_encryption() {
    let mut processor = VncDesProcessor::default();
    let password = "test123";

    let encrypted = processor.encrypt_password(password).unwrap();
    let decrypted = processor.decrypt_password(&encrypted).unwrap();

    assert_eq!(password, decrypted);
}

#[test]
fn test_static_methods() {
    let password = "static";

    let encrypted = PasswordProcessor::encrypt_with_default(password).unwrap();
    let decrypted = PasswordProcessor::decrypt_with_default(&encrypted).unwrap();

    assert_eq!(password, decrypted);
}

#[test]
fn test_custom_config() {
    let config = VncDesConfig::new()
        .with_strict_mode(true)
        .with_auto_truncate(false);

    let mut processor = VncDesProcessor::new(config);
    let password = "test";

    let encrypted = processor.encrypt_password(password).unwrap();
    let decrypted = processor.decrypt_password(&encrypted).unwrap();

    assert_eq!(password, decrypted);
}

#[test]
fn test_default_config() {
    let config = VncDesConfig::default();
    assert_eq!(config.encryption_key, TIGHTVNC_DEFAULT_KEY);
    assert!(!config.strict_mode);
    assert!(config.auto_truncate);
    assert_eq!(config.max_password_length, 8);
}

#[test]
fn test_config_builder() {
    let config = VncDesConfigBuilder::new()
        .strict_mode(true)
        .auto_truncate(false)
        .max_password_length(16)
        .build()
        .unwrap();

    assert!(config.strict_mode);
    assert!(!config.auto_truncate);
    assert_eq!(config.max_password_length, 16);
}

#[test]
fn test_hex_key() {
    let hex_key = "17526b06234e5807";
    let config = VncDesConfig::new().with_hex_key(hex_key).unwrap();

    assert_eq!(config.encryption_key, TIGHTVNC_DEFAULT_KEY);
    assert_eq!(config.key_as_hex(), hex_key);
}

#[test]
fn test_des_engine_creation() {
    let engine = VncDesEngine::new();
    assert_eq!(engine.subkeys(), [0; 32]);
}

#[test]
fn test_scrunch_unscrun() {
    let data = [0x01, 0x23, 0x45, 0x67, 0x89, 0xAB, 0xCD, 0xEF];
    let packed = VncDesEngine::scrunch(&data);
    let unpacked = VncDesEngine::unscrun(&packed);
    assert_eq!(data, unpacked);
}

#[test]
fn test_encryption_compatibility() {
    let mut engine = VncDesEngine::new();
    let key = [23, 82, 107, 6, 35, 78, 88, 7];
    let password = "test";

    let mut password_bytes = [0u8; 8];
    let pwd_bytes = password.as_bytes();
    let copy_len = std::cmp::min(pwd_bytes.len(), 8);
    password_bytes[..copy_len].copy_from_slice(&pwd_bytes[..copy_len]);

    let mut encrypted = [0u8; 8];
    engine
        .encrypt(&mut encrypted, &password_bytes, &key)
        .unwrap();

    let expected = [0x2f, 0x98, 0x1d, 0xc5, 0x48, 0xe0, 0x9e, 0xc2];
    assert_eq!(encrypted, expected);
}

#[test]
fn vnc_des_test_processor_creation() {
    let processor = VncDesProcessor::default();
    assert_eq!(processor.config().encryption_key, TIGHTVNC_DEFAULT_KEY);
}

#[test]
fn test_password_encryption_decryption() {
    let mut processor = VncDesProcessor::default();
    let password = "test123";

    let encrypted = processor.encrypt_password(password).unwrap();
    let decrypted = processor.decrypt_password(&encrypted).unwrap();

    assert_eq!(password, decrypted);
}

#[test]
fn test_password_verification() {
    let mut processor = VncDesProcessor::default();
    let password = "password123";

    let encrypted = processor.encrypt_password(password).unwrap();
    let is_valid = processor.verify_password(password, &encrypted).unwrap();

    assert!(is_valid);

    let is_invalid = processor.verify_password("wrongpass", &encrypted).unwrap();
    assert!(!is_invalid);
}

#[test]
fn test_hex_conversion() {
    let encrypted = vec![0x12, 0x34, 0x56, 0x78, 0x9A, 0xBC, 0xDE, 0xF0];
    let hex_string = VncDesProcessor::to_hex_string(&encrypted);
    assert_eq!(hex_string, "123456789abcdef0");

    let decoded = VncDesProcessor::from_hex_string(&hex_string).unwrap();
    assert_eq!(encrypted, decoded);
}

#[test]
fn test_password_processor() {
    let password = "test";
    let encrypted = PasswordProcessor::encrypt_with_default(password).unwrap();
    let decrypted = PasswordProcessor::decrypt_with_default(&encrypted).unwrap();
    assert_eq!(password, decrypted);
}

#[test]
fn test_custom_key() {
    let custom_key = [0x01, 0x02, 0x03, 0x04, 0x05, 0x06, 0x07, 0x08];
    let password = "custom";

    let encrypted = PasswordProcessor::encrypt_with_key(password, &custom_key).unwrap();
    let decrypted = PasswordProcessor::decrypt_with_key(&encrypted, &custom_key).unwrap();

    assert_eq!(password, decrypted);
}

#[test]
fn test_password_truncation() {
    let config = VncDesConfig::new()
        .with_auto_truncate(true)
        .with_max_password_length(4);

    let mut processor = VncDesProcessor::new(config);
    let long_password = "verylongpassword";

    let encrypted = processor.encrypt_password(long_password).unwrap();
    let decrypted = processor.decrypt_password(&encrypted).unwrap();

    assert_eq!(decrypted, "very");
}

fn is_password_length(e: &VncDesError) -> bool {
    matches!(e, VncDesError::InvalidPasswordLength(_))
}

#[test]
fn known_answer_vector_through_processor() {
    let encrypted = PasswordProcessor::encrypt_with_default("test").unwrap();
    assert_eq!(VncDesProcessor::to_hex_string(&encrypted), "2f981dc548e09ec2");
}

#[test]
fn round_trip_over_keys_and_lengths() {
    let keys: [[u8; 8]; 4] = [
        TIGHTVNC_DEFAULT_KEY,
        [0, 0, 0, 0, 0, 0, 0, 0],
        [0xff; 8],
        [0x01, 0x23, 0x45, 0x67, 0x89, 0xab, 0xcd, 0xef],
    ];
    let passwords = ["a", "ab", "abc", "abcd", "abcde", "abcdef", "abcdefg", "abcdefgh", "日本", "é~!"];
    for key in keys.iter() {
        for p in passwords.iter() {
            let encrypted = PasswordProcessor::encrypt_with_key(p, key).unwrap();
            let decrypted = PasswordProcessor::decrypt_with_key(&encrypted, key).unwrap();
            assert_eq!(&decrypted, p);
        }
    }
}

#[test]
fn engine_decrypt_inverts_encrypt() {
    let mut engine = VncDesEngine::new();
    let key = [0x13, 0x34, 0x57, 0x79, 0x9b, 0xbc, 0xdf, 0xf1];
    let block = [0x00, 0x11, 0x22, 0x33, 0x44, 0x55, 0x66, 0x77];
    let mut encrypted = [0u8; 8];
    let mut decrypted = [0u8; 8];
    engine.encrypt(&mut encrypted, &block, &key).unwrap();
    assert_ne!(encrypted, block);
    engine.decrypt(&mut decrypted, &encrypted, &key).unwrap();
    assert_eq!(decrypted, block);
    assert_eq!(engine.subkeys(), [0; 32]);
}

#[test]
fn packing_is_big_endian() {
    let data = [0xde, 0xad, 0xbe, 0xef, 0x00, 0x01, 0x02, 0x03];
    assert_eq!(VncDesEngine::scrunch(&data), [0xdeadbeef, 0x00010203]);
    assert_eq!(VncDesEngine::unscrun(&[0xdeadbeef, 0x00010203]), data);
}

#[test]
fn schedule_is_loaded_and_cleared() {
    let mut engine = VncDesEngine::new();
    engine.deskey(&TIGHTVNC_DEFAULT_KEY, true);
    assert_ne!(engine.subkeys(), [0; 32]);
    engine.clear_key();
    assert_eq!(engine.subkeys(), [0; 32]);
}

#[test]
fn truncation_policy_keeps_first_characters() {
    let config = VncDesConfig::new()
        .with_max_password_length(4)
        .with_auto_truncate(true)
        .with_strict_mode(false);
    let mut processor = VncDesProcessor::new(config);
    let a = processor.encrypt_password("verylongpassword").unwrap();
    let b = processor.encrypt_password("very").unwrap();
    assert_eq!(a, b);
    assert_eq!(processor.decrypt_password(&a).unwrap(), "very");
}

#[test]
fn strict_mode_rejects_overlong_password() {
    let config = VncDesConfig::new()
        .with_auto_truncate(false)
        .with_strict_mode(true)
        .with_max_password_length(4);
    let mut processor = VncDesProcessor::new(config);
    for p in ["abcde", "abcdef", "verylongpassword"] {
        let err = processor.encrypt_password(p).unwrap_err();
        assert!(is_password_length(&err));
    }
    assert!(processor.encrypt_password("abcd").is_ok());
}

#[test]
fn lenient_mode_truncates_overlong_password() {
    let config = VncDesConfig::new()
        .with_auto_truncate(false)
        .with_strict_mode(false)
        .with_max_password_length(4);
    let mut processor = VncDesProcessor::new(config);
    let encrypted = processor.encrypt_password("abcdefghij").unwrap();
    assert_eq!(processor.decrypt_password(&encrypted).unwrap(), "abcd");
    assert_eq!(encrypted, processor.encrypt_password("abcd").unwrap());
}

#[test]
fn empty_password_is_rejected() {
    let err = PasswordProcessor::encrypt_with_default("").unwrap_err();
    assert!(is_password_length(&err));
    let err = PasswordProcessor::verify_with_default("", &[0u8; 8]).unwrap_err();
    assert!(is_password_length(&err));
}

#[test]
fn verification_mismatch_is_false() {
    let encrypted = PasswordProcessor::encrypt_with_default("password123").unwrap();
    assert!(PasswordProcessor::verify_with_default("password123", &encrypted).unwrap());
    assert!(!PasswordProcessor::verify_with_default("wrongpass", &encrypted).unwrap());
    assert!(!PasswordProcessor::verify_with_default("password123", &encrypted[..7]).unwrap());
    let key = [9, 8, 7, 6, 5, 4, 3, 2];
    let other = PasswordProcessor::encrypt_with_key("secret", &key).unwrap();
    assert!(PasswordProcessor::verify_with_key("secret", &other, &key).unwrap());
    assert!(!PasswordProcessor::verify_with_key("secret", &other, &TIGHTVNC_DEFAULT_KEY).unwrap());
}

#[test]
fn ciphertext_of_wrong_length_is_rejected() {
    for len in [0usize, 7, 9, 16] {
        let bytes = vec![0x41u8; len];
        let err = PasswordProcessor::decrypt_with_default(&bytes).unwrap_err();
        assert!(matches!(err, VncDesError::InvalidPasswordFormat(_)));
    }
}

#[test]
fn non_text_decryption_fails() {
    let mut engine = VncDesEngine::new();
    let mut encrypted = [0u8; 8];
    engine
        .encrypt(&mut encrypted, &[0xff, 0xfe, 0, 0, 0, 0, 0, 0], &TIGHTVNC_DEFAULT_KEY)
        .unwrap();
    let err = PasswordProcessor::decrypt_with_default(&encrypted).unwrap_err();
    assert!(matches!(err, VncDesError::DecryptionFailed(_)));
}

#[test]
fn decryption_stops_at_first_zero_byte() {
    let mut engine = VncDesEngine::new();
    let mut encrypted = [0u8; 8];
    engine
        .encrypt(&mut encrypted, &[b'a', b'b', 0, b'c', 0, 0, 0, 0], &TIGHTVNC_DEFAULT_KEY)
        .unwrap();
    assert_eq!(PasswordProcessor::decrypt_with_default(&encrypted).unwrap(), "ab");
}

#[test]
fn mismatched_keys_do_not_round_trip() {
    let keys: [[u8; 8]; 4] = [
        TIGHTVNC_DEFAULT_KEY,
        [0x01, 0x02, 0x03, 0x04, 0x05, 0x06, 0x07, 0x08],
        [0x10, 0x32, 0x54, 0x76, 0x98, 0xba, 0xdc, 0xfe],
        [0x00, 0x00, 0x00, 0x00, 0x00, 0x00, 0x00, 0x01],
    ];
    for (i, k1) in keys.iter().enumerate() {
        for (j, k2) in keys.iter().enumerate() {
            if i == j {
                continue;
            }
            let encrypted = PasswordProcessor::encrypt_with_key("password", k1).unwrap();
            let recovered = PasswordProcessor::decrypt_with_key(&encrypted, k2);
            assert!(!matches!(recovered, Ok(ref s) if s == "password"));
        }
    }
}

#[test]
fn hex_decode_cleans_white_space_and_case() {
    let expected = vec![0x2f, 0x98, 0x1d, 0xc5, 0x48, 0xe0, 0x9e, 0xc2];
    assert_eq!(VncDesProcessor::from_hex_string("2F981DC548E09EC2").unwrap(), expected);
    assert_eq!(VncDesProcessor::from_hex_string("  2f98 1dc5\t48e0 9ec2\n").unwrap(), expected);
    let cleaned: Vec<char> = "2F981dc548e09ec2".chars().collect();
    assert_eq!(VncDesProcessor::from_clean_hex(&cleaned).unwrap(), expected);
}

#[test]
fn hex_decode_rejects_bad_text() {
    for text in ["", "2f981dc548e09ec", "2f981dc548e09ec2a", "2f981dc548e09ecg", "2f981dc548e09eé2", "zzzzzzzzzzzzzzzz"] {
        let err = VncDesProcessor::from_hex_string(text).unwrap_err();
        assert!(matches!(err, VncDesError::HexDecodeError(_)));
    }
    let cleaned: Vec<char> = "2f98 1dc548e09ec2".chars().collect();
    assert!(matches!(VncDesProcessor::from_clean_hex(&cleaned), Err(VncDesError::HexDecodeError(_))));
}

#[test]
fn hex_text_is_lowercase_two_digits_per_byte() {
    assert_eq!(VncDesProcessor::to_hex_string(&[0x00, 0x0f, 0xa0, 0xff]), "000fa0ff");
    assert_eq!(VncDesProcessor::to_hex_string(&[]), "");
    assert_eq!(VncDesConfig::new().key_as_hex(), "17526b06234e5807");
}

#[test]
fn generated_pair_holds_password_and_hex() {
    let mut processor = VncDesProcessor::default();
    let (plain, hex) = processor.generate_test_pair("test").unwrap();
    assert_eq!(plain, "test");
    assert_eq!(hex, "2f981dc548e09ec2");
    assert!(is_password_length(&processor.generate_test_pair("").unwrap_err()));
}

#[test]
fn hex_key_errors() {
    let err = VncDesConfig::new().with_hex_key("0123456789abcdeg").unwrap_err();
    assert!(matches!(err, VncDesError::HexDecodeError(_)));
    let err = VncDesConfig::new().with_hex_key("012").unwrap_err();
    assert!(matches!(err, VncDesError::HexDecodeError(_)));
    let err = VncDesConfig::new().with_hex_key("01234567").unwrap_err();
    assert!(matches!(err, VncDesError::InvalidKeyFormat(_)));
    let err = VncDesConfigBuilder::new().hex_key("0123456789abcdef00").unwrap_err();
    assert!(matches!(err, VncDesError::InvalidKeyFormat(_)));
    assert!(VncDesProcessor::with_hex_key("01234567").is_err());
    let p = VncDesProcessor::with_hex_key("0123456789ABCDEF").unwrap();
    assert_eq!(p.config().encryption_key, [0x01, 0x23, 0x45, 0x67, 0x89, 0xab, 0xcd, 0xef]);
}

#[test]
fn builder_with_key_and_validation() {
    let config = VncDesConfigBuilder::new()
        .hex_key("17526b06234e5807")
        .unwrap()
        .encryption_key([1, 2, 3, 4, 5, 6, 7, 8])
        .max_password_length(8)
        .build()
        .unwrap();
    assert_eq!(config.encryption_key, [1, 2, 3, 4, 5, 6, 7, 8]);
    for bad in [0usize, 257] {
        let err = VncDesConfigBuilder::new().max_password_length(bad).build().unwrap_err();
        assert!(matches!(err, VncDesError::ConfigError(_)));
        let err = VncDesConfig::new().with_max_password_length(bad).validate().unwrap_err();
        assert!(matches!(err, VncDesError::ConfigError(_)));
    }
    assert!(VncDesConfig::new().with_max_password_length(256).validate().is_ok());
    assert!(VncDesConfig::new().with_max_password_length(1).validate().is_ok());
}

#[test]
fn processor_constructors_and_config() {
    let p = VncDesProcessor::with_key([8, 7, 6, 5, 4, 3, 2, 1]);
    assert_eq!(p.config().encryption_key, [8, 7, 6, 5, 4, 3, 2, 1]);
    assert_eq!(p.config().max_password_length, 8);
    let mut q = VncDesProcessor::with_default_config();
    assert_eq!(q.config().encryption_key, TIGHTVNC_DEFAULT_KEY);
    q.set_config(VncDesConfig::new().with_max_password_length(3));
    assert_eq!(q.config().max_password_length, 3);
    let encrypted = q.encrypt_password("abcdef").unwrap();
    assert_eq!(q.decrypt_password(&encrypted).unwrap(), "abc");
}

#[test]
fn error_constructors_keep_their_message() {
    let e = VncDesError::config_error("bad");
    assert!(matches!(e, VncDesError::ConfigError(ref m) if m == "bad"));
    assert!(matches!(VncDesError::encryption_failed("x"), VncDesError::EncryptionFailed(_)));
    assert!(matches!(VncDesError::invalid_key_format("x"), VncDesError::InvalidKeyFormat(_)));
}

#[test]
fn white_space_agrees_with_std() {
    for v in 0u32..=0x10ffff {
        if let Some(c) = char::from_u32(v) {
            assert_eq!(is_white_space(c), c.is_whitespace(), "U+{:04X}", v);
        }
    }
}

#[test]
fn hex_decode_then_encode_gives_lowercase_text() {
    let decoded = VncDesProcessor::from_hex_string(" 2F98\u{a0}1DC5 48e0\u{3000}9EC2 ").unwrap();
    assert_eq!(decoded.len(), 8);
    assert_eq!(VncDesProcessor::to_hex_string(&decoded), "2f981dc548e09ec2");
}

#[test]
fn high_bit_of_each_key_byte_is_ignored() {
    let k1 = [0x01, 0x23, 0x45, 0x67, 0x09, 0x2b, 0x4d, 0x6f];
    let k2 = [0x81, 0xa3, 0xc5, 0xe7, 0x89, 0xab, 0xcd, 0xef];
    let a = PasswordProcessor::encrypt_with_key("password", &k1).unwrap();
    let b = PasswordProcessor::encrypt_with_key("password", &k2).unwrap();
    assert_eq!(a, b);
    assert_eq!(PasswordProcessor::decrypt_with_key(&a, &k2).unwrap(), "password");
    let mut e1 = VncDesEngine::new();
    let mut e2 = VncDesEngine::new();
    e1.deskey(&[0; 8], false);
    e2.deskey(&[0x80; 8], false);
    assert_eq!(e1.subkeys(), e2.subkeys());
}
