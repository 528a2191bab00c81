use cyborg_oracle_feeder::account::{keypair_from_seed, load_cyborg_test_key};

#[test]
fn test_account_keypair_loading() {
    // The variable holds a valid secret URI
    let result = load_cyborg_test_key(Ok("//Alice".to_string()));
    assert!(result.is_ok(), "Failed to load keypair: {:?}", result.err());

    // Test error case: the variable is not set
    let error_result = load_cyborg_test_key(Err("environment variable not found".to_string()));
    assert!(error_result.is_err(), "Should have failed without env var");

    // Test invalid seed format
    let invalid_result = load_cyborg_test_key(Ok("invalid_seed_format".to_string()));
    assert!(invalid_result.is_err(), "Should have failed with invalid seed");
}

#[test]
fn lookup_failure_message_is_kept() {
    match load_cyborg_test_key(Err("environment variable not found".to_string())) {
        Err(e) => assert_eq!(e.message(), "environment variable not found"),
        Ok(_) => panic!("a failed lookup gives no key"),
    }
}

#[test]
fn malformed_secret_uri_is_refused_with_its_message() {
    match keypair_from_seed("//") {
        Err(e) => assert_eq!(e.message(), "Invalid secret phrase format"),
        Ok(_) => panic!("an empty junction is not a secret URI"),
    }
    assert!(keypair_from_seed("//Bob").is_ok());
}

/// The public key of `//Alice` (the development phrase with the hard junction `Alice`).
const ALICE_PUBLIC: [u8; 32] = [
    0xd4, 0x35, 0x93, 0xc7, 0x15, 0xfd, 0xd3, 0x1c, 0x61, 0x14, 0x1a, 0xbd, 0x04, 0xa9, 0x9f, 0xd6,
    0x82, 0x2c, 0x85, 0x58, 0x85, 0x4c, 0xcd, 0xe3, 0x9a, 0x56, 0x84, 0xe7, 0xa5, 0x6d, 0xa2, 0x7d,
];

#[test]
fn alice_seed_gives_alices_key() {
    let key = keypair_from_seed("//Alice").ok().expect("//Alice is a valid secret URI");
    assert_eq!(key.public_key(), ALICE_PUBLIC);
    let loaded = load_cyborg_test_key(Ok("//Alice".to_string())).ok().unwrap();
    assert_eq!(loaded.public_key(), ALICE_PUBLIC);
    let bob = keypair_from_seed("//Bob").ok().unwrap();
    assert_ne!(bob.public_key(), ALICE_PUBLIC);
}

#[test]
fn parsed_seed_whose_phrase_is_no_mnemonic_is_refused() {
    // "invalid_seed_format" is a well-formed secret URI, but not a BIP-39 phrase
    match keypair_from_seed("invalid_seed_format") {
        Err(e) => assert!(e.message().starts_with("Cannot parse phrase: "), "{}", e.message()),
        Ok(_) => panic!("no key can be derived"),
    }
}
