use wallet_core::baker::{generate_baker_keys_answer, BakerKeyVariant, BakerKeysFailure};

#[test]
fn baker_keys_are_handed_back() {
    let keys = "{\"electionVerifyKey\":\"00\"}".to_string();
    assert_eq!(generate_baker_keys_answer(Ok(keys.clone())), keys);
}

#[test]
fn bad_sender_address_is_reported() {
    let r = generate_baker_keys_answer(Err(BakerKeysFailure::SenderAddress(
        "invalid base58 check".to_string(),
    )));
    assert_eq!(r, "unable to generate baker keys due to: unable to parse sender account address: invalid base58 check");
}

#[test]
fn serialization_failure_is_reported() {
    let r = generate_baker_keys_answer(Err(BakerKeysFailure::Serialization("oops".to_string())));
    assert_eq!(r, "unable to generate baker keys due to: unable to serialize baker keys: oops");
}

#[test]
fn variants_are_distinct() {
    assert_ne!(BakerKeyVariant::ADD, BakerKeyVariant::UPDATE);
    assert_eq!(BakerKeyVariant::ADD, BakerKeyVariant::ADD);
}
