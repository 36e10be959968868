use indexed_bitfield::constants::{
    ASSIGNED_CORE_CONTEXT, ASSIGNED_CORE_CONTEXT_V2, CORE_RANDOMNESS_CONTEXT,
    CORE_RANDOMNESS_CONTEXT_V2, ED25519_EXPANDED_SECRET_KEY_LENGTH, MAX_MODULO_SAMPLES,
    RELAY_VRF_DELAY_CONTEXT, RELAY_VRF_MODULO_CONTEXT, RELAY_VRF_MODULO_CONTEXT_V2,
    RELAY_VRF_STORY_CONTEXT, RELAY_VRF_STORY_SIZE, SR25519_CHAINCODE_SIZE, SR25519_KEYPAIR_SIZE,
    SR25519_PUBLIC_SIZE, SR25519_SECRET_SIZE, SR25519_SEED_SIZE, SR25519_SIGNATURE_SIZE,
    SR25519_VRF_OUTPUT_SIZE, SR25519_VRF_PROOF_SIZE, SR25519_VRF_RAW_OUTPUT_SIZE,
    SR25519_VRF_THRESHOLD_SIZE, TRANCHE_RANDOMNESS_CONTEXT,
};

#[test]
fn context_strings_spell_their_text() {
    assert_eq!(&RELAY_VRF_STORY_CONTEXT[..], b"A&V RC-VRF");
    assert_eq!(&RELAY_VRF_MODULO_CONTEXT[..], b"A&V MOD");
    assert_eq!(&CORE_RANDOMNESS_CONTEXT[..], b"A&V CORE");
    assert_eq!(&ASSIGNED_CORE_CONTEXT[..], b"A&V ASSIGNED");
    assert_eq!(&RELAY_VRF_DELAY_CONTEXT[..], b"A&V DELAY");
    assert_eq!(&TRANCHE_RANDOMNESS_CONTEXT[..], b"A&V TRANCHE");
    assert_eq!(&CORE_RANDOMNESS_CONTEXT_V2[..], b"A&V CORE v2");
    assert_eq!(&ASSIGNED_CORE_CONTEXT_V2[..], b"A&V ASSIGNED v2");
    assert_eq!(&RELAY_VRF_MODULO_CONTEXT_V2[..], b"A&V MOD v2");
}

#[test]
fn sizes_of_the_other_key_material() {
    assert_eq!(ED25519_EXPANDED_SECRET_KEY_LENGTH, 64);
    assert_eq!(SR25519_SEED_SIZE, 32);
    assert_eq!(SR25519_CHAINCODE_SIZE, 32);
    assert_eq!(SR25519_PUBLIC_SIZE, 32);
    assert_eq!(SR25519_SECRET_SIZE, 64);
    assert_eq!(SR25519_SIGNATURE_SIZE, 64);
    assert_eq!(SR25519_KEYPAIR_SIZE, 96);
    assert_eq!(SR25519_VRF_OUTPUT_SIZE, 32);
    assert_eq!(SR25519_VRF_PROOF_SIZE, 64);
    assert_eq!(SR25519_VRF_RAW_OUTPUT_SIZE, 16);
    assert_eq!(SR25519_VRF_THRESHOLD_SIZE, 16);
    assert_eq!(RELAY_VRF_STORY_SIZE, 32);
    assert_eq!(MAX_MODULO_SAMPLES, 40);
}
