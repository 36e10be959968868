//! Sizes of key material, and the context strings that keep the uses of the
//! randomness primitives apart.

use vstd::prelude::*;

verus! {

/// Length of a random generator seed
pub const ED25519_SEED_LENGTH: u64 = 32;

/// The length of an ed25519 `PublicKey`, in bytes.
pub const ED25519_PUBLIC_KEY_LENGTH: u64 = 32;

/// The length of a ed25519 `SecretKey`, in bytes.
pub const ED25519_SECRET_KEY_LENGTH: u64 = 32;

/// The length of an ed25519 `Keypair`, in bytes.
pub const ED25519_KEYPAIR_LENGTH: u64 = ED25519_PUBLIC_KEY_LENGTH + ED25519_SECRET_KEY_LENGTH;

/// The length of a ed25519 `Signature`, in bytes.
pub const ED25519_SIGNATURE_LENGTH: u64 = 64;

/// The length of an "expanded" ed25519 key, `ExpandedSecretKey`, in bytes.
pub const ED25519_EXPANDED_SECRET_KEY_LENGTH: u64 = 64;

/// Size of input SEED for derivation, bytes
pub const SR25519_SEED_SIZE: u64 = 32;

/// Size of CHAINCODE, bytes
pub const SR25519_CHAINCODE_SIZE: u64 = 32;

/// Size of SR25519 PUBLIC KEY, bytes
pub const SR25519_PUBLIC_SIZE: u64 = 32;

/// Size of SR25519 PRIVATE (SECRET) KEY, which consists of [32 bytes key | 32 bytes nonce]
pub const SR25519_SECRET_SIZE: u64 = 64;

/// Size of SR25519 SIGNATURE, bytes
pub const SR25519_SIGNATURE_SIZE: u64 = 64;

/// Size of SR25519 KEYPAIR. [32 bytes key | 32 bytes nonce | 32 bytes public]
pub const SR25519_KEYPAIR_SIZE: u64 = 96;

/// Size of VRF output, bytes
pub const SR25519_VRF_OUTPUT_SIZE: usize = 32;

/// Size of VRF proof, bytes
pub const SR25519_VRF_PROOF_SIZE: usize = 64;

/// Size of VRF raw output, bytes
pub const SR25519_VRF_RAW_OUTPUT_SIZE: u64 = 16;

/// Size of VRF limit, bytes
pub const SR25519_VRF_THRESHOLD_SIZE: u64 = 16;

/// Size of VRF Story limit size
pub const RELAY_VRF_STORY_SIZE: usize = 32;

/// A hard upper bound on num_cores * target_checkers / num_validators
pub const MAX_MODULO_SAMPLES: usize = 40;

/// A static context used to compute the Relay VRF story based on the
/// VRF output included in the header-chain.
///
/// The bytes spell `A&V RC-VRF` in ASCII.
pub const RELAY_VRF_STORY_CONTEXT: [u8; 10] = [0x41, 0x26, 0x56, 0x20, 0x52, 0x43, 0x2d, 0x56, 0x52, 0x46];

/// A static context used for all relay-vrf-modulo VRFs.
///
/// The bytes spell `A&V MOD` in ASCII.
pub const RELAY_VRF_MODULO_CONTEXT: [u8; 7] = [0x41, 0x26, 0x56, 0x20, 0x4d, 0x4f, 0x44];

/// A static context associated with producing randomness for a core.
///
/// The bytes spell `A&V CORE` in ASCII.
pub const CORE_RANDOMNESS_CONTEXT: [u8; 8] = [0x41, 0x26, 0x56, 0x20, 0x43, 0x4f, 0x52, 0x45];

/// A static context used for transcripts indicating assigned availability core.
///
/// The bytes spell `A&V ASSIGNED` in ASCII.
pub const ASSIGNED_CORE_CONTEXT: [u8; 12] = [0x41, 0x26, 0x56, 0x20, 0x41, 0x53, 0x53, 0x49, 0x47, 0x4e, 0x45, 0x44];

/// A static context used for all relay-vrf-modulo VRFs.
///
/// The bytes spell `A&V DELAY` in ASCII.
pub const RELAY_VRF_DELAY_CONTEXT: [u8; 9] = [0x41, 0x26, 0x56, 0x20, 0x44, 0x45, 0x4c, 0x41, 0x59];

/// A static context associated with producing randomness for a tranche.
///
/// The bytes spell `A&V TRANCHE` in ASCII.
pub const TRANCHE_RANDOMNESS_CONTEXT: [u8; 11] = [0x41, 0x26, 0x56, 0x20, 0x54, 0x52, 0x41, 0x4e, 0x43, 0x48, 0x45];

/// A static context associated with producing randomness for a core.
///
/// The bytes spell `A&V CORE v2` in ASCII.
pub const CORE_RANDOMNESS_CONTEXT_V2: [u8; 11] = [0x41, 0x26, 0x56, 0x20, 0x43, 0x4f, 0x52, 0x45, 0x20, 0x76, 0x32];

/// A static context associated with producing randomness for v2 multi-core assignments.
///
/// The bytes spell `A&V ASSIGNED v2` in ASCII.
pub const ASSIGNED_CORE_CONTEXT_V2: [u8; 15] = [0x41, 0x26, 0x56, 0x20, 0x41, 0x53, 0x53, 0x49, 0x47, 0x4e, 0x45, 0x44, 0x20, 0x76, 0x32];

/// A static context used for all relay-vrf-modulo VRFs for v2 multi-core assignments.
///
/// The bytes spell `A&V MOD v2` in ASCII.
pub const RELAY_VRF_MODULO_CONTEXT_V2: [u8; 10] = [0x41, 0x26, 0x56, 0x20, 0x4d, 0x4f, 0x44, 0x20, 0x76, 0x32];

} // verus!
