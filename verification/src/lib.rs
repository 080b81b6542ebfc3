//! A dual-key stealth-address scheme over Curve25519.
//!
//! A sender derives a one-time public key for a receiver from the
//! receiver's public keys and fresh randomness. The receiver scans
//! published outputs with its view key, recognises its own and recovers
//! the scalar that spends them; a signer made of that scalar signs the
//! transfer that sweeps the funds.

pub mod curve;
pub mod derive;
pub mod digest;
pub mod encoding;
pub mod identity;
pub mod point;
pub mod scalar;
pub mod scan;
pub mod signer;
pub mod sweep;
pub mod wipe;

pub use derive::{
    derive_for_claimant, derive_for_initiator, derive_for_initiator_with, derive_for_public_keys,
    hash_to_scalar, scalar_from_digest, ClaimantRecovery, InitiatorOutput,
};
pub use identity::Identity;
pub use point::{DecodeError, PointWrapper};
pub use scalar::ScalarWrapper;
pub use scan::{scan_candidates, try_candidate, CandidateOutput, ScanMatch};
pub use signer::ScalarSigner;
pub use sweep::{
    build_and_sign_sweep_sol_transaction, sign_sweep_message, SweepSolError, SweepSolParams,
    SweepTransaction, MIN_REMAINING_LAMPORTS,
};
