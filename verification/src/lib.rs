//! Reputation profiles for lending-risk decisions.
//!
//! Every owner identity has at most one profile, stored at an address that is
//! derived from the owner's key.  A profile carries a bounded score, a risk
//! tier, loan and repayment counters and running financial totals.  This crate
//! holds the rules that govern such a profile: its binary layout, the
//! derivation of its address, the check of who may invoke which operation,
//! and the arithmetic of every mutation.  This logic is verified with Verus.
//! The derivation of an address is the host library's: the `address` module
//! states what is taken from it on trust.
//!
//! The crate performs no input or output and keeps no state of its own.  Its
//! host authenticates callers, supplies the time, stores the bytes of each
//! record at its address, and runs at most one operation on a record at a time.

pub mod address;
pub mod codec;
pub mod counter;
pub mod error;
pub mod guard;
pub mod identity;
pub mod instructions;
pub mod layout;
pub mod profile;
pub mod tier;

pub use address::{
    claim_profile_address, derive_profile_address, profile_address_with, proof_for, verify_proof,
    Derivation, PROFILE_LABEL,
};
pub use error::TigerTrustError;
pub use guard::{authorize, Operation, Role};
pub use identity::Identity;
pub use instructions::{
    initialize_user_profile, record_loan, record_repayment, screen_request,
    update_human_verification, update_tiger_score, Deployment, InitializeUserProfile,
    UpdateTigerScore, UpdateUserProfile,
};
pub use layout::{HEADER, RECORD_LEN};
pub use profile::{UserProfile, BASE_SCORE, MAX_SCORE};
pub use tier::Tier;
