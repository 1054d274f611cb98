use vstd::prelude::*;
use crate::errors::ErrorCode;
use crate::types::{Address, ProjectSector, VerifierType};

verus! {

/// Reputation every verifier starts with.
pub const INITIAL_REPUTATION: u64 = 100;

/// Reputation gained per successful verification.
pub const REPUTATION_REWARD: u64 = 10;

/// A verifier's entry in the directory.
#[derive(Clone, Debug)]
pub struct VerificationNode {
    pub verifier_pubkey: Address,
    pub verifier_type: VerifierType,
    pub credentials: Vec<String>,
    pub reputation_score: u64,
    pub verification_count: u64,
    pub is_active: bool,
    pub registration_date: i64,
    pub specializations: Vec<ProjectSector>,
}

/// What a verifier submits to register.
pub struct VerifierData {
    pub verifier_type: VerifierType,
    pub credentials: Vec<String>,
    pub specializations: Vec<ProjectSector>,
}

/// Why crediting `v` with one more verification is refused, or `None`.
pub open spec fn record_success_error(v: VerificationNode) -> Option<ErrorCode> {
    if v.verification_count + 1 > u64::MAX || v.reputation_score + REPUTATION_REWARD > u64::MAX {
        Some(ErrorCode::MathOverflow)
    } else {
        None
    }
}

/// `v` credited with one more successful verification.
pub open spec fn credited(v: VerificationNode) -> VerificationNode {
    VerificationNode {
        verification_count: (v.verification_count + 1) as u64,
        reputation_score: (v.reputation_score + REPUTATION_REWARD) as u64,
        ..v
    }
}

/// Creates the directory entry of `authority`, active, with the starting
/// reputation and no verifications yet. `now` is the ledger's clock.
pub fn register_verifier(authority: Address, verifier_data: VerifierData, now: i64) -> (r:
    VerificationNode)
    ensures
        r.verifier_pubkey == authority,
        r.verifier_type == verifier_data.verifier_type,
        r.credentials == verifier_data.credentials,
        r.specializations == verifier_data.specializations,
        r.reputation_score == INITIAL_REPUTATION,
        r.verification_count == 0,
        r.is_active,
        r.registration_date == now,
{
    VerificationNode {
        verifier_pubkey: authority,
        verifier_type: verifier_data.verifier_type,
        credentials: verifier_data.credentials,
        reputation_score: INITIAL_REPUTATION,
        verification_count: 0,
        is_active: true,
        registration_date: now,
        specializations: verifier_data.specializations,
    }
}

impl VerificationNode {
    /// Counts one more successful verification and raises the reputation by
    /// the reward; refused, with no change, when a counter would overflow.
    pub fn record_success(&mut self) -> (r: Result<(), ErrorCode>)
        ensures
            r == crate::errors::outcome(record_success_error(*old(self))),
            r is Ok ==> *final(self) == credited(*old(self)),
            r is Err ==> *final(self) == *old(self),
    {
        if self.verification_count == u64::MAX || self.reputation_score > u64::MAX
            - REPUTATION_REWARD {
            return Err(ErrorCode::MathOverflow);
        }
        self.verification_count = self.verification_count + 1;
        self.reputation_score = self.reputation_score + REPUTATION_REWARD;
        Ok(())
    }
}

} // verus!
