use vstd::prelude::*;

verus! {

/// Every way an operation of the registry can refuse a request.
///
/// A refused operation leaves all state exactly as it found it.
#[derive(PartialEq, Eq, Structural, Clone, Copy, Debug)]
pub enum ErrorCode {
    ProjectNotVerified,
    ExceedsVerifiedCapacity,
    ProjectAlreadyProcessed,
    VerifierNotActive,
    InvalidQualityRating,
    ExceedsAvailableQuantity,
    InvalidEcosystemType,
    InsufficientMonitoringData,
    InvalidCarbonMeasurement,
    ComplianceValidationFailed,
    InsufficientCredits,
    ComplianceNotApproved,
    LiquidityZero,
    MathOverflow,
    SlippageExceeded,
    InsufficientFunds,
    InstructionFailed,
    UserNotActive,
    InsufficientPermissions,
    UnauthorizedVerifier,
    MissingRegistryId,
    RegistryIdMismatch,
    InsufficientVerificationFee,
    InvalidCoordinates,
    UnauthorizedDataSubmission,
    StaleMonitoringData,
    LocationAlreadyClaimed,
    RecipientCountMismatch,
    FieldTooLong,
}

/// The outcome of an operation whose only failure modes are described by `e`.
pub open spec fn outcome(e: Option<ErrorCode>) -> Result<(), ErrorCode> {
    match e {
        Some(code) => Err(code),
        None => Ok(()),
    }
}

} // verus!
