use vstd::prelude::*;
use vstd::string::StringExecFns;
use crate::directory::{credited, record_success_error, VerificationNode};
use crate::errors::{outcome, ErrorCode};
use crate::escrow::{release_error, release_escrow, released, transfer_lamports};
use crate::types::{pre_verification, Address, ComplianceState, Project, VerificationStatus};

verus! {

/// Health scores below this many hundredths of a point are critical.
pub const CRITICAL_HEALTH_HUNDREDTHS: i64 = 5000;

/// An ecosystem health score, in hundredths of a point.
#[derive(PartialEq, Eq, Structural, Clone, Copy, Debug)]
pub struct HealthScore {
    pub hundredths: i64,
}

/// The score is below the critical threshold.
pub open spec fn critical(h: HealthScore) -> bool {
    h.hundredths < CRITICAL_HEALTH_HUNDREDTHS
}

/// Why a single-verifier approval of `p` by `caller` is refused, or `None`.
pub open spec fn verify_error(
    p: Project,
    caller: Address,
    project_lamports: u64,
    caller_lamports: u64,
) -> Option<ErrorCode> {
    if !(p.verification_status == VerificationStatus::Pending || p.verification_status
        == VerificationStatus::AwaitingAudit) {
        Some(ErrorCode::ProjectAlreadyProcessed)
    } else {
        release_error(p, caller, project_lamports, caller_lamports)
    }
}

/// `p` once verified at `tons` tons, with its escrow paid out.
pub open spec fn verified(p: Project, tons: u64) -> Project {
    Project {
        verification_status: VerificationStatus::Verified,
        carbon_tons_estimated: tons,
        available_quantity: tons,
        ..released(p)
    }
}

/// Why a rejection of `p` by `caller` is refused, or `None`.
pub open spec fn reject_error(
    p: Project,
    caller: Address,
    project_lamports: u64,
    caller_lamports: u64,
) -> Option<ErrorCode> {
    if !pre_verification(p.verification_status) {
        Some(ErrorCode::ProjectAlreadyProcessed)
    } else {
        release_error(p, caller, project_lamports, caller_lamports)
    }
}

/// `p` once rejected, its escrow consumed as the fee for the validation effort.
pub open spec fn rejected(p: Project) -> Project {
    Project { verification_status: VerificationStatus::Rejected, ..released(p) }
}

/// Why funding the verification escrow of `p` with `fee`, paid from
/// `owner_lamports` into the project's `project_lamports`, is refused, or `None`.
pub open spec fn funding_error(p: Project, fee: u64, owner_lamports: u64, project_lamports: u64) -> Option<
    ErrorCode,
> {
    if !pre_verification(p.verification_status) {
        Some(ErrorCode::ProjectAlreadyProcessed)
    } else if owner_lamports < fee {
        Some(ErrorCode::InsufficientFunds)
    } else if p.verification_fee_lamports + fee > u64::MAX || p.audit_escrow_balance + fee
        > u64::MAX || project_lamports + fee > u64::MAX {
        Some(ErrorCode::MathOverflow)
    } else {
        None
    }
}

/// `p` once `fee` more lamports are escrowed and `verifier` is assigned.
pub open spec fn funded(p: Project, verifier: Address, fee: u64) -> Project {
    Project {
        verifier: Some(verifier),
        verification_fee_lamports: (p.verification_fee_lamports + fee) as u64,
        audit_escrow_balance: (p.audit_escrow_balance + fee) as u64,
        verification_status: VerificationStatus::AwaitingAudit,
        ..p
    }
}

/// Why a multi-party approval of `p` by `v` with `rating` is refused, or `None`.
pub open spec fn multi_party_error(p: Project, v: VerificationNode, rating: u8) -> Option<
    ErrorCode,
> {
    if !(p.verification_status == VerificationStatus::Pending || p.verification_status
        == VerificationStatus::UnderReview) {
        Some(ErrorCode::ProjectAlreadyProcessed)
    } else if !v.is_active {
        Some(ErrorCode::VerifierNotActive)
    } else if rating < 1 || rating > 5 {
        Some(ErrorCode::InvalidQualityRating)
    } else {
        record_success_error(v)
    }
}

/// `p` once verified by the multi-party path at `tons` tons with `rating`.
pub open spec fn multi_party_verified(p: Project, tons: u64, rating: u8) -> Project {
    Project {
        verification_status: VerificationStatus::Verified,
        carbon_tons_estimated: tons,
        available_quantity: tons,
        quality_rating: rating,
        ..p
    }
}

/// Statuses that a critical monitoring report moves to `Monitoring`: all but
/// `Monitoring` itself and the terminal `Rejected` and `Expired`.
pub open spec fn demotable(s: VerificationStatus) -> bool {
    s != VerificationStatus::Monitoring && s != VerificationStatus::Rejected && s
        != VerificationStatus::Expired
}

/// `p` after a monitoring report with health `h`: when the health is critical a
/// project that is neither terminal nor already monitored drops to
/// `Monitoring`, with any escrow it holds left in place for an outside
/// resolution; nothing else changes.
pub open spec fn after_monitoring(p: Project, h: HealthScore) -> Project {
    if critical(h) && demotable(p.verification_status) {
        Project { verification_status: VerificationStatus::Monitoring, ..p }
    } else {
        p
    }
}

/// `p` with its compliance state replaced by `c`.
pub open spec fn with_compliance(p: Project, c: ComplianceState) -> Project {
    Project { compliance: c, ..p }
}

/// Approves `project` at `verified_carbon_tons` tons on behalf of `caller`, and
/// pays the escrowed fee from the project's balance to the caller's. The
/// verified figure replaces the declared estimate and the tradeable quantity.
pub fn verify_project(
    project: &mut Project,
    caller: Address,
    verified_carbon_tons: u64,
    project_lamports: &mut u64,
    caller_lamports: &mut u64,
) -> (r: Result<(), ErrorCode>)
    ensures
        r == outcome(
            verify_error(*old(project), caller, *old(project_lamports), *old(caller_lamports)),
        ),
        r is Ok ==> {
            &&& *final(project) == verified(*old(project), verified_carbon_tons)
            &&& *final(project_lamports) == *old(project_lamports) - old(project).verification_fee_lamports
            &&& *final(caller_lamports) == *old(caller_lamports) + old(project).verification_fee_lamports
        },
        r is Err ==> {
            &&& *final(project) == *old(project)
            &&& *final(project_lamports) == *old(project_lamports)
            &&& *final(caller_lamports) == *old(caller_lamports)
        },
{
    if !(project.verification_status == VerificationStatus::Pending
        || project.verification_status == VerificationStatus::AwaitingAudit) {
        return Err(ErrorCode::ProjectAlreadyProcessed);
    }
    match release_escrow(project, caller, project_lamports, caller_lamports) {
        Ok(()) => {},
        Err(e) => {
            return Err(e);
        },
    }
    project.verification_status = VerificationStatus::Verified;
    project.carbon_tons_estimated = verified_carbon_tons;
    project.available_quantity = verified_carbon_tons;
    Ok(())
}

/// Rejects a project that has not been verified yet; its escrowed fee goes to
/// `caller` for the validation effort, under the same authorisation as approval.
pub fn reject_project(
    project: &mut Project,
    caller: Address,
    project_lamports: &mut u64,
    caller_lamports: &mut u64,
) -> (r: Result<(), ErrorCode>)
    ensures
        r == outcome(
            reject_error(*old(project), caller, *old(project_lamports), *old(caller_lamports)),
        ),
        r is Ok ==> {
            &&& *final(project) == rejected(*old(project))
            &&& *final(project_lamports) == *old(project_lamports) - old(project).verification_fee_lamports
            &&& *final(caller_lamports) == *old(caller_lamports) + old(project).verification_fee_lamports
        },
        r is Err ==> {
            &&& *final(project) == *old(project)
            &&& *final(project_lamports) == *old(project_lamports)
            &&& *final(caller_lamports) == *old(caller_lamports)
        },
{
    if !(project.verification_status == VerificationStatus::Pending
        || project.verification_status == VerificationStatus::AwaitingAudit
        || project.verification_status == VerificationStatus::UnderReview) {
        return Err(ErrorCode::ProjectAlreadyProcessed);
    }
    match release_escrow(project, caller, project_lamports, caller_lamports) {
        Ok(()) => {},
        Err(e) => {
            return Err(e);
        },
    }
    project.verification_status = VerificationStatus::Rejected;
    Ok(())
}

/// Checks that `project` can take `fee_lamports` more escrow from an owner
/// holding `owner_lamports`, changing nothing.
pub fn check_initialize_verification(
    project: &Project,
    fee_lamports: u64,
    owner_lamports: u64,
    project_lamports: u64,
) -> (r: Result<(), ErrorCode>)
    ensures
        r == outcome(funding_error(*project, fee_lamports, owner_lamports, project_lamports)),
{
    if !(project.verification_status == VerificationStatus::Pending
        || project.verification_status == VerificationStatus::AwaitingAudit
        || project.verification_status == VerificationStatus::UnderReview) {
        return Err(ErrorCode::ProjectAlreadyProcessed);
    }
    if owner_lamports < fee_lamports {
        return Err(ErrorCode::InsufficientFunds);
    }
    if project.verification_fee_lamports > u64::MAX - fee_lamports || project.audit_escrow_balance
        > u64::MAX - fee_lamports || project_lamports > u64::MAX - fee_lamports {
        return Err(ErrorCode::MathOverflow);
    }
    Ok(())
}

/// Moves `fee_lamports` from the owner's balance into the project's custody,
/// adds it to the escrow, assigns `verifier` as the only party that may collect
/// it, and moves the project to `AwaitingAudit`. On refusal nothing changes.
pub fn initialize_verification(
    project: &mut Project,
    verifier: Address,
    fee_lamports: u64,
    owner_lamports: &mut u64,
    project_lamports: &mut u64,
) -> (r: Result<(), ErrorCode>)
    ensures
        r == outcome(
            funding_error(*old(project), fee_lamports, *old(owner_lamports), *old(project_lamports)),
        ),
        r is Ok ==> {
            &&& *final(project) == funded(*old(project), verifier, fee_lamports)
            &&& *final(owner_lamports) == *old(owner_lamports) - fee_lamports
            &&& *final(project_lamports) == *old(project_lamports) + fee_lamports
        },
        r is Err ==> {
            &&& *final(project) == *old(project)
            &&& *final(owner_lamports) == *old(owner_lamports)
            &&& *final(project_lamports) == *old(project_lamports)
        },
{
    match check_initialize_verification(project, fee_lamports, *owner_lamports, *project_lamports) {
        Ok(()) => {},
        Err(e) => {
            return Err(e);
        },
    }
    match transfer_lamports(owner_lamports, project_lamports, fee_lamports) {
        Ok(()) => {},
        Err(e) => {
            return Err(e);
        },
    }
    project.verifier = Some(verifier);
    project.verification_fee_lamports = project.verification_fee_lamports + fee_lamports;
    project.audit_escrow_balance = project.audit_escrow_balance + fee_lamports;
    project.verification_status = VerificationStatus::AwaitingAudit;
    Ok(())
}

/// Approves `project` through a registered verifier, recording the quality
/// rating and crediting the verifier's count and reputation.
pub fn multi_party_verify_project(
    project: &mut Project,
    verifier: &mut VerificationNode,
    verified_carbon_tons: u64,
    quality_rating: u8,
) -> (r: Result<(), ErrorCode>)
    ensures
        r == outcome(multi_party_error(*old(project), *old(verifier), quality_rating)),
        r is Ok ==> {
            &&& *final(project) == multi_party_verified(
                *old(project),
                verified_carbon_tons,
                quality_rating,
            )
            &&& *final(verifier) == credited(*old(verifier))
        },
        r is Err ==> {
            &&& *final(project) == *old(project)
            &&& *final(verifier) == *old(verifier)
        },
{
    if !(project.verification_status == VerificationStatus::Pending
        || project.verification_status == VerificationStatus::UnderReview) {
        return Err(ErrorCode::ProjectAlreadyProcessed);
    }
    if !verifier.is_active {
        return Err(ErrorCode::VerifierNotActive);
    }
    if quality_rating < 1 || quality_rating > 5 {
        return Err(ErrorCode::InvalidQualityRating);
    }
    match verifier.record_success() {
        Ok(()) => {},
        Err(e) => {
            return Err(e);
        },
    }
    project.verification_status = VerificationStatus::Verified;
    project.carbon_tons_estimated = verified_carbon_tons;
    project.quality_rating = quality_rating;
    project.available_quantity = verified_carbon_tons;
    Ok(())
}

/// Applies a monitoring report's health score to `project`; returns whether
/// the project was moved to `Monitoring`.
pub fn submit_monitoring_data(project: &mut Project, health_score: HealthScore) -> (r: bool)
    ensures
        *final(project) == after_monitoring(*old(project), health_score),
        r == (final(project).verification_status != old(project).verification_status),
{
    if health_score.hundredths < CRITICAL_HEALTH_HUNDREDTHS && project.verification_status
        != VerificationStatus::Monitoring && project.verification_status
        != VerificationStatus::Rejected && project.verification_status
        != VerificationStatus::Expired {
        project.verification_status = VerificationStatus::Monitoring;
        true
    } else {
        false
    }
}

/// Records the government's compliance approval: the national registry id, the
/// export limit and the letter-of-authorisation flag; the audit status becomes
/// "Approved" and the double-counting id becomes `<project>_<registry>_<country>`.
pub fn approve_project_compliance(
    project: &mut Project,
    ccts_registry_id: String,
    authorized_export_limit: u64,
    loa_issued: bool,
) -> (r: ())
    ensures
        final(project).compliance.ccts_registry_id@ == ccts_registry_id@,
        final(project).compliance.authorized_export_limit == authorized_export_limit,
        final(project).compliance.loa_issued == loa_issued,
        final(project).compliance.audit_status@ == "Approved"@,
        final(project).compliance.double_counting_prevention_id@ == old(project).project_id@
            + "_"@ + ccts_registry_id@ + "_"@ + old(project).location.country_code@,
        *final(project) == with_compliance(*old(project), final(project).compliance),
{
    let mut id = project.project_id.clone();
    id.append("_");
    id.append(ccts_registry_id.as_str());
    id.append("_");
    id.append(project.location.country_code.as_str());
    project.compliance.ccts_registry_id = ccts_registry_id;
    project.compliance.authorized_export_limit = authorized_export_limit;
    project.compliance.loa_issued = loa_issued;
    project.compliance.audit_status = String::from_str("Approved");
    project.compliance.double_counting_prevention_id = id;
}

} // verus!
