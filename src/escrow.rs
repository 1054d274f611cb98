use vstd::prelude::*;
use crate::errors::ErrorCode;
use crate::types::{Address, Project};

verus! {

/// Moves `amount` lamports from `from` to `to` as one balanced step: either the
/// source loses exactly `amount` and the destination gains exactly `amount`, or,
/// when that would underflow or overflow, neither balance changes.
pub fn transfer_lamports(from: &mut u64, to: &mut u64, amount: u64) -> (r: Result<(), ErrorCode>)
    ensures
        r is Ok <==> *old(from) >= amount && *old(to) + amount <= u64::MAX,
        r is Ok ==> *final(from) == *old(from) - amount && *final(to) == *old(to) + amount,
        r is Err ==> {
            &&& r == Err::<(), ErrorCode>(ErrorCode::MathOverflow)
            &&& *final(from) == *old(from)
            &&& *final(to) == *old(to)
        },
{
    if *from < amount || *to > u64::MAX - amount {
        return Err(ErrorCode::MathOverflow);
    }
    *from = *from - amount;
    *to = *to + amount;
    Ok(())
}

/// Why paying the escrowed fee of `p` out to `caller` is refused, or `None`.
/// Nothing is owed when no fee is held. A pre-assigned verifier is the only
/// party that may collect; without one, any caller cleared by access control may.
pub open spec fn release_error(
    p: Project,
    caller: Address,
    project_lamports: u64,
    caller_lamports: u64,
) -> Option<ErrorCode> {
    let fee = p.verification_fee_lamports;
    if fee == 0 {
        None
    } else if p.verifier matches Some(v) && v != caller {
        Some(ErrorCode::UnauthorizedVerifier)
    } else if project_lamports < fee || caller_lamports + fee > u64::MAX {
        Some(ErrorCode::MathOverflow)
    } else {
        None
    }
}

/// `p` once its escrowed fee has been paid out.
pub open spec fn released(p: Project) -> Project {
    if p.verification_fee_lamports > 0 {
        Project { verification_fee_lamports: 0, audit_escrow_balance: 0, ..p }
    } else {
        p
    }
}

/// Pays the escrowed fee of `project` from the project's balance to the caller's.
pub(crate) fn release_escrow(
    project: &mut Project,
    caller: Address,
    project_lamports: &mut u64,
    caller_lamports: &mut u64,
) -> (r: Result<(), ErrorCode>)
    ensures
        r == crate::errors::outcome(
            release_error(*old(project), caller, *old(project_lamports), *old(caller_lamports)),
        ),
        r is Ok ==> {
            &&& *final(project) == released(*old(project))
            &&& *final(project_lamports) == *old(project_lamports) - old(project).verification_fee_lamports
            &&& *final(caller_lamports) == *old(caller_lamports) + old(project).verification_fee_lamports
        },
        r is Err ==> {
            &&& *final(project) == *old(project)
            &&& *final(project_lamports) == *old(project_lamports)
            &&& *final(caller_lamports) == *old(caller_lamports)
        },
{
    let fee = project.verification_fee_lamports;
    if fee == 0 {
        return Ok(());
    }
    match project.verifier {
        Some(v) => {
            if v != caller {
                return Err(ErrorCode::UnauthorizedVerifier);
            }
        },
        None => {},
    }
    match transfer_lamports(project_lamports, caller_lamports, fee) {
        Ok(()) => {},
        Err(e) => {
            return Err(e);
        },
    }
    project.verification_fee_lamports = 0;
    project.audit_escrow_balance = 0;
    Ok(())
}

} // verus!
