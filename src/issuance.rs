use vstd::prelude::*;
use vstd::string::StringExecFns;
use crate::errors::{outcome, ErrorCode};
use crate::types::{GlobalRegistry, Project, VerificationStatus};

verus! {

/// Credit units per verified ton.
pub const SCALE: u64 = 1_000_000;

/// The most credit units a project may ever have minted.
pub open spec fn verified_capacity(p: Project) -> int {
    p.carbon_tons_estimated * SCALE
}

/// The project has not minted beyond its verified capacity.
pub open spec fn within_capacity(p: Project) -> bool {
    p.tokens_minted <= verified_capacity(p)
}

/// The compliance audit of `p` has been approved.
pub open spec fn compliance_approved(p: Project) -> bool {
    p.compliance.audit_status@ == "Approved"@
}

/// The sum of `s`.
pub open spec fn total(s: Seq<u64>) -> int
    decreases s.len(),
{
    if s.len() == 0 {
        0
    } else {
        total(s.drop_last()) + s.last()
    }
}

/// Why issuing `amount` units against `p` is refused, or `None` when it is allowed.
pub open spec fn issuance_error(p: Project, registry: GlobalRegistry, amount: int) -> Option<
    ErrorCode,
> {
    if p.verification_status != VerificationStatus::Verified {
        Some(ErrorCode::ProjectNotVerified)
    } else if !compliance_approved(p) {
        Some(ErrorCode::ComplianceNotApproved)
    } else if p.tokens_minted + amount > verified_capacity(p) {
        Some(ErrorCode::ExceedsVerifiedCapacity)
    } else if p.tokens_minted + amount > u64::MAX || p.credits_issued + amount > u64::MAX
        || registry.total_credits_issued + amount > u64::MAX {
        Some(ErrorCode::MathOverflow)
    } else {
        None
    }
}

/// Why a batch issuance of `amounts` to `recipients` destinations is refused,
/// or `None` when it is allowed. The whole batch is judged by its sum.
pub open spec fn batch_error(
    p: Project,
    registry: GlobalRegistry,
    amounts: Seq<u64>,
    recipients: nat,
) -> Option<ErrorCode> {
    if p.verification_status != VerificationStatus::Verified {
        Some(ErrorCode::ProjectNotVerified)
    } else if !compliance_approved(p) {
        Some(ErrorCode::ComplianceNotApproved)
    } else if recipients != amounts.len() {
        Some(ErrorCode::RecipientCountMismatch)
    } else if total(amounts) > u64::MAX {
        Some(ErrorCode::MathOverflow)
    } else {
        issuance_error(p, registry, total(amounts))
    }
}

/// Why the project-signed issuance of `amount` units is refused, or `None`.
/// It is gated like every issuance, by verification, compliance and capacity.
pub open spec fn owner_mint_error(p: Project, amount: int) -> Option<ErrorCode> {
    if p.verification_status != VerificationStatus::Verified {
        Some(ErrorCode::ProjectNotVerified)
    } else if !compliance_approved(p) {
        Some(ErrorCode::ComplianceNotApproved)
    } else if p.tokens_minted + amount > verified_capacity(p) {
        Some(ErrorCode::ExceedsVerifiedCapacity)
    } else if p.tokens_minted + amount > u64::MAX || p.credits_issued + amount > u64::MAX {
        Some(ErrorCode::MathOverflow)
    } else {
        None
    }
}

/// `p` after `amount` more units were issued against it.
pub open spec fn with_minted(p: Project, amount: int) -> Project {
    Project {
        credits_issued: (p.credits_issued + amount) as u64,
        tokens_minted: (p.tokens_minted + amount) as u64,
        ..p
    }
}

/// `registry` after `amount` more units were issued.
pub open spec fn with_issued(registry: GlobalRegistry, amount: int) -> GlobalRegistry {
    GlobalRegistry {
        total_credits_issued: (registry.total_credits_issued + amount) as u64,
        ..registry
    }
}

/// Partial sums never exceed the whole sum.
pub proof fn lemma_total_prefix(s: Seq<u64>, i: int)
    requires
        0 <= i <= s.len(),
    ensures
        0 <= total(s.subrange(0, i)) <= total(s),
    decreases s.len(),
{
    if s.len() > 0 {
        if i == s.len() {
            assert(s.subrange(0, i) =~= s);
            lemma_total_prefix(s.drop_last(), s.len() - 1);
            assert(s.drop_last().subrange(0, s.len() - 1) =~= s.drop_last());
        } else {
            lemma_total_prefix(s.drop_last(), i);
            assert(s.drop_last().subrange(0, i) =~= s.subrange(0, i));
        }
    }
}

fn audit_approved(p: &Project) -> (r: bool)
    ensures
        r == compliance_approved(*p),
{
    p.compliance.audit_status == String::from_str("Approved")
}

/// Whether `tokens + amount` fits under the verified capacity of `tons` tons.
fn fits_capacity(tokens: u64, amount: u64, tons: u64) -> (r: bool)
    ensures
        r == (tokens + amount <= tons * SCALE),
{
    assert((tons as int) * (SCALE as int) <= 18446744073709551615 * 1000000) by (nonlinear_arith)
        requires
            tons <= 18446744073709551615,
    ;
    (tokens as u128) + (amount as u128) <= (tons as u128) * (SCALE as u128)
}

/// Checks an issuance of `amount` units against the current state, changing
/// nothing. The delegated token mint is to be made only after this succeeds.
pub fn check_mint(project: &Project, registry: &GlobalRegistry, amount: u64) -> (r: Result<
    (),
    ErrorCode,
>)
    ensures
        r == outcome(issuance_error(*project, *registry, amount as int)),
{
    if project.verification_status != VerificationStatus::Verified {
        return Err(ErrorCode::ProjectNotVerified);
    }
    if !audit_approved(project) {
        return Err(ErrorCode::ComplianceNotApproved);
    }
    if !fits_capacity(project.tokens_minted, amount, project.carbon_tons_estimated) {
        return Err(ErrorCode::ExceedsVerifiedCapacity);
    }
    if project.tokens_minted > u64::MAX - amount || project.credits_issued > u64::MAX - amount
        || registry.total_credits_issued > u64::MAX - amount {
        return Err(ErrorCode::MathOverflow);
    }
    Ok(())
}

/// Records the issuance of `amount` units against a verified, compliance-approved
/// project: its issued and minted counters and the registry total all grow by
/// `amount`, or, on refusal, nothing changes.
pub fn mint_verified_credits(project: &mut Project, registry: &mut GlobalRegistry, amount: u64) -> (r:
    Result<(), ErrorCode>)
    ensures
        r == outcome(issuance_error(*old(project), *old(registry), amount as int)),
        r is Ok ==> {
            &&& *final(project) == with_minted(*old(project), amount as int)
            &&& *final(registry) == with_issued(*old(registry), amount as int)
        },
        r is Err ==> {
            &&& *final(project) == *old(project)
            &&& *final(registry) == *old(registry)
        },
{
    match check_mint(project, registry, amount) {
        Ok(()) => {},
        Err(e) => {
            return Err(e);
        },
    }
    project.credits_issued = project.credits_issued + amount;
    project.tokens_minted = project.tokens_minted + amount;
    registry.total_credits_issued = registry.total_credits_issued + amount;
    Ok(())
}

/// Records an issuance signed by the project itself: it needs the project to be
/// verified, compliance-approved and within capacity, and leaves the registry
/// total alone.
pub fn mint_credits(project: &mut Project, amount: u64) -> (r: Result<(), ErrorCode>)
    ensures
        r == outcome(owner_mint_error(*old(project), amount as int)),
        r is Ok ==> *final(project) == with_minted(*old(project), amount as int),
        r is Err ==> *final(project) == *old(project),
{
    if project.verification_status != VerificationStatus::Verified {
        return Err(ErrorCode::ProjectNotVerified);
    }
    if !audit_approved(project) {
        return Err(ErrorCode::ComplianceNotApproved);
    }
    if !fits_capacity(project.tokens_minted, amount, project.carbon_tons_estimated) {
        return Err(ErrorCode::ExceedsVerifiedCapacity);
    }
    if project.tokens_minted > u64::MAX - amount || project.credits_issued > u64::MAX - amount {
        return Err(ErrorCode::MathOverflow);
    }
    project.credits_issued = project.credits_issued + amount;
    project.tokens_minted = project.tokens_minted + amount;
    Ok(())
}

/// The sum of `amounts`, or `None` when it does not fit in a `u64`.
pub fn checked_total(amounts: &Vec<u64>) -> (r: Option<u64>)
    ensures
        r matches Some(t) ==> t == total(amounts@),
        r is None <==> total(amounts@) > u64::MAX,
{
    let mut sum: u64 = 0;
    let mut i: usize = 0;
    while i < amounts.len()
        invariant
            i <= amounts@.len(),
            sum == total(amounts@.subrange(0, i as int)),
        decreases amounts@.len() - i,
    {
        proof {
            assert(amounts@.subrange(0, i + 1).drop_last() =~= amounts@.subrange(0, i as int));
        }
        if sum > u64::MAX - amounts[i] {
            proof {
                lemma_total_prefix(amounts@, i + 1);
            }
            return None;
        }
        sum = sum + amounts[i];
        i += 1;
    }
    proof {
        assert(amounts@.subrange(0, i as int) =~= amounts@);
    }
    Some(sum)
}

/// Checks a batch issuance against the current state, changing nothing, and
/// returns the batch total. The transfers are to be made only after this succeeds.
pub fn check_batch_mint(
    project: &Project,
    registry: &GlobalRegistry,
    amounts: &Vec<u64>,
    recipient_count: usize,
) -> (r: Result<u64, ErrorCode>)
    ensures
        match r {
            Ok(t) => batch_error(*project, *registry, amounts@, recipient_count as nat) is None
                && t == total(amounts@),
            Err(e) => batch_error(*project, *registry, amounts@, recipient_count as nat) == Some(e),
        },
{
    if project.verification_status != VerificationStatus::Verified {
        return Err(ErrorCode::ProjectNotVerified);
    }
    if !audit_approved(project) {
        return Err(ErrorCode::ComplianceNotApproved);
    }
    if recipient_count != amounts.len() {
        return Err(ErrorCode::RecipientCountMismatch);
    }
    let sum = match checked_total(amounts) {
        Some(t) => t,
        None => {
            return Err(ErrorCode::MathOverflow);
        },
    };
    match check_mint(project, registry, sum) {
        Ok(()) => Ok(sum),
        Err(e) => Err(e),
    }
}

/// Records a batch issuance to `recipient_count` destinations: all counters grow
/// by the batch total, which is returned, or, on refusal, nothing changes.
pub fn batch_mint_credits(
    project: &mut Project,
    registry: &mut GlobalRegistry,
    amounts: &Vec<u64>,
    recipient_count: usize,
) -> (r: Result<u64, ErrorCode>)
    ensures
        match r {
            Ok(t) => {
                &&& batch_error(*old(project), *old(registry), amounts@, recipient_count as nat)
                    is None
                &&& t == total(amounts@)
                &&& *final(project) == with_minted(*old(project), t as int)
                &&& *final(registry) == with_issued(*old(registry), t as int)
            },
            Err(e) => {
                &&& batch_error(*old(project), *old(registry), amounts@, recipient_count as nat)
                    == Some(e)
                &&& *final(project) == *old(project)
                &&& *final(registry) == *old(registry)
            },
        },
{
    let sum = match check_batch_mint(project, registry, amounts, recipient_count) {
        Ok(t) => t,
        Err(e) => {
            return Err(e);
        },
    };
    project.credits_issued = project.credits_issued + sum;
    project.tokens_minted = project.tokens_minted + sum;
    registry.total_credits_issued = registry.total_credits_issued + sum;
    Ok(sum)
}

/// The positions of `amounts` that call for a transfer: the non-zero ones, in order.
pub fn batch_mint_transfers(amounts: &Vec<u64>) -> (r: Vec<usize>)
    ensures
        forall|k: int| 0 <= k < r@.len() ==> r@[k] < amounts@.len() && amounts@[r@[k] as int] != 0,
        forall|k: int, l: int| 0 <= k < l < r@.len() ==> r@[k] < r@[l],
        forall|i: int| 0 <= i < amounts@.len() && amounts@[i] != 0 ==> r@.contains(i as usize),
{
    let mut out: Vec<usize> = Vec::new();
    let mut i: usize = 0;
    while i < amounts.len()
        invariant
            i <= amounts@.len(),
            forall|k: int| 0 <= k < out@.len() ==> out@[k] < i && amounts@[out@[k] as int] != 0,
            forall|k: int, l: int| 0 <= k < l < out@.len() ==> out@[k] < out@[l],
            forall|j: int| 0 <= j < i && amounts@[j] != 0 ==> out@.contains(j as usize),
        decreases amounts@.len() - i,
    {
        if amounts[i] != 0 {
            let ghost prev = out@;
            out.push(i);
            proof {
                assert forall|j: int| 0 <= j < i + 1 && amounts@[j] != 0 implies out@.contains(
                    j as usize,
                ) by {
                    if j == i {
                        assert(out@[out@.len() - 1] == j as usize);
                    } else {
                        assert(prev.contains(j as usize));
                        let k = choose|k: int| 0 <= k < prev.len() && prev[k] == j as usize;
                        assert(out@[k] == j as usize);
                    }
                }
            }
        }
        i += 1;
    }
    out
}

} // verus!
