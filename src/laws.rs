use vstd::prelude::*;
use crate::directory::VerificationNode;
use crate::double_counting::DoubleCountingRegistry;
use crate::errors::ErrorCode;
use crate::issuance::{
    batch_error, issuance_error, owner_mint_error, lemma_total_prefix, total, verified_capacity, with_issued,
    with_minted, within_capacity,
};
use crate::lifecycle::{
    after_monitoring, funded, funding_error, multi_party_error, multi_party_verified,
    reject_error, rejected, verified, verify_error, with_compliance, HealthScore,
};
use crate::geo::h3_cell_valid;
use crate::registration::{is_registered, register_error, request_error};
use crate::types::{
    escrow_consistent, pre_verification, settled, Address, ComplianceState, GlobalRegistry, Project, ProjectRegistrationData,
    VerificationStatus,
};

verus! {

/// One issuance request against a project.
pub enum MintCall {
    /// A compliance-gated issuance of one amount.
    Verified(u64),
    /// A compliance-gated batch issuance of amounts to a number of recipients.
    Batch(Seq<u64>, usize),
    /// An issuance signed by the project itself.
    ProjectSigned(u64),
}

/// The project and registry after one issuance request: the new state when it
/// is accepted, the same state when it is refused.
pub open spec fn mint_step(p: Project, registry: GlobalRegistry, call: MintCall) -> (
    Project,
    GlobalRegistry,
) {
    match call {
        MintCall::Verified(amount) => if issuance_error(p, registry, amount as int) is None {
            (with_minted(p, amount as int), with_issued(registry, amount as int))
        } else {
            (p, registry)
        },
        MintCall::Batch(amounts, recipients) => if batch_error(
            p,
            registry,
            amounts,
            recipients as nat,
        ) is None {
            (with_minted(p, total(amounts)), with_issued(registry, total(amounts)))
        } else {
            (p, registry)
        },
        MintCall::ProjectSigned(amount) => if owner_mint_error(p, amount as int) is None {
            (with_minted(p, amount as int), registry)
        } else {
            (p, registry)
        },
    }
}

/// The project and registry after `calls`, in order.
pub open spec fn run_mints(p: Project, registry: GlobalRegistry, calls: Seq<MintCall>) -> (
    Project,
    GlobalRegistry,
)
    decreases calls.len(),
{
    if calls.len() == 0 {
        (p, registry)
    } else {
        let next = mint_step(p, registry, calls[0]);
        run_mints(next.0, next.1, calls.subrange(1, calls.len() as int))
    }
}

/// One accepted or refused issuance request keeps a project within capacity.
proof fn lemma_mint_step_capacity(p: Project, registry: GlobalRegistry, call: MintCall)
    requires
        within_capacity(p),
    ensures
        within_capacity(mint_step(p, registry, call).0),
{
    if let MintCall::Batch(amounts, _) = call {
        lemma_total_prefix(amounts, 0);
    }
}

/// However issuance requests are sequenced, a project that starts within its
/// verified capacity never has more units minted than that capacity.
pub proof fn capacity_invariant(p: Project, registry: GlobalRegistry, calls: Seq<MintCall>)
    requires
        within_capacity(p),
    ensures
        within_capacity(run_mints(p, registry, calls).0),
    decreases calls.len(),
{
    if calls.len() > 0 {
        let next = mint_step(p, registry, calls[0]);
        lemma_mint_step_capacity(p, registry, calls[0]);
        capacity_invariant(next.0, next.1, calls.subrange(1, calls.len() as int));
    }
}

/// What holds of every project record between operations: the escrow equals
/// the unpaid fee, minting stays within verified capacity, and nothing is
/// minted before verification.
pub open spec fn record_invariant(p: Project) -> bool {
    &&& escrow_consistent(p)
    &&& within_capacity(p)
    &&& pre_verification(p.verification_status) ==> p.tokens_minted == 0
}

/// A freshly registered record satisfies the record invariant, and every
/// accepted operation on a record preserves it (a refused one changes nothing).
pub proof fn record_invariant_preserved(
    p: Project,
    registry: GlobalRegistry,
    owner: Address,
    data: ProjectRegistrationData,
    fee: u64,
    cell: u64,
    caller: Address,
    tons: u64,
    project_lamports: u64,
    caller_lamports: u64,
    assigned: Address,
    node: VerificationNode,
    rating: u8,
    health: HealthScore,
    call: MintCall,
    compliance: ComplianceState,
)
    ensures
        is_registered(p, owner, data, fee, cell) ==> record_invariant(p),
        record_invariant(p) ==> {
            &&& verify_error(p, caller, project_lamports, caller_lamports) is None ==> record_invariant(
                verified(p, tons),
            )
            &&& reject_error(p, caller, project_lamports, caller_lamports) is None ==> record_invariant(
                rejected(p),
            )
            &&& funding_error(p, fee, caller_lamports, project_lamports) is None ==> record_invariant(funded(p, assigned, fee))
            &&& multi_party_error(p, node, rating) is None ==> record_invariant(
                multi_party_verified(p, tons, rating),
            )
            &&& record_invariant(after_monitoring(p, health))
            &&& record_invariant(mint_step(p, registry, call).0)
            &&& record_invariant(with_compliance(p, compliance))
        },
{
    if record_invariant(p) {
        lemma_mint_step_capacity(p, registry, call);
    }
}

/// A funded escrow is paid out once: the approval or rejection that pays it
/// leaves the escrow and the fee at zero, and after it no approval, rejection
/// or new funding of the project is accepted.
pub proof fn escrow_single_release(
    p: Project,
    caller: Address,
    tons: u64,
    project_lamports: u64,
    caller_lamports: u64,
    later_caller: Address,
    later_project_lamports: u64,
    later_caller_lamports: u64,
    later_fee: u64,
    later_owner_lamports: u64,
)
    ensures
        verify_error(p, caller, project_lamports, caller_lamports) is None ==> {
            let q = verified(p, tons);
            &&& q.audit_escrow_balance == 0 || p.verification_fee_lamports == 0
            &&& q.verification_fee_lamports == 0
            &&& verify_error(q, later_caller, later_project_lamports, later_caller_lamports)
                == Some(ErrorCode::ProjectAlreadyProcessed)
            &&& reject_error(q, later_caller, later_project_lamports, later_caller_lamports)
                == Some(ErrorCode::ProjectAlreadyProcessed)
            &&& funding_error(q, later_fee, later_owner_lamports, later_project_lamports) == Some(ErrorCode::ProjectAlreadyProcessed)
        },
        reject_error(p, caller, project_lamports, caller_lamports) is None ==> {
            let q = rejected(p);
            &&& q.audit_escrow_balance == 0 || p.verification_fee_lamports == 0
            &&& q.verification_fee_lamports == 0
            &&& verify_error(q, later_caller, later_project_lamports, later_caller_lamports)
                == Some(ErrorCode::ProjectAlreadyProcessed)
            &&& reject_error(q, later_caller, later_project_lamports, later_caller_lamports)
                == Some(ErrorCode::ProjectAlreadyProcessed)
            &&& funding_error(q, later_fee, later_owner_lamports, later_project_lamports) == Some(ErrorCode::ProjectAlreadyProcessed)
        },
{
}

/// Two registrations whose coordinates fall in the same unclaimed cell, in
/// either order: the first, when its request is sound, its fee is covered and
/// the project count can grow, is accepted; the second is then refused, with a
/// claim collision when its own request is sound; and the cell is recorded once.
pub proof fn spatial_dedup(
    first: ProjectRegistrationData,
    first_fee: u64,
    first_owner_lamports: u64,
    first_project_lamports: u64,
    second: ProjectRegistrationData,
    second_fee: u64,
    second_owner_lamports: u64,
    second_project_lamports: u64,
    cell: u64,
    index: DoubleCountingRegistry,
    registry: GlobalRegistry,
    later_index: DoubleCountingRegistry,
    later_registry: GlobalRegistry,
)
    requires
        request_error(first, first_fee) is None,
        h3_cell_valid(cell),
        !index@.contains(cell),
        index@.no_duplicates(),
        registry.total_projects < u64::MAX,
        first_owner_lamports >= first_fee,
        first_project_lamports + first_fee <= u64::MAX,
        later_index@ == index@.push(cell),
    ensures
        register_error(
            first,
            first_fee,
            Some(cell),
            index,
            registry,
            first_owner_lamports,
            first_project_lamports,
        ) is None,
        register_error(
            second,
            second_fee,
            Some(cell),
            later_index,
            later_registry,
            second_owner_lamports,
            second_project_lamports,
        ) is Some,
        request_error(second, second_fee) is None ==> register_error(
            second,
            second_fee,
            Some(cell),
            later_index,
            later_registry,
            second_owner_lamports,
            second_project_lamports,
        ) == Some(ErrorCode::LocationAlreadyClaimed),
        later_index@.contains(cell),
        later_index@.no_duplicates(),
{
    assert(later_index@[index@.len() as int] == cell);
    assert forall|a: int, b: int| 0 <= a < b < later_index@.len() implies later_index@[a]
        != later_index@[b] by {
        if b == index@.len() {
            assert(later_index@[a] == index@[a]);
        }
    }
}

/// A project that is verified, rejected, expired or under monitoring keeps its
/// status under every operation, with one exception: a critical monitoring
/// report moves a verified project to `Monitoring`.
pub proof fn status_monotonic(
    p: Project,
    caller: Address,
    tons: u64,
    project_lamports: u64,
    caller_lamports: u64,
    fee: u64,
    node: VerificationNode,
    rating: u8,
    health: HealthScore,
    amount: u64,
    amounts: Seq<u64>,
    compliance: ComplianceState,
)
    requires
        settled(p.verification_status) || p.verification_status == VerificationStatus::Monitoring,
    ensures
        verify_error(p, caller, project_lamports, caller_lamports) is Some,
        reject_error(p, caller, project_lamports, caller_lamports) is Some,
        funding_error(p, fee, project_lamports, caller_lamports) is Some,
        multi_party_error(p, node, rating) is Some,
        with_minted(p, amount as int).verification_status == p.verification_status,
        with_minted(p, total(amounts)).verification_status == p.verification_status,
        with_compliance(p, compliance).verification_status == p.verification_status,
        after_monitoring(p, health).verification_status == p.verification_status || (
        p.verification_status == VerificationStatus::Verified && after_monitoring(
            p,
            health,
        ).verification_status == VerificationStatus::Monitoring),
{
}

} // verus!
