use vstd::prelude::*;
use vstd::string::StringExecFns;
use vstd::utf8::encode_utf8;
use crate::double_counting::DoubleCountingRegistry;
use crate::errors::ErrorCode;
use crate::escrow::transfer_lamports;
use crate::geo::{cell_label, h3_cell_valid, lower_hex};
use crate::types::{
    Address, ComplianceState, GlobalRegistry, Project, ProjectRegistrationData,
    VerificationData, VerificationStatus,
};

verus! {

/// The smallest verification fee a registration may escrow, in lamports.
pub const MINIMUM_VERIFICATION_FEE: u64 = 100_000_000;

/// Longest project identifier, in bytes.
pub const MAX_PROJECT_ID_BYTES: usize = 32;

/// Longest evidence-document reference, in bytes.
pub const MAX_CID_BYTES: usize = 46;

/// Longest country code, in bytes.
pub const MAX_COUNTRY_CODE_BYTES: usize = 4;

/// Longest region name, in bytes.
pub const MAX_REGION_NAME_BYTES: usize = 50;

/// The length of `s` in UTF-8 bytes, as `str::len` reports it.
pub open spec fn byte_len(s: String) -> usize {
    encode_utf8(s@).len() as usize
}

/// The variable-length fields of a registration fit their stored capacities.
pub open spec fn within_caps(data: ProjectRegistrationData) -> bool {
    byte_len(data.project_id) <= MAX_PROJECT_ID_BYTES
        && byte_len(data.ipfs_cid) <= MAX_CID_BYTES
        && byte_len(data.location.country_code) <= MAX_COUNTRY_CODE_BYTES
        && byte_len(data.location.region_name) <= MAX_REGION_NAME_BYTES
}

/// What is wrong with a registration request taken by itself, or `None`.
pub open spec fn request_error(data: ProjectRegistrationData, verification_fee: u64) -> Option<
    ErrorCode,
> {
    if data.ccts_registry_id@.len() == 0 {
        Some(ErrorCode::MissingRegistryId)
    } else if data.project_id@ != data.ccts_registry_id@ {
        Some(ErrorCode::RegistryIdMismatch)
    } else if verification_fee < MINIMUM_VERIFICATION_FEE {
        Some(ErrorCode::InsufficientVerificationFee)
    } else if !within_caps(data) {
        Some(ErrorCode::FieldTooLong)
    } else {
        None
    }
}

/// Why a registration is refused, or `None` when it is accepted. `cell` is the
/// spatial cell of the project's coordinates, `None` when they are not valid.
/// The fee is paid from `owner_lamports` into the project's `project_lamports`.
pub open spec fn register_error(
    data: ProjectRegistrationData,
    verification_fee: u64,
    cell: Option<u64>,
    index: DoubleCountingRegistry,
    registry: GlobalRegistry,
    owner_lamports: u64,
    project_lamports: u64,
) -> Option<ErrorCode> {
    if request_error(data, verification_fee) is Some {
        request_error(data, verification_fee)
    } else if cell is None || !h3_cell_valid(cell->0) {
        Some(ErrorCode::InvalidCoordinates)
    } else if index@.contains(cell->0) {
        Some(ErrorCode::LocationAlreadyClaimed)
    } else if owner_lamports < verification_fee {
        Some(ErrorCode::InsufficientFunds)
    } else if registry.total_projects == u64::MAX || project_lamports + verification_fee
        > u64::MAX {
        Some(ErrorCode::MathOverflow)
    } else {
        None
    }
}

/// `p` is the record that a successful registration creates.
pub open spec fn is_registered(
    p: Project,
    owner: Address,
    data: ProjectRegistrationData,
    verification_fee: u64,
    cell: u64,
) -> bool {
    &&& p.project_id@ == data.project_id@
    &&& p.owner == owner
    &&& p.ipfs_cid@ == data.ipfs_cid@
    &&& p.carbon_tons_estimated == data.carbon_tons_estimated
    &&& p.available_quantity == data.carbon_tons_estimated
    &&& p.project_sector == data.project_sector
    &&& p.location == data.location
    &&& p.establishment_date == data.establishment_date
    &&& p.vintage_year == data.vintage_year
    &&& p.price_per_ton == data.price_per_ton
    &&& p.verification_status == VerificationStatus::AwaitingAudit
    &&& p.credits_issued == 0
    &&& p.tokens_minted == 0
    &&& p.verifier is None
    &&& p.verification_fee_lamports == verification_fee
    &&& p.audit_escrow_balance == verification_fee
    &&& p.compliance.ccts_registry_id@ == data.ccts_registry_id@
    &&& !p.compliance.loa_issued
    &&& p.compliance.double_counting_prevention_id@ == lower_hex(cell as nat)
    &&& p.compliance.audit_status@ == "EscrowFunded"@
    &&& p.compliance.authorized_export_limit == 0
    &&& p.verification_data.satellite_data_hash@.len() == 0
    &&& p.verification_data.iot_data_hash@.len() == 0
    &&& p.verification_data.acva_report_cid@.len() == 0
    &&& p.verification_data.last_verification_date == 0
    &&& p.quality_rating == 0
    &&& p.co_benefits@.len() == 0
}

/// Checks a registration against the current state without changing anything.
pub fn validate_registration(
    data: &ProjectRegistrationData,
    verification_fee: u64,
    cell: Option<u64>,
    index: &DoubleCountingRegistry,
    registry: &GlobalRegistry,
    owner_lamports: u64,
    project_lamports: u64,
) -> (r: Result<(), ErrorCode>)
    ensures
        r == crate::errors::outcome(
            register_error(
                *data,
                verification_fee,
                cell,
                *index,
                *registry,
                owner_lamports,
                project_lamports,
            ),
        ),
{
    if data.ccts_registry_id.as_str().is_empty() {
        return Err(ErrorCode::MissingRegistryId);
    }
    if !(data.project_id == data.ccts_registry_id) {
        return Err(ErrorCode::RegistryIdMismatch);
    }
    if verification_fee < MINIMUM_VERIFICATION_FEE {
        return Err(ErrorCode::InsufficientVerificationFee);
    }
    if data.project_id.as_str().len() > MAX_PROJECT_ID_BYTES
        || data.ipfs_cid.as_str().len() > MAX_CID_BYTES
        || data.location.country_code.as_str().len() > MAX_COUNTRY_CODE_BYTES
        || data.location.region_name.as_str().len() > MAX_REGION_NAME_BYTES
    {
        return Err(ErrorCode::FieldTooLong);
    }
    let c = match cell {
        Some(c) => c,
        None => {
            return Err(ErrorCode::InvalidCoordinates);
        },
    };
    if cell_label(c).is_none() {
        return Err(ErrorCode::InvalidCoordinates);
    }
    if index.is_claimed(c) {
        return Err(ErrorCode::LocationAlreadyClaimed);
    }
    if owner_lamports < verification_fee {
        return Err(ErrorCode::InsufficientFunds);
    }
    if registry.total_projects == u64::MAX || project_lamports > u64::MAX - verification_fee {
        return Err(ErrorCode::MathOverflow);
    }
    Ok(())
}

/// Registers a project owned by `owner`: claims its spatial cell, moves the
/// verification fee from the owner's balance into the project's custody, and
/// creates its record in `AwaitingAudit` with that fee in escrow. The project
/// count of `registry` goes up by one. On refusal nothing changes.
pub fn register_project(
    owner: Address,
    data: ProjectRegistrationData,
    verification_fee: u64,
    cell: Option<u64>,
    index: &mut DoubleCountingRegistry,
    registry: &mut GlobalRegistry,
    owner_lamports: &mut u64,
    project_lamports: &mut u64,
) -> (r: Result<Project, ErrorCode>)
    ensures
        match r {
            Ok(p) => {
                &&& register_error(
                    data,
                    verification_fee,
                    cell,
                    *old(index),
                    *old(registry),
                    *old(owner_lamports),
                    *old(project_lamports),
                ) is None
                &&& is_registered(p, owner, data, verification_fee, cell->0)
                &&& final(index)@ == old(index)@.push(cell->0)
                &&& final(index).manager() == old(index).manager()
                &&& *final(registry) == (GlobalRegistry {
                    total_projects: (old(registry).total_projects + 1) as u64,
                    ..*old(registry)
                })
                &&& *final(owner_lamports) == *old(owner_lamports) - verification_fee
                &&& *final(project_lamports) == *old(project_lamports) + verification_fee
            },
            Err(e) => {
                &&& register_error(
                    data,
                    verification_fee,
                    cell,
                    *old(index),
                    *old(registry),
                    *old(owner_lamports),
                    *old(project_lamports),
                ) == Some(e)
                &&& *final(index) == *old(index)
                &&& *final(registry) == *old(registry)
                &&& *final(owner_lamports) == *old(owner_lamports)
                &&& *final(project_lamports) == *old(project_lamports)
            },
        },
{
    match validate_registration(
        &data,
        verification_fee,
        cell,
        index,
        registry,
        *owner_lamports,
        *project_lamports,
    ) {
        Ok(()) => {},
        Err(e) => {
            return Err(e);
        },
    }
    let c = cell.unwrap();
    let label = match cell_label(c) {
        Some(s) => s,
        None => {
            return Err(ErrorCode::InvalidCoordinates);
        },
    };
    match transfer_lamports(owner_lamports, project_lamports, verification_fee) {
        Ok(()) => {},
        Err(e) => {
            return Err(e);
        },
    }
    match index.claim(c) {
        Ok(()) => {},
        Err(e) => {
            return Err(e);
        },
    }
    registry.total_projects = registry.total_projects + 1;
    let tons = data.carbon_tons_estimated;
    let compliance = ComplianceState {
        ccts_registry_id: data.ccts_registry_id,
        loa_issued: false,
        double_counting_prevention_id: label,
        audit_status: String::from_str("EscrowFunded"),
        authorized_export_limit: 0,
    };
    let verification_data = VerificationData {
        satellite_data_hash: String::new(),
        iot_data_hash: String::new(),
        acva_report_cid: String::new(),
        last_verification_date: 0,
    };
    Ok(Project {
        project_id: data.project_id,
        owner,
        ipfs_cid: data.ipfs_cid,
        carbon_tons_estimated: tons,
        verification_status: VerificationStatus::AwaitingAudit,
        credits_issued: 0,
        tokens_minted: 0,
        project_sector: data.project_sector,
        location: data.location,
        establishment_date: data.establishment_date,
        compliance,
        verifier: None,
        verification_fee_lamports: verification_fee,
        audit_escrow_balance: verification_fee,
        verification_data,
        vintage_year: data.vintage_year,
        price_per_ton: data.price_per_ton,
        available_quantity: tons,
        quality_rating: 0,
        co_benefits: Vec::new(),
    })
}

} // verus!
