use vstd::prelude::*;

verus! {

/// A 32-byte account address on the host ledger, as its high and low halves.
#[derive(PartialEq, Eq, Structural, Clone, Copy, Debug)]
pub struct Address {
    pub hi: u128,
    pub lo: u128,
}

/// The economic sector a project belongs to.
#[derive(PartialEq, Eq, Structural, Clone, Copy, Debug)]
pub enum ProjectSector {
    BlueCarbon,
    Forestry,
    RenewableEnergy,
    WasteManagement,
    Agriculture,
    Industrial,
}

impl Default for ProjectSector {
    fn default() -> (r: Self)
        ensures
            r == ProjectSector::BlueCarbon,
    {
        ProjectSector::BlueCarbon
    }
}

/// Where a project stands in its lifecycle.
#[derive(PartialEq, Eq, Structural, Clone, Copy, Debug)]
pub enum VerificationStatus {
    Pending,
    AwaitingAudit,
    UnderReview,
    Verified,
    Rejected,
    Monitoring,
    Expired,
}

impl Default for VerificationStatus {
    fn default() -> (r: Self)
        ensures
            r == VerificationStatus::Pending,
    {
        VerificationStatus::Pending
    }
}

/// Statuses from which a project may still be verified, rejected or funded.
pub open spec fn pre_verification(s: VerificationStatus) -> bool {
    s == VerificationStatus::Pending || s == VerificationStatus::AwaitingAudit
        || s == VerificationStatus::UnderReview
}

/// Statuses that only the monitoring trigger (and only from `Verified`) may leave.
pub open spec fn settled(s: VerificationStatus) -> bool {
    s == VerificationStatus::Verified || s == VerificationStatus::Rejected
        || s == VerificationStatus::Expired
}

/// The kind of body that registers as a verifier.
#[derive(PartialEq, Eq, Structural, Clone, Copy, Debug)]
pub enum VerifierType {
    ScientificInstitution,
    GovernmentAgency,
    CertificationBody,
    LocalCommunity,
    TechnicalAuditor,
    ThirdPartyValidator,
}

/// A qualitative benefit a project claims besides carbon.
#[derive(PartialEq, Eq, Structural, Clone, Copy, Debug)]
pub enum CoBenefit {
    BiodiversityConservation,
    CommunityLivelihoods,
    CoastalProtection,
    WaterQuality,
    FisheryEnhancement,
    TourismDevelopment,
    EducationOutreach,
    EnergySecurity,
    AirQualityImprovement,
}

/// The administrative part of a project's location. The coordinates themselves
/// enter the registry only as the spatial cell they fall in.
#[derive(Clone, Debug)]
pub struct GeoLocation {
    pub country_code: String,
    pub region_name: String,
}

/// Government registry and export-authorisation state of a project.
#[derive(Clone, Debug)]
pub struct ComplianceState {
    pub ccts_registry_id: String,
    pub loa_issued: bool,
    pub double_counting_prevention_id: String,
    pub audit_status: String,
    pub authorized_export_limit: u64,
}

/// References to off-chain evidence, filled in by oracles after registration.
#[derive(Clone, Debug)]
pub struct VerificationData {
    pub satellite_data_hash: String,
    pub iot_data_hash: String,
    pub acva_report_cid: String,
    pub last_verification_date: i64,
}

/// The aggregate counters and authorities of the whole registry.
#[derive(Clone, Copy, Debug)]
pub struct GlobalRegistry {
    pub total_credits_issued: u64,
    pub total_projects: u64,
    pub admin: Address,
    pub government_authority: Address,
    pub mint_authority: Address,
    pub carbon_token_mint: Address,
}

/// One registered project and all of its lifecycle state.
#[derive(Clone, Debug)]
pub struct Project {
    pub project_id: String,
    pub owner: Address,
    pub ipfs_cid: String,
    pub carbon_tons_estimated: u64,
    pub verification_status: VerificationStatus,
    pub credits_issued: u64,
    pub tokens_minted: u64,
    pub project_sector: ProjectSector,
    pub location: GeoLocation,
    pub establishment_date: i64,
    pub compliance: ComplianceState,
    pub verifier: Option<Address>,
    pub verification_fee_lamports: u64,
    pub audit_escrow_balance: u64,
    pub verification_data: VerificationData,
    pub vintage_year: u16,
    pub price_per_ton: u64,
    pub available_quantity: u64,
    pub quality_rating: u8,
    pub co_benefits: Vec<CoBenefit>,
}

/// What an owner submits to register a project.
pub struct ProjectRegistrationData {
    pub project_id: String,
    pub ipfs_cid: String,
    pub carbon_tons_estimated: u64,
    pub project_sector: ProjectSector,
    pub location: GeoLocation,
    pub establishment_date: i64,
    pub vintage_year: u16,
    pub price_per_ton: u64,
    pub ccts_registry_id: String,
    pub compliance_id_signature: Vec<u8>,
}

/// The escrow is consistent: the locked balance is exactly the unpaid fee.
pub open spec fn escrow_consistent(p: Project) -> bool {
    p.audit_escrow_balance == p.verification_fee_lamports
}

/// Builds the global registry record with zeroed counters.
pub fn initialize_registry(
    admin: Address,
    government_authority: Address,
    registry_key: Address,
    carbon_token_mint: Address,
) -> (r: GlobalRegistry)
    ensures
        r.total_credits_issued == 0,
        r.total_projects == 0,
        r.admin == admin,
        r.government_authority == government_authority,
        r.mint_authority == registry_key,
        r.carbon_token_mint == carbon_token_mint,
{
    GlobalRegistry {
        total_credits_issued: 0,
        total_projects: 0,
        admin,
        government_authority,
        mint_authority: registry_key,
        carbon_token_mint,
    }
}

} // verus!
