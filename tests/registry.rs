use accord_registry::directory::{register_verifier, VerificationNode, VerifierData};
use accord_registry::double_counting::DoubleCountingRegistry;
use accord_registry::errors::ErrorCode;
use accord_registry::escrow::transfer_lamports;
use accord_registry::issuance::{
    batch_mint_credits, batch_mint_transfers, check_batch_mint, check_mint, checked_total,
    mint_credits, mint_verified_credits,
};
use accord_registry::lifecycle::{
    approve_project_compliance, initialize_verification, multi_party_verify_project,
    reject_project, submit_monitoring_data, verify_project, HealthScore,
};
use accord_registry::registration::{register_project, validate_registration};
use accord_registry::types::{
    initialize_registry, Address, GeoLocation, GlobalRegistry, Project, ProjectRegistrationData,
    ProjectSector, VerificationStatus, VerifierType,
};
use h3o::{LatLng, Resolution};

fn addr(n: u128) -> Address {
    Address { hi: 0, lo: n }
}

fn cell_at(lat: f64, lng: f64) -> Option<u64> {
    LatLng::new(lat, lng).ok().map(|c| u64::from(c.to_cell(Resolution::Eight)))
}

fn request(id: &str) -> ProjectRegistrationData {
    ProjectRegistrationData {
        project_id: id.to_string(),
        ipfs_cid: "QmEvidence".to_string(),
        carbon_tons_estimated: 5000,
        project_sector: ProjectSector::BlueCarbon,
        location: GeoLocation { country_code: "SG".to_string(), region_name: "Coast".to_string() },
        establishment_date: 1_600_000_000,
        vintage_year: 2024,
        price_per_ton: 25,
        ccts_registry_id: id.to_string(),
        compliance_id_signature: vec![1, 2, 3],
    }
}

fn wallet() -> u64 {
    1_000_000_000
}

fn fresh() -> (DoubleCountingRegistry, GlobalRegistry) {
    (DoubleCountingRegistry::new(addr(1)), initialize_registry(addr(1), addr(2), addr(3), addr(4)))
}

fn registered_p1() -> (Project, DoubleCountingRegistry, GlobalRegistry) {
    let (mut index, mut registry) = fresh();
    let p = register_project(
        addr(10),
        request("P1"),
        100_000_000,
        cell_at(1.0, 103.0),
        &mut index,
        &mut registry,
        &mut wallet(),
        &mut 0,
    )
    .unwrap();
    (p, index, registry)
}

fn verified_p1() -> (Project, GlobalRegistry) {
    let (mut p, _, registry) = registered_p1();
    let mut project_lamports: u64 = 200_000_000;
    let mut caller_lamports: u64 = 0;
    verify_project(&mut p, addr(20), 1000, &mut project_lamports, &mut caller_lamports).unwrap();
    (p, registry)
}

fn approved_p1() -> (Project, GlobalRegistry) {
    let (mut p, registry) = verified_p1();
    approve_project_compliance(&mut p, "P1".to_string(), 500, true);
    (p, registry)
}

#[test]
fn scenario_register_and_collide() {
    let (mut index, mut registry) = fresh();
    let cell = cell_at(1.0, 103.0);
    let p = register_project(addr(10), request("P1"), 100_000_000, cell, &mut index, &mut registry, &mut wallet(), &mut 0)
        .unwrap();
    assert_eq!(p.verification_status, VerificationStatus::AwaitingAudit);
    assert_eq!(p.audit_escrow_balance, 100_000_000);
    assert_eq!(p.verification_fee_lamports, 100_000_000);
    assert_eq!(*index.locations(), vec![cell.unwrap()]);
    assert_eq!(registry.total_projects, 1);
    let second =
        register_project(addr(11), request("P2"), 100_000_000, cell, &mut index, &mut registry, &mut wallet(), &mut 0);
    assert_eq!(second.err(), Some(ErrorCode::LocationAlreadyClaimed));
    assert_eq!(index.locations().len(), 1);
    assert_eq!(registry.total_projects, 1);
}

#[test]
fn registration_record_fields() {
    let (p, _, _) = registered_p1();
    let cell = cell_at(1.0, 103.0).unwrap();
    assert_eq!(p.project_id, "P1");
    assert_eq!(p.owner, addr(10));
    assert_eq!(p.carbon_tons_estimated, 5000);
    assert_eq!(p.available_quantity, 5000);
    assert_eq!(p.tokens_minted, 0);
    assert_eq!(p.credits_issued, 0);
    assert_eq!(p.verifier, None);
    assert_eq!(p.compliance.audit_status, "EscrowFunded");
    assert_eq!(p.compliance.ccts_registry_id, "P1");
    assert_eq!(p.compliance.double_counting_prevention_id, format!("{:x}", cell));
    assert_ne!(p.compliance.double_counting_prevention_id, cell.to_string());
    assert_eq!(p.quality_rating, 0);
    assert!(p.co_benefits.is_empty());
}

#[test]
fn scenario_verify_releases_escrow() {
    let (mut p, _, _) = registered_p1();
    let mut project_lamports: u64 = 150_000_000;
    let mut caller_lamports: u64 = 7;
    let r = verify_project(&mut p, addr(20), 1000, &mut project_lamports, &mut caller_lamports);
    assert_eq!(r, Ok(()));
    assert_eq!(p.verification_status, VerificationStatus::Verified);
    assert_eq!(p.carbon_tons_estimated, 1000);
    assert_eq!(p.available_quantity, 1000);
    assert_eq!(p.audit_escrow_balance, 0);
    assert_eq!(p.verification_fee_lamports, 0);
    assert_eq!(project_lamports, 50_000_000);
    assert_eq!(caller_lamports, 100_000_007);
}

#[test]
fn assigned_verifier_alone_collects() {
    let (mut p, _, _) = registered_p1();
    initialize_verification(&mut p, addr(30), 0, &mut wallet(), &mut 0).unwrap();
    assert_eq!(p.verifier, Some(addr(30)));
    let mut project_lamports: u64 = 100_000_000;
    let mut other_lamports: u64 = 0;
    let r = verify_project(&mut p, addr(31), 1000, &mut project_lamports, &mut other_lamports);
    assert_eq!(r, Err(ErrorCode::UnauthorizedVerifier));
    assert_eq!(p.verification_status, VerificationStatus::AwaitingAudit);
    assert_eq!(p.audit_escrow_balance, 100_000_000);
    assert_eq!((project_lamports, other_lamports), (100_000_000, 0));
    let mut verifier_lamports: u64 = 0;
    verify_project(&mut p, addr(30), 1000, &mut project_lamports, &mut verifier_lamports).unwrap();
    assert_eq!((project_lamports, verifier_lamports), (0, 100_000_000));
}

#[test]
fn escrow_released_only_once() {
    let (mut p, _, _) = registered_p1();
    let mut project_lamports: u64 = 100_000_000;
    let mut caller_lamports: u64 = 0;
    verify_project(&mut p, addr(20), 1000, &mut project_lamports, &mut caller_lamports).unwrap();
    let again = verify_project(&mut p, addr(20), 1000, &mut project_lamports, &mut caller_lamports);
    assert_eq!(again, Err(ErrorCode::ProjectAlreadyProcessed));
    let reject = reject_project(&mut p, addr(20), &mut project_lamports, &mut caller_lamports);
    assert_eq!(reject, Err(ErrorCode::ProjectAlreadyProcessed));
    assert_eq!((project_lamports, caller_lamports), (0, 100_000_000));
    assert_eq!(p.audit_escrow_balance, 0);
}

#[test]
fn escrow_payout_underflow_changes_nothing() {
    let (mut p, _, _) = registered_p1();
    let mut project_lamports: u64 = 99;
    let mut caller_lamports: u64 = 0;
    let r = verify_project(&mut p, addr(20), 1000, &mut project_lamports, &mut caller_lamports);
    assert_eq!(r, Err(ErrorCode::MathOverflow));
    assert_eq!(p.verification_status, VerificationStatus::AwaitingAudit);
    assert_eq!(p.carbon_tons_estimated, 5000);
    assert_eq!((project_lamports, caller_lamports), (99, 0));
}

#[test]
fn reject_consumes_escrow_and_is_terminal() {
    let (mut p, _, _) = registered_p1();
    let mut project_lamports: u64 = 100_000_000;
    let mut caller_lamports: u64 = 0;
    reject_project(&mut p, addr(20), &mut project_lamports, &mut caller_lamports).unwrap();
    assert_eq!(p.verification_status, VerificationStatus::Rejected);
    assert_eq!(p.audit_escrow_balance, 0);
    assert_eq!(caller_lamports, 100_000_000);
    let v = verify_project(&mut p, addr(20), 10, &mut project_lamports, &mut caller_lamports);
    assert_eq!(v, Err(ErrorCode::ProjectAlreadyProcessed));
    assert_eq!(initialize_verification(&mut p, addr(30), 5, &mut wallet(), &mut 0), Err(ErrorCode::ProjectAlreadyProcessed));
    assert!(!submit_monitoring_data(&mut p, HealthScore { hundredths: 0 }));
    assert_eq!(p.verification_status, VerificationStatus::Rejected);
}

#[test]
fn scenario_capacity_bounds_minting() {
    let (mut p, mut registry) = approved_p1();
    let r = mint_verified_credits(&mut p, &mut registry, 1_500_000_000);
    assert_eq!(r, Err(ErrorCode::ExceedsVerifiedCapacity));
    assert_eq!(p.tokens_minted, 0);
    assert_eq!(mint_verified_credits(&mut p, &mut registry, 900_000_000), Ok(()));
    assert_eq!(mint_verified_credits(&mut p, &mut registry, 100_000_000), Ok(()));
    assert_eq!(p.tokens_minted, 1_000_000_000);
    assert_eq!(p.credits_issued, 1_000_000_000);
    assert_eq!(registry.total_credits_issued, 1_000_000_000);
    assert_eq!(mint_verified_credits(&mut p, &mut registry, 1), Err(ErrorCode::ExceedsVerifiedCapacity));
    assert_eq!(p.tokens_minted, 1_000_000_000);
}

#[test]
fn scenario_monitoring_demotes_verified() {
    let (mut p, mut registry) = approved_p1();
    assert!(!submit_monitoring_data(&mut p, HealthScore { hundredths: 5000 }));
    assert_eq!(p.verification_status, VerificationStatus::Verified);
    assert!(submit_monitoring_data(&mut p, HealthScore { hundredths: 4200 }));
    assert_eq!(p.verification_status, VerificationStatus::Monitoring);
    assert!(!submit_monitoring_data(&mut p, HealthScore { hundredths: 4200 }));
    assert_eq!(p.verification_status, VerificationStatus::Monitoring);
    assert_eq!(mint_verified_credits(&mut p, &mut registry, 1), Err(ErrorCode::ProjectNotVerified));
}

#[test]
fn mint_gates() {
    let (mut p, _, mut registry) = registered_p1();
    assert_eq!(check_mint(&p, &registry, 1), Err(ErrorCode::ProjectNotVerified));
    let (mut q, mut registry2) = verified_p1();
    assert_eq!(mint_verified_credits(&mut q, &mut registry2, 1), Err(ErrorCode::ComplianceNotApproved));
    assert_eq!(mint_credits(&mut p, 1), Err(ErrorCode::ProjectNotVerified));
    let (mut a, _) = approved_p1();
    registry.total_credits_issued = u64::MAX;
    assert_eq!(mint_verified_credits(&mut a, &mut registry, 1), Err(ErrorCode::MathOverflow));
    assert_eq!(a.tokens_minted, 0);
}

#[test]
fn owner_mint_counts_without_registry() {
    let (mut p, registry) = approved_p1();
    assert_eq!(mint_credits(&mut p, 400), Ok(()));
    assert_eq!((p.tokens_minted, p.credits_issued), (400, 400));
    assert_eq!(registry.total_credits_issued, 0);
    assert_eq!(mint_credits(&mut p, 1_000_000_000), Err(ErrorCode::ExceedsVerifiedCapacity));
}

#[test]
fn owner_mint_needs_compliance_approval() {
    let (mut p, _) = verified_p1();
    assert_eq!(p.compliance.audit_status, "EscrowFunded");
    assert_eq!(mint_credits(&mut p, 1), Err(ErrorCode::ComplianceNotApproved));
    assert_eq!((p.tokens_minted, p.credits_issued), (0, 0));
}

#[test]
fn batch_mint_checks_the_sum() {
    let (mut p, mut registry) = approved_p1();
    let amounts = vec![600_000_000, 0, 500_000_000];
    let r = batch_mint_credits(&mut p, &mut registry, &amounts, 3);
    assert_eq!(r, Err(ErrorCode::ExceedsVerifiedCapacity));
    assert_eq!(p.tokens_minted, 0);
    let r = batch_mint_credits(&mut p, &mut registry, &amounts, 2);
    assert_eq!(r, Err(ErrorCode::RecipientCountMismatch));
    let amounts = vec![600_000_000, 0, 400_000_000];
    assert_eq!(check_batch_mint(&p, &registry, &amounts, 3), Ok(1_000_000_000));
    assert_eq!(batch_mint_credits(&mut p, &mut registry, &amounts, 3), Ok(1_000_000_000));
    assert_eq!(p.tokens_minted, 1_000_000_000);
    assert_eq!(registry.total_credits_issued, 1_000_000_000);
    assert_eq!(batch_mint_transfers(&amounts), vec![0, 2]);
}

#[test]
fn batch_sum_overflow() {
    let (p, registry) = approved_p1();
    let amounts = vec![u64::MAX, 1];
    assert_eq!(checked_total(&amounts), None);
    assert_eq!(checked_total(&vec![2, 3, 0]), Some(5));
    assert_eq!(check_batch_mint(&p, &registry, &amounts, 2), Err(ErrorCode::MathOverflow));
}

#[test]
fn capacity_holds_over_mixed_sequence() {
    let (mut p, mut registry) = approved_p1();
    let cap = p.carbon_tons_estimated * 1_000_000;
    let _ = mint_verified_credits(&mut p, &mut registry, 300_000_000);
    let _ = batch_mint_credits(&mut p, &mut registry, &vec![300_000_000, 300_000_000], 2);
    let _ = mint_credits(&mut p, 300_000_000);
    let _ = mint_verified_credits(&mut p, &mut registry, 100_000_000);
    let _ = mint_credits(&mut p, 1);
    assert!(p.tokens_minted <= cap);
    assert_eq!(p.tokens_minted, 1_000_000_000);
}

#[test]
fn registration_errors() {
    let (mut index, mut registry) = fresh();
    let cell = cell_at(1.0, 103.0);
    let mut missing = request("P1");
    missing.ccts_registry_id = String::new();
    let r = register_project(addr(10), missing, 100_000_000, cell, &mut index, &mut registry, &mut wallet(), &mut 0);
    assert_eq!(r.err(), Some(ErrorCode::MissingRegistryId));
    let mut mismatch = request("P1");
    mismatch.ccts_registry_id = "P9".to_string();
    let r = register_project(addr(10), mismatch, 100_000_000, cell, &mut index, &mut registry, &mut wallet(), &mut 0);
    assert_eq!(r.err(), Some(ErrorCode::RegistryIdMismatch));
    let r = register_project(addr(10), request("P1"), 99_999_999, cell, &mut index, &mut registry, &mut wallet(), &mut 0);
    assert_eq!(r.err(), Some(ErrorCode::InsufficientVerificationFee));
    let long = "X".repeat(33);
    let r = register_project(addr(10), request(&long), 100_000_000, cell, &mut index, &mut registry, &mut wallet(), &mut 0);
    assert_eq!(r.err(), Some(ErrorCode::FieldTooLong));
    let r = register_project(addr(10), request("P1"), 100_000_000, None, &mut index, &mut registry, &mut wallet(), &mut 0);
    assert_eq!(r.err(), Some(ErrorCode::InvalidCoordinates));
    let r = register_project(addr(10), request("P1"), 100_000_000, Some(0), &mut index, &mut registry, &mut wallet(), &mut 0);
    assert_eq!(r.err(), Some(ErrorCode::InvalidCoordinates));
    assert!(index.locations().is_empty());
    registry.total_projects = u64::MAX;
    assert_eq!(
        validate_registration(&request("P1"), 100_000_000, cell, &index, &registry, wallet(), 0),
        Err(ErrorCode::MathOverflow)
    );
    registry.total_projects = 0;
    assert_eq!(validate_registration(&request("P1"), 100_000_000, cell, &index, &registry, wallet(), 0), Ok(()));
}

#[test]
fn dedup_in_either_order() {
    let cell = cell_at(1.0, 103.0);
    let (mut index, mut registry) = fresh();
    register_project(addr(11), request("P2"), 100_000_000, cell, &mut index, &mut registry, &mut wallet(), &mut 0).unwrap();
    let r = register_project(addr(10), request("P1"), 100_000_000, cell, &mut index, &mut registry, &mut wallet(), &mut 0);
    assert_eq!(r.err(), Some(ErrorCode::LocationAlreadyClaimed));
    let far = cell_at(-33.9, 151.2);
    assert!(register_project(addr(10), request("P1"), 100_000_000, far, &mut index, &mut registry, &mut wallet(), &mut 0).is_ok());
    assert_eq!(index.locations().len(), 2);
    assert!(index.is_claimed(far.unwrap()));
}

#[test]
fn claim_is_append_only() {
    let mut index = DoubleCountingRegistry::new(addr(1));
    assert_eq!(index.claim(7), Ok(()));
    assert_eq!(index.claim(9), Ok(()));
    assert_eq!(index.claim(7), Err(ErrorCode::LocationAlreadyClaimed));
    assert_eq!(*index.locations(), vec![7, 9]);
}

#[test]
fn funding_adds_to_escrow() {
    let (mut p, _, _) = registered_p1();
    initialize_verification(&mut p, addr(30), 50, &mut wallet(), &mut 0).unwrap();
    assert_eq!(p.verification_status, VerificationStatus::AwaitingAudit);
    assert_eq!(p.audit_escrow_balance, 100_000_050);
    assert_eq!(p.verification_fee_lamports, 100_000_050);
    let mut rich: u64 = u64::MAX;
    assert_eq!(initialize_verification(&mut p, addr(30), u64::MAX, &mut rich, &mut 0), Err(ErrorCode::MathOverflow));
    assert_eq!(rich, u64::MAX);
    assert_eq!(p.audit_escrow_balance, 100_000_050);
}

fn node(active: bool) -> VerificationNode {
    let mut v = register_verifier(
        addr(40),
        VerifierData {
            verifier_type: VerifierType::TechnicalAuditor,
            credentials: vec!["ACVA".to_string()],
            specializations: vec![ProjectSector::Forestry],
        },
        1_700_000_000,
    );
    v.is_active = active;
    v
}

#[test]
fn verifier_registration_defaults() {
    let v = node(true);
    assert_eq!(v.verifier_pubkey, addr(40));
    assert_eq!(v.reputation_score, 100);
    assert_eq!(v.verification_count, 0);
    assert!(v.is_active);
    assert_eq!(v.registration_date, 1_700_000_000);
    assert_eq!(v.credentials, vec!["ACVA".to_string()]);
}

#[test]
fn multi_party_path() {
    let (mut p, _, _) = registered_p1();
    let mut v = node(true);
    let r = multi_party_verify_project(&mut p, &mut v, 800, 4);
    assert_eq!(r, Err(ErrorCode::ProjectAlreadyProcessed));
    p.verification_status = VerificationStatus::UnderReview;
    let mut idle = node(false);
    assert_eq!(multi_party_verify_project(&mut p, &mut idle, 800, 4), Err(ErrorCode::VerifierNotActive));
    assert_eq!(multi_party_verify_project(&mut p, &mut v, 800, 0), Err(ErrorCode::InvalidQualityRating));
    assert_eq!(multi_party_verify_project(&mut p, &mut v, 800, 6), Err(ErrorCode::InvalidQualityRating));
    assert_eq!(multi_party_verify_project(&mut p, &mut v, 800, 5), Ok(()));
    assert_eq!(p.verification_status, VerificationStatus::Verified);
    assert_eq!((p.carbon_tons_estimated, p.available_quantity, p.quality_rating), (800, 800, 5));
    assert_eq!((v.verification_count, v.reputation_score), (1, 110));
}

#[test]
fn reputation_overflow_is_refused() {
    let mut v = node(true);
    v.reputation_score = u64::MAX - 5;
    assert_eq!(v.record_success(), Err(ErrorCode::MathOverflow));
    assert_eq!((v.verification_count, v.reputation_score), (0, u64::MAX - 5));
    v.reputation_score = 100;
    assert_eq!(v.record_success(), Ok(()));
    assert_eq!((v.verification_count, v.reputation_score), (1, 110));
}

#[test]
fn compliance_approval_fields() {
    let (mut p, _) = verified_p1();
    approve_project_compliance(&mut p, "ICM-7".to_string(), 250, true);
    assert_eq!(p.compliance.audit_status, "Approved");
    assert_eq!(p.compliance.ccts_registry_id, "ICM-7");
    assert_eq!(p.compliance.authorized_export_limit, 250);
    assert!(p.compliance.loa_issued);
    assert_eq!(p.compliance.double_counting_prevention_id, "P1_ICM-7_SG");
    assert_eq!(p.verification_status, VerificationStatus::Verified);
}

#[test]
fn defaults() {
    assert_eq!(VerificationStatus::default(), VerificationStatus::Pending);
    assert_eq!(ProjectSector::default(), ProjectSector::BlueCarbon);
}

#[test]
fn verified_status_is_kept() {
    let (mut p, mut registry) = approved_p1();
    let mut project_lamports: u64 = 10;
    let mut caller_lamports: u64 = 10;
    assert!(verify_project(&mut p, addr(20), 9, &mut project_lamports, &mut caller_lamports).is_err());
    assert!(reject_project(&mut p, addr(20), &mut project_lamports, &mut caller_lamports).is_err());
    assert!(initialize_verification(&mut p, addr(30), 1, &mut wallet(), &mut 0).is_err());
    let mut v = node(true);
    assert!(multi_party_verify_project(&mut p, &mut v, 9, 3).is_err());
    mint_verified_credits(&mut p, &mut registry, 5).unwrap();
    approve_project_compliance(&mut p, "P1".to_string(), 0, false);
    assert_eq!(p.verification_status, VerificationStatus::Verified);
    assert_eq!(p.carbon_tons_estimated, 1000);
    assert!(submit_monitoring_data(&mut p, HealthScore { hundredths: -1 }));
    assert!(initialize_verification(&mut p, addr(30), 1, &mut wallet(), &mut 0).is_err());
    assert_eq!(p.verification_status, VerificationStatus::Monitoring);
}

#[test]
fn lamport_transfer_is_balanced() {
    let mut from: u64 = 100;
    let mut to: u64 = u64::MAX - 10;
    assert_eq!(transfer_lamports(&mut from, &mut to, 11), Err(ErrorCode::MathOverflow));
    assert_eq!((from, to), (100, u64::MAX - 10));
    assert_eq!(transfer_lamports(&mut from, &mut to, 10), Ok(()));
    assert_eq!((from, to), (90, u64::MAX));
    assert_eq!(transfer_lamports(&mut from, &mut to, 91), Err(ErrorCode::MathOverflow));
}

#[test]
fn registration_collects_the_deposit() {
    let (mut index, mut registry) = fresh();
    let cell = cell_at(1.0, 103.0);
    let mut owner: u64 = 99_999_999;
    let mut custody: u64 = 5;
    let r = register_project(addr(10), request("P1"), 100_000_000, cell, &mut index, &mut registry, &mut owner, &mut custody);
    assert_eq!(r.err(), Some(ErrorCode::InsufficientFunds));
    assert_eq!((owner, custody), (99_999_999, 5));
    assert!(index.locations().is_empty());
    assert_eq!(registry.total_projects, 0);
    owner = 250_000_000;
    let mut full: u64 = u64::MAX - 1;
    let r = register_project(addr(10), request("P1"), 100_000_000, cell, &mut index, &mut registry, &mut owner, &mut full);
    assert_eq!(r.err(), Some(ErrorCode::MathOverflow));
    assert_eq!((owner, full), (250_000_000, u64::MAX - 1));
    let p = register_project(addr(10), request("P1"), 100_000_000, cell, &mut index, &mut registry, &mut owner, &mut custody).unwrap();
    assert_eq!((owner, custody), (150_000_000, 100_000_005));
    assert_eq!(p.audit_escrow_balance, 100_000_000);
}

#[test]
fn funding_collects_the_deposit() {
    let (mut p, _, _) = registered_p1();
    let mut owner: u64 = 40;
    let mut custody: u64 = 100_000_000;
    assert_eq!(initialize_verification(&mut p, addr(30), 50, &mut owner, &mut custody), Err(ErrorCode::InsufficientFunds));
    assert_eq!((owner, custody, p.audit_escrow_balance), (40, 100_000_000, 100_000_000));
    assert_eq!(p.verifier, None);
    owner = 70;
    assert_eq!(initialize_verification(&mut p, addr(30), 50, &mut owner, &mut custody), Ok(()));
    assert_eq!((owner, custody), (20, 100_000_050));
    assert_eq!(p.verifier, Some(addr(30)));
}

#[test]
fn monitoring_demotes_unverified_but_not_terminal() {
    let (mut p, _, _) = registered_p1();
    assert!(!submit_monitoring_data(&mut p, HealthScore { hundredths: 9000 }));
    assert_eq!(p.verification_status, VerificationStatus::AwaitingAudit);
    assert!(submit_monitoring_data(&mut p, HealthScore { hundredths: 4999 }));
    assert_eq!(p.verification_status, VerificationStatus::Monitoring);
    assert_eq!(p.audit_escrow_balance, 100_000_000);
    let mut project_lamports: u64 = 100_000_000;
    let mut caller_lamports: u64 = 0;
    let r = verify_project(&mut p, addr(20), 10, &mut project_lamports, &mut caller_lamports);
    assert_eq!(r, Err(ErrorCode::ProjectAlreadyProcessed));
    p.verification_status = VerificationStatus::Expired;
    assert!(!submit_monitoring_data(&mut p, HealthScore { hundredths: 0 }));
    assert_eq!(p.verification_status, VerificationStatus::Expired);
}
