use carbon_credits::address::{address_of_key, address_of_key_text, address_of_keys};
use carbon_credits::common::{Key, TransferFailure};
use carbon_credits::registry::{
    add_project_metadata, check_issuance, check_retirement, check_transfer, create_batch,
    initialize_registry, issue_credits, register_project, retire_credits, transfer_credits,
    update_project_status, AddProjectMetadata, BatchStatus, CreateBatch, ErrorCode,
    InitializeRegistry, IssuanceStatus, IssueCredits, MetadataType, ProjectRegistry,
    ProjectRegistryStatus, RegisterProject, Registry, RetireCredits, TransferCredits,
    UpdateProjectStatus, CREDIT_BATCH_TAG, CREDIT_ISSUANCE_TAG, CREDIT_RETIREMENT_TAG, PROJECT_METADATA_TAG,
    PROJECT_REGISTRY_TAG, REGISTRY_TAG, TRANSFER_RECORD_TAG,
};

fn key(n: u8) -> Key {
    Key { bytes: [n; 32] }
}

const AUTHORITY: u8 = 1;

fn program() -> Key {
    key(200)
}

fn derived(found: Option<(Key, u8)>) -> Key {
    found.expect("an address exists for these seeds").0
}

fn registry_key() -> Key {
    derived(address_of_key(&program(), REGISTRY_TAG, &key(AUTHORITY)))
}

fn init_ctx() -> InitializeRegistry {
    InitializeRegistry { program_id: program(), registry: None, registry_key: registry_key(), authority: key(AUTHORITY) }
}

fn registry() -> Registry {
    let mut ctx = init_ctx();
    initialize_registry(&mut ctx, "Registry".to_string(), "https://r".to_string(), 1).unwrap();
    ctx.registry.unwrap()
}

fn project(issued: u64, retired: u64) -> ProjectRegistry {
    ProjectRegistry {
        project_id: "P1".to_string(),
        vintage_year: 2021,
        methodology: "VM0007".to_string(),
        country_code: "BRA".to_string(),
        project_developer: key(2),
        registry: key(50),
        total_issued: issued,
        total_retired: retired,
        status: ProjectRegistryStatus::Active,
        registered_at: 0,
    }
}

fn issue_ctx(p: ProjectRegistry, r: Registry, signer: u8) -> IssueCredits {
    IssueCredits {
        program_id: program(),
        project_registry: p,
        project_registry_key: key(60),
        credit_issuance: None,
        credit_issuance_key: derived(address_of_keys(&program(), CREDIT_ISSUANCE_TAG, &key(60), &key(signer))),
        registry: r,
        recipient: key(7),
        authority: key(signer),
    }
}

fn retire_ctx(p: ProjectRegistry, r: Registry) -> RetireCredits {
    RetireCredits {
        program_id: program(),
        project_registry: p,
        project_registry_key: key(60),
        credit_retirement: None,
        credit_retirement_key: derived(address_of_keys(&program(), CREDIT_RETIREMENT_TAG, &key(60), &key(7))),
        registry: r,
        owner: key(7),
    }
}

fn register(ctx: &mut RegisterProject, id: &str, year: u16, methodology: &str, country: &str) -> Result<(), ErrorCode> {
    if let Some((address, _)) = address_of_key_text(&program(), PROJECT_REGISTRY_TAG, &ctx.registry_key, &id.to_string()) {
        ctx.project_registry_key = address;
    }
    register_project(ctx, id.to_string(), year, methodology.to_string(), country.to_string(), key(2), 9)
        .map(|_| ())
}

fn register_ctx(signer: u8) -> RegisterProject {
    RegisterProject {
        program_id: program(),
        project_registry: None,
        project_registry_key: key(0),
        registry: registry(),
        registry_key: registry_key(),
        authority: key(signer),
    }
}

#[test]
fn registry_initialization() {
    let mut ctx = init_ctx();
    let ev = initialize_registry(&mut ctx, "Verra".to_string(), "https://v".to_string(), 3).unwrap();
    assert_eq!(ev.registry_name, "Verra");
    assert_eq!(ev.registry_id, registry_key());
    let r = ctx.registry.clone().unwrap();
    assert_eq!(r.authority, key(AUTHORITY));
    assert_eq!(r.total_credits_issued, 0);
    assert_eq!(r.total_projects, 0);
    assert_eq!(r.created_at, 3);
    assert_eq!(
        initialize_registry(&mut ctx, "x".to_string(), "y".to_string(), 4).unwrap_err(),
        ErrorCode::AccountAlreadyInitialized
    );
    let mut fresh = init_ctx();
    assert_eq!(
        initialize_registry(&mut fresh, "n".repeat(65), String::new(), 4).unwrap_err(),
        ErrorCode::RegistryNameTooLong
    );
    assert_eq!(
        initialize_registry(&mut fresh, "n".repeat(64), "u".repeat(201), 4).unwrap_err(),
        ErrorCode::BaseUriTooLong
    );
    assert!(fresh.registry.is_none());
}

#[test]
fn project_registration() {
    let mut ctx = register_ctx(AUTHORITY);
    register(&mut ctx, "P1", 2021, "VM0007", "BRA").unwrap();
    let p = ctx.project_registry.clone().unwrap();
    assert_eq!(p.status, ProjectRegistryStatus::Active);
    assert_eq!(p.total_issued, 0);
    assert_eq!(p.total_retired, 0);
    assert_eq!(p.vintage_year, 2021);
    assert_eq!(p.registry, registry_key());
    assert_eq!(ctx.registry.total_projects, 1);
    assert_eq!(register(&mut ctx, "P1", 2021, "m", "c"), Err(ErrorCode::AccountAlreadyInitialized));
    assert_eq!(ctx.registry.total_projects, 1);
}

#[test]
fn registration_rejections() {
    assert_eq!(register(&mut register_ctx(9), "P1", 2021, "m", "c"), Err(ErrorCode::Unauthorized));
    assert_eq!(
        register(&mut register_ctx(AUTHORITY), &"p".repeat(33), 2021, "m", "c"),
        Err(ErrorCode::ProjectIdTooLong)
    );
    assert_eq!(
        register(&mut register_ctx(AUTHORITY), "p", 2021, &"m".repeat(101), "c"),
        Err(ErrorCode::MethodologyTooLong)
    );
    assert_eq!(
        register(&mut register_ctx(AUTHORITY), "p", 2021, "m", "BRAZ"),
        Err(ErrorCode::CountryCodeTooLong)
    );
    assert_eq!(register(&mut register_ctx(AUTHORITY), "p", 1999, "m", "c"), Err(ErrorCode::InvalidVintageYear));
    assert_eq!(register(&mut register_ctx(AUTHORITY), "p", 2101, "m", "c"), Err(ErrorCode::InvalidVintageYear));
    assert!(register(&mut register_ctx(AUTHORITY), "p", 2000, "m", "c").is_ok());
    assert!(register(&mut register_ctx(AUTHORITY), "p", 2100, "m", "c").is_ok());
    let mut full = register_ctx(AUTHORITY);
    full.registry.total_projects = u64::MAX;
    assert_eq!(register(&mut full, "p", 2021, "m", "c"), Err(ErrorCode::ArithmeticOverflow));
}

#[test]
fn issuance_moves_both_totals() {
    let mut ctx = issue_ctx(project(0, 0), registry(), AUTHORITY);
    assert_eq!(check_issuance(&ctx, &"VCS-".to_string(), 1000, 5, 10), Ok(()));
    let ev = issue_credits(&mut ctx, "VCS-".to_string(), 1000, 5, 10, Ok(())).unwrap();
    assert_eq!(ev.quantity, 1000);
    assert_eq!(ev.recipient, key(7));
    assert_eq!(ctx.project_registry.total_issued, 1000);
    assert_eq!(ctx.registry.total_credits_issued, 1000);
    let issuance = ctx.credit_issuance.clone().unwrap();
    assert_eq!(issuance.status, IssuanceStatus::Active);
    assert_eq!(issuance.issued_to, key(7));
    assert_eq!(issuance.serial_number_prefix, "VCS-");
}

#[test]
fn failed_mint_changes_nothing() {
    let mut ctx = issue_ctx(project(0, 0), registry(), AUTHORITY);
    let r = issue_credits(&mut ctx, "S".to_string(), 1000, 5, 10, Err(TransferFailure { code: 4 }));
    assert_eq!(r.unwrap_err(), ErrorCode::TransferFailed(TransferFailure { code: 4 }));
    assert_eq!(ctx.project_registry.total_issued, 0);
    assert_eq!(ctx.registry.total_credits_issued, 0);
    assert!(ctx.credit_issuance.is_none());
}

#[test]
fn issuance_rejections() {
    let s = |t: &str| t.to_string();
    let mut unauthorized = issue_ctx(project(0, 0), registry(), 9);
    assert_eq!(issue_credits(&mut unauthorized, s("S"), 1, 5, 10, Ok(())).unwrap_err(), ErrorCode::Unauthorized);
    let mut c = issue_ctx(project(0, 0), registry(), AUTHORITY);
    assert_eq!(
        issue_credits(&mut c, "s".repeat(21), 1, 5, 10, Ok(())).unwrap_err(),
        ErrorCode::SerialNumberPrefixTooLong
    );
    assert_eq!(issue_credits(&mut c, s("S"), 0, 5, 10, Ok(())).unwrap_err(), ErrorCode::InvalidQuantity);
    assert_eq!(issue_credits(&mut c, s("S"), 1, 11, 10, Ok(())).unwrap_err(), ErrorCode::InvalidIssuanceDate);
    assert_eq!(
        check_issuance(&c, &s("S"), 1, 11, 10),
        Err(ErrorCode::InvalidIssuanceDate)
    );
    let mut overflow = issue_ctx(project(u64::MAX, 0), registry(), AUTHORITY);
    assert_eq!(issue_credits(&mut overflow, s("S"), 1, 5, 10, Ok(())).unwrap_err(), ErrorCode::ArithmeticOverflow);
    assert!(issue_credits(&mut c, s("S"), 1, 10, 10, Ok(())).is_ok());
    assert_eq!(issue_credits(&mut c, s("S"), 1, 5, 10, Ok(())).unwrap_err(), ErrorCode::AccountAlreadyInitialized);
}

#[test]
fn retirement_keeps_retired_within_issued() {
    let mut r = registry();
    r.total_credits_issued = 1000;
    r.total_credits_retired = 100;
    let mut ctx = retire_ctx(project(500, 100), r.clone());
    assert_eq!(check_retirement(&ctx, 400, &"offset".to_string(), &"ACME".to_string()), Ok(()));
    let ev = retire_credits(&mut ctx, 400, "offset".to_string(), "ACME".to_string(), 8, Ok(())).unwrap();
    assert_eq!(ev.quantity, 400);
    assert_eq!(ctx.project_registry.total_retired, 500);
    assert_eq!(ctx.registry.total_credits_retired, 500);
    assert_eq!(ctx.credit_retirement.as_ref().unwrap().beneficiary, "ACME");

    let mut too_many = retire_ctx(project(500, 100), r.clone());
    let e = retire_credits(&mut too_many, 401, String::new(), String::new(), 8, Ok(())).unwrap_err();
    assert_eq!(e, ErrorCode::InsufficientCredits);
    assert_eq!(too_many.project_registry.total_retired, 100);

    let mut failed = retire_ctx(project(500, 100), r.clone());
    let e = retire_credits(&mut failed, 10, String::new(), String::new(), 8, Err(TransferFailure { code: 1 }))
        .unwrap_err();
    assert_eq!(e, ErrorCode::TransferFailed(TransferFailure { code: 1 }));
    assert_eq!(failed.registry.total_credits_retired, 100);
    assert!(failed.credit_retirement.is_none());
}

#[test]
fn retirement_rejections() {
    let mut r = registry();
    r.total_credits_issued = 50;
    let retire = |q: u64, reason: String, beneficiary: String| {
        let mut ctx = retire_ctx(project(500, 0), r.clone());
        retire_credits(&mut ctx, q, reason, beneficiary, 1, Ok(())).map(|_| ())
    };
    assert_eq!(retire(0, String::new(), String::new()), Err(ErrorCode::InvalidQuantity));
    assert_eq!(retire(1, "r".repeat(201), String::new()), Err(ErrorCode::RetirementReasonTooLong));
    assert_eq!(retire(1, String::new(), "b".repeat(101)), Err(ErrorCode::BeneficiaryTooLong));
    // The project still holds 500, but the registry only issued 50 in all.
    assert_eq!(retire(51, String::new(), String::new()), Err(ErrorCode::InsufficientCredits));
    assert_eq!(retire(50, String::new(), String::new()), Ok(()));
    let mut twice = retire_ctx(project(500, 0), r.clone());
    retire_credits(&mut twice, 1, String::new(), String::new(), 1, Ok(())).unwrap();
    assert_eq!(
        retire_credits(&mut twice, 1, String::new(), String::new(), 1, Ok(())).unwrap_err(),
        ErrorCode::AccountAlreadyInitialized
    );
}

#[test]
fn transfers_leave_totals_alone() {
    let ctx = || TransferCredits {
        program_id: program(),
        project_registry: project(300, 20),
        project_registry_key: key(60),
        transfer_record: None,
        transfer_record_key: derived(address_of_keys(&program(), TRANSFER_RECORD_TAG, &key(60), &key(7))),
        from_owner: key(7),
        to_owner: key(8),
    };
    let mut ok = ctx();
    assert_eq!(check_transfer(&ok, 30, &"sale".to_string()), Ok(()));
    let ev = transfer_credits(&mut ok, 30, "sale".to_string(), 4, Ok(())).unwrap();
    assert_eq!(ev.to_owner, key(8));
    let rec = ok.transfer_record.clone().unwrap();
    assert_eq!(rec.quantity, 30);
    assert_eq!(rec.transferred_at, 4);
    assert_eq!(ok.project_registry.total_issued, 300);
    assert_eq!(ok.project_registry.total_retired, 20);
    assert_eq!(
        transfer_credits(&mut ok, 1, String::new(), 4, Ok(())).unwrap_err(),
        ErrorCode::AccountAlreadyInitialized
    );
    assert_eq!(transfer_credits(&mut ctx(), 0, String::new(), 4, Ok(())).unwrap_err(), ErrorCode::InvalidQuantity);
    assert_eq!(
        transfer_credits(&mut ctx(), 1, "r".repeat(201), 4, Ok(())).unwrap_err(),
        ErrorCode::TransferReasonTooLong
    );
    let mut failed = ctx();
    assert_eq!(
        transfer_credits(&mut failed, 1, String::new(), 4, Err(TransferFailure { code: 2 })).unwrap_err(),
        ErrorCode::TransferFailed(TransferFailure { code: 2 })
    );
    assert!(failed.transfer_record.is_none());
}

#[test]
fn batch_creation() {
    let ctx = || CreateBatch {
        program_id: program(),
        project_registry: project(0, 0),
        project_registry_key: key(60),
        credit_batch: None,
        credit_batch_key: derived(address_of_key_text(&program(), CREDIT_BATCH_TAG, &key(60), &"B".to_string())),
        authority: key(AUTHORITY),
    };
    let mut ok = ctx();
    let ev = create_batch(&mut ok, "B".to_string(), 10, 10, "ipfs://m".to_string(), 3).unwrap();
    assert_eq!(ev.batch_identifier, "B");
    let b = ok.credit_batch.clone().unwrap();
    assert_eq!(b.status, BatchStatus::Pending);
    assert_eq!(b.total_credits, 0);
    assert_eq!(b.available_credits, 0);
    assert_eq!(
        create_batch(&mut ok, "B".to_string(), 1, 2, String::new(), 3).unwrap_err(),
        ErrorCode::AccountAlreadyInitialized
    );
    assert_eq!(
        create_batch(&mut ctx(), "B2".to_string(), 1, 2, String::new(), 3).unwrap_err(),
        ErrorCode::ConstraintSeeds
    );
    assert_eq!(
        create_batch(&mut ctx(), "b".repeat(33), 1, 2, String::new(), 3).unwrap_err(),
        ErrorCode::BatchIdTooLong
    );
    assert_eq!(
        create_batch(&mut ctx(), "B".to_string(), 2, 1, String::new(), 3).unwrap_err(),
        ErrorCode::InvalidVintagePeriod
    );
    assert_eq!(
        create_batch(&mut ctx(), "B".to_string(), 1, 2, "u".repeat(201), 3).unwrap_err(),
        ErrorCode::MonitoringReportUriTooLong
    );
}

#[test]
fn status_updates_are_authority_only_and_unrestricted() {
    let ctx = |signer: u8| UpdateProjectStatus {
        project_registry: project(0, 0),
        project_registry_key: key(60),
        registry: registry(),
        authority: key(signer),
    };
    let mut ok = ctx(AUTHORITY);
    let ev = update_project_status(&mut ok, ProjectRegistryStatus::Terminated, "fraud".to_string()).unwrap();
    assert_eq!(ev.old_status, ProjectRegistryStatus::Active);
    assert_eq!(ev.new_status, ProjectRegistryStatus::Terminated);
    update_project_status(&mut ok, ProjectRegistryStatus::Active, String::new()).unwrap();
    assert_eq!(ok.project_registry.status, ProjectRegistryStatus::Active);
    let mut other = ctx(9);
    assert_eq!(
        update_project_status(&mut other, ProjectRegistryStatus::Suspended, String::new()).unwrap_err(),
        ErrorCode::Unauthorized
    );
    assert_eq!(other.project_registry.status, ProjectRegistryStatus::Active);
    assert_eq!(
        update_project_status(&mut ctx(AUTHORITY), ProjectRegistryStatus::Suspended, "r".repeat(201)).unwrap_err(),
        ErrorCode::ReasonTooLong
    );
}

#[test]
fn metadata_attachment() {
    let ctx = || AddProjectMetadata {
        program_id: program(),
        project_registry_key: key(60),
        project_metadata: None,
        project_metadata_key: derived(address_of_keys(&program(), PROJECT_METADATA_TAG, &key(60), &key(3))),
        authority: key(3),
    };
    let mut ok = ctx();
    let ev = add_project_metadata(&mut ok, MetadataType::Photo, "ipfs://p".to_string(), "site".to_string(), 6).unwrap();
    assert_eq!(ev.metadata_type, MetadataType::Photo);
    assert_eq!(ok.project_metadata.as_ref().unwrap().added_at, 6);
    assert_eq!(
        add_project_metadata(&mut ok, MetadataType::Other, String::new(), String::new(), 6).unwrap_err(),
        ErrorCode::AccountAlreadyInitialized
    );
    assert_eq!(
        add_project_metadata(&mut ctx(), MetadataType::Other, "u".repeat(201), String::new(), 6).unwrap_err(),
        ErrorCode::MetadataUriTooLong
    );
    assert_eq!(
        add_project_metadata(&mut ctx(), MetadataType::Other, String::new(), "d".repeat(501), 6).unwrap_err(),
        ErrorCode::DescriptionTooLong
    );
}

#[test]
fn issued_never_below_retired_over_a_history() {
    let mut p = project(0, 0);
    let mut r = registry();
    for step in 0..6u64 {
        let mut issue = issue_ctx(p.clone(), r.clone(), AUTHORITY);
        let _ = issue_credits(&mut issue, "S".to_string(), 10 * step, 0, 1, Ok(()));
        p = issue.project_registry;
        r = issue.registry;
        let mut retire = retire_ctx(p.clone(), r.clone());
        let _ = retire_credits(&mut retire, 7 * step + 5, String::new(), String::new(), 1, Ok(()));
        p = retire.project_registry;
        r = retire.registry;
        assert!(p.total_issued >= p.total_retired);
        assert!(r.total_credits_issued >= r.total_credits_retired);
    }
    assert_eq!(p.total_issued, 150);
}

#[test]
fn one_project_per_identifier() {
    let mut ctx = register_ctx(AUTHORITY);
    register(&mut ctx, "P1", 2021, "m", "c").unwrap();
    let first = ctx.project_registry_key;
    // The same identifier always leads to the same address, so a second
    // registration finds the record already there.
    let mut again = register_ctx(AUTHORITY);
    again.project_registry = ctx.project_registry.clone();
    assert_eq!(register(&mut again, "P1", 2022, "m2", "c2"), Err(ErrorCode::AccountAlreadyInitialized));
    assert_eq!(again.project_registry_key, first);
    // Another address for the same identifier is refused outright.
    let mut elsewhere = register_ctx(AUTHORITY);
    elsewhere.project_registry_key = key(61);
    assert_eq!(
        register_project(&mut elsewhere, "P1".to_string(), 2021, "m".to_string(), "c".to_string(), key(2), 9)
            .unwrap_err(),
        ErrorCode::ConstraintSeeds
    );
    assert!(elsewhere.project_registry.is_none());
}
