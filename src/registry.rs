//! The registry: the authority that registers projects, issues credits
//! against them, records transfers and retires credits, keeping per-project
//! and registry-wide counts of what was issued and retired.
//!
//! Each operation takes the accounts it touches as one context value,
//! with the key of the program that owns them. An account that the
//! operation creates must sit at the address derived for it (see
//! `address`), and is an `Option`: `None` while nothing is stored there,
//! so a second creation for the same logical key fails. Time and the
//! outcome of the mint, burn or transfer that the asset-transfer service
//! performed come in as arguments; an operation that fails leaves its
//! context unchanged.
use vstd::prelude::*;

use crate::address::{
    address_matches, address_of_key, address_of_key_text, address_of_keys, found_at, program_address,
    tagged_key, tagged_key_text, tagged_keys,
};
use crate::common::{byte_len, fits, Key, TransferFailure};

verus! {

/// Seed tag of the registry's address, with the authority's key.
pub const REGISTRY_TAG: &'static str = "registry";

/// Seed tag of a project's address, with the registry's key and the
/// project identifier.
pub const PROJECT_REGISTRY_TAG: &'static str = "project_registry";

/// Seed tag of an issuance's address, with the project's and the
/// authority's keys.
pub const CREDIT_ISSUANCE_TAG: &'static str = "credit_issuance";

/// Seed tag of a transfer record's address, with the project's and the
/// sender's keys.
pub const TRANSFER_RECORD_TAG: &'static str = "transfer_record";

/// Seed tag of a retirement's address, with the project's and the owner's
/// keys.
pub const CREDIT_RETIREMENT_TAG: &'static str = "credit_retirement";

/// Seed tag of a batch's address, with the project's key and the batch
/// identifier.
pub const CREDIT_BATCH_TAG: &'static str = "credit_batch";

/// Seed tag of a document's address, with the project's and the
/// authority's keys.
pub const PROJECT_METADATA_TAG: &'static str = "project_metadata";

/// Longest registry name, in bytes.
pub const MAX_REGISTRY_NAME_LEN: usize = 64;

/// Longest base URI, in bytes.
pub const MAX_BASE_URI_LEN: usize = 200;

/// Longest project identifier, in bytes.
pub const MAX_PROJECT_ID_LEN: usize = 32;

/// Longest methodology, in bytes.
pub const MAX_METHODOLOGY_LEN: usize = 100;

/// Longest country code, in bytes.
pub const MAX_COUNTRY_CODE_LEN: usize = 3;

/// Earliest vintage year.
pub const MIN_VINTAGE_YEAR: u16 = 2000;

/// Latest vintage year.
pub const MAX_VINTAGE_YEAR: u16 = 2100;

/// Longest serial number prefix, in bytes.
pub const MAX_SERIAL_PREFIX_LEN: usize = 20;

/// Longest transfer or retirement reason, in bytes.
pub const MAX_REASON_LEN: usize = 200;

/// Longest beneficiary, in bytes.
pub const MAX_BENEFICIARY_LEN: usize = 100;

/// Longest batch identifier, in bytes.
pub const MAX_BATCH_ID_LEN: usize = 32;

/// Longest monitoring report or metadata URI, in bytes.
pub const MAX_URI_LEN: usize = 200;

/// Longest metadata description, in bytes.
pub const MAX_DESCRIPTION_LEN: usize = 500;

/// The registry and its registry-wide totals.
#[derive(Clone, Debug)]
pub struct Registry {
    pub authority: Key,
    pub registry_name: String,
    pub base_uri: String,
    pub total_credits_issued: u64,
    pub total_credits_retired: u64,
    pub total_projects: u64,
    pub created_at: i64,
}

impl Registry {
    /// Retired credits never exceed issued ones.
    pub open spec fn wf(&self) -> bool {
        self.total_credits_retired <= self.total_credits_issued
    }
}

/// A registered project and its issued and retired totals.
#[derive(Clone, Debug)]
pub struct ProjectRegistry {
    pub project_id: String,
    pub vintage_year: u16,
    pub methodology: String,
    pub country_code: String,
    pub project_developer: Key,
    pub registry: Key,
    pub total_issued: u64,
    pub total_retired: u64,
    pub status: ProjectRegistryStatus,
    pub registered_at: i64,
}

impl ProjectRegistry {
    /// Retired credits never exceed issued ones.
    pub open spec fn wf(&self) -> bool {
        self.total_retired <= self.total_issued
    }

    /// Credits issued and not yet retired.
    pub open spec fn available(&self) -> int {
        self.total_issued - self.total_retired
    }
}

/// The record of one issuance of credits.
#[derive(Clone, Debug)]
pub struct CreditIssuance {
    pub project_registry: Key,
    pub serial_number_prefix: String,
    pub quantity: u64,
    pub issuance_date: i64,
    pub issued_to: Key,
    pub status: IssuanceStatus,
    pub created_at: i64,
}

/// The audit record of one transfer of credits between owners.
#[derive(Clone, Debug)]
pub struct TransferRecord {
    pub from_owner: Key,
    pub to_owner: Key,
    pub project_registry: Key,
    pub quantity: u64,
    pub transfer_reason: String,
    pub transferred_at: i64,
}

/// The record of one retirement of credits, backed by a burn.
#[derive(Clone, Debug)]
pub struct CreditRetirement {
    pub owner: Key,
    pub project_registry: Key,
    pub quantity: u64,
    pub retirement_reason: String,
    pub beneficiary: String,
    pub retired_at: i64,
}

/// A vintage sub-ledger of a project.
#[derive(Clone, Debug)]
pub struct CreditBatch {
    pub batch_id: String,
    pub project_registry: Key,
    pub vintage_start: i64,
    pub vintage_end: i64,
    pub monitoring_report_uri: String,
    pub total_credits: u64,
    pub available_credits: u64,
    pub status: BatchStatus,
    pub created_at: i64,
}

impl CreditBatch {
    /// The vintage window is not reversed and what is available is part of
    /// the total.
    pub open spec fn wf(&self) -> bool {
        &&& self.vintage_start <= self.vintage_end
        &&& self.available_credits <= self.total_credits
    }
}

/// A document attached to a project.
#[derive(Clone, Debug)]
pub struct ProjectMetadata {
    pub project_registry: Key,
    pub metadata_type: MetadataType,
    pub metadata_uri: String,
    pub description: String,
    pub added_at: i64,
}

#[derive(Clone, Copy, Debug, PartialEq, Eq, Structural)]
pub enum ProjectRegistryStatus {
    Active,
    Suspended,
    Terminated,
    UnderReview,
}

#[derive(Clone, Copy, Debug, PartialEq, Eq, Structural)]
pub enum IssuanceStatus {
    Active,
    Cancelled,
    Transferred,
}

#[derive(Clone, Copy, Debug, PartialEq, Eq, Structural)]
pub enum BatchStatus {
    Pending,
    Approved,
    Issued,
    Cancelled,
}

#[derive(Clone, Copy, Debug, PartialEq, Eq, Structural)]
pub enum MetadataType {
    ProjectDocument,
    MonitoringReport,
    VerificationReport,
    Photo,
    Video,
    Other,
}

/// Why a registry operation was refused.
#[derive(Clone, Copy, Debug, PartialEq, Eq, Structural)]
pub enum ErrorCode {
    RegistryNameTooLong,
    BaseUriTooLong,
    ProjectIdTooLong,
    MethodologyTooLong,
    CountryCodeTooLong,
    InvalidVintageYear,
    SerialNumberPrefixTooLong,
    InvalidQuantity,
    InvalidIssuanceDate,
    TransferReasonTooLong,
    RetirementReasonTooLong,
    BeneficiaryTooLong,
    BatchIdTooLong,
    InvalidVintagePeriod,
    MonitoringReportUriTooLong,
    ReasonTooLong,
    MetadataUriTooLong,
    DescriptionTooLong,
    /// The account given for a new record is not at the address derived
    /// for it.
    ConstraintSeeds,
    /// The account at the derived address already holds a record.
    AccountAlreadyInitialized,
    /// The signer is not the registry's authority.
    Unauthorized,
    /// More credits would be retired than were issued.
    InsufficientCredits,
    /// A total does not fit its integer type.
    ArithmeticOverflow,
    /// The asset-transfer service refused the mint, burn or transfer.
    TransferFailed(TransferFailure),
}

// Notifications, one for each successful operation.

#[derive(Clone, Debug)]
pub struct RegistryInitialized {
    pub registry_id: Key,
    pub authority: Key,
    pub registry_name: String,
}

#[derive(Clone, Debug)]
pub struct ProjectRegistered {
    pub project_registry_id: Key,
    pub project_id: String,
    pub vintage_year: u16,
    pub project_developer: Key,
}

#[derive(Clone, Debug)]
pub struct CreditsIssued {
    pub issuance_id: Key,
    pub project_registry: Key,
    pub serial_number_prefix: String,
    pub quantity: u64,
    pub recipient: Key,
}

#[derive(Clone, Debug)]
pub struct CreditsTransferred {
    pub transfer_id: Key,
    pub from_owner: Key,
    pub to_owner: Key,
    pub quantity: u64,
    pub reason: String,
}

#[derive(Clone, Debug)]
pub struct CreditsRetired {
    pub retirement_id: Key,
    pub owner: Key,
    pub project_registry: Key,
    pub quantity: u64,
    pub reason: String,
}

#[derive(Clone, Debug)]
pub struct BatchCreated {
    pub batch_id: Key,
    pub project_registry: Key,
    pub batch_identifier: String,
    pub vintage_start: i64,
    pub vintage_end: i64,
}

#[derive(Clone, Debug)]
pub struct ProjectStatusUpdated {
    pub project_registry_id: Key,
    pub old_status: ProjectRegistryStatus,
    pub new_status: ProjectRegistryStatus,
    pub reason: String,
    pub updated_by: Key,
}

#[derive(Clone, Copy, Debug)]
pub struct ProjectMetadataAdded {
    pub metadata_id: Key,
    pub project_registry: Key,
    pub metadata_type: MetadataType,
}

// Accounts of each operation.

pub struct InitializeRegistry {
    pub program_id: Key,
    pub registry: Option<Registry>,
    pub registry_key: Key,
    pub authority: Key,
}

pub struct RegisterProject {
    pub program_id: Key,
    pub project_registry: Option<ProjectRegistry>,
    pub project_registry_key: Key,
    pub registry: Registry,
    pub registry_key: Key,
    pub authority: Key,
}

pub struct IssueCredits {
    pub program_id: Key,
    pub project_registry: ProjectRegistry,
    pub project_registry_key: Key,
    pub credit_issuance: Option<CreditIssuance>,
    pub credit_issuance_key: Key,
    pub registry: Registry,
    pub recipient: Key,
    pub authority: Key,
}

pub struct TransferCredits {
    pub program_id: Key,
    pub project_registry: ProjectRegistry,
    pub project_registry_key: Key,
    pub transfer_record: Option<TransferRecord>,
    pub transfer_record_key: Key,
    pub from_owner: Key,
    pub to_owner: Key,
}

pub struct RetireCredits {
    pub program_id: Key,
    pub project_registry: ProjectRegistry,
    pub project_registry_key: Key,
    pub credit_retirement: Option<CreditRetirement>,
    pub credit_retirement_key: Key,
    pub registry: Registry,
    pub owner: Key,
}

pub struct CreateBatch {
    pub program_id: Key,
    pub project_registry: ProjectRegistry,
    pub project_registry_key: Key,
    pub credit_batch: Option<CreditBatch>,
    pub credit_batch_key: Key,
    pub authority: Key,
}

pub struct UpdateProjectStatus {
    pub project_registry: ProjectRegistry,
    pub project_registry_key: Key,
    pub registry: Registry,
    pub authority: Key,
}

pub struct AddProjectMetadata {
    pub program_id: Key,
    pub project_registry_key: Key,
    pub project_metadata: Option<ProjectMetadata>,
    pub project_metadata_key: Key,
    pub authority: Key,
}

// ---------------------------------------------------------------------------
// Issuance

/// Why issuing `quantity` credits is refused at time `now`, checked in
/// order; `None` where it may go ahead.
pub open spec fn issuance_rejection(
    ctx: IssueCredits,
    serial_number_prefix: String,
    quantity: u64,
    issuance_date: i64,
    now: i64,
) -> Option<ErrorCode> {
    if !found_at(
        program_address(
            tagged_keys(CREDIT_ISSUANCE_TAG, ctx.project_registry_key, ctx.authority),
            ctx.program_id,
        ),
        ctx.credit_issuance_key,
    ) {
        Some(ErrorCode::ConstraintSeeds)
    } else if ctx.credit_issuance is Some {
        Some(ErrorCode::AccountAlreadyInitialized)
    } else if ctx.authority != ctx.registry.authority {
        Some(ErrorCode::Unauthorized)
    } else if byte_len(serial_number_prefix) > MAX_SERIAL_PREFIX_LEN {
        Some(ErrorCode::SerialNumberPrefixTooLong)
    } else if quantity == 0 {
        Some(ErrorCode::InvalidQuantity)
    } else if issuance_date > now {
        Some(ErrorCode::InvalidIssuanceDate)
    } else if ctx.project_registry.total_issued + quantity > u64::MAX
        || ctx.registry.total_credits_issued + quantity > u64::MAX {
        Some(ErrorCode::ArithmeticOverflow)
    } else {
        None
    }
}

/// Checks an issuance before the credits are minted: `Ok` exactly where
/// `issue_credits` would accept it once the mint succeeded.
pub fn check_issuance(
    ctx: &IssueCredits,
    serial_number_prefix: &String,
    quantity: u64,
    issuance_date: i64,
    now: i64,
) -> (r: Result<(), ErrorCode>)
    ensures
        issuance_rejection(*ctx, *serial_number_prefix, quantity, issuance_date, now) matches Some(e)
            ==> r == Err::<(), ErrorCode>(e),
        issuance_rejection(*ctx, *serial_number_prefix, quantity, issuance_date, now) is None ==> r is Ok,
{
    if !address_matches(
        address_of_keys(&ctx.program_id, CREDIT_ISSUANCE_TAG, &ctx.project_registry_key, &ctx.authority),
        &ctx.credit_issuance_key,
    ) {
        return Err(ErrorCode::ConstraintSeeds);
    }
    if ctx.credit_issuance.is_some() {
        return Err(ErrorCode::AccountAlreadyInitialized);
    }
    if ctx.authority != ctx.registry.authority {
        return Err(ErrorCode::Unauthorized);
    }
    if !fits(serial_number_prefix, MAX_SERIAL_PREFIX_LEN) {
        return Err(ErrorCode::SerialNumberPrefixTooLong);
    }
    if quantity == 0 {
        return Err(ErrorCode::InvalidQuantity);
    }
    if issuance_date > now {
        return Err(ErrorCode::InvalidIssuanceDate);
    }
    if ctx.project_registry.total_issued.checked_add(quantity).is_none()
        || ctx.registry.total_credits_issued.checked_add(quantity).is_none() {
        return Err(ErrorCode::ArithmeticOverflow);
    }
    Ok(())
}

/// Issues `quantity` new credits of the project to the recipient. `mint` is
/// the outcome of minting them, which the registry's authority signed.
/// Where the checks pass and the mint succeeded, the issuance is recorded
/// and the project's and the registry's issued totals both grow by
/// `quantity`; otherwise nothing changes.
pub fn issue_credits(
    ctx: &mut IssueCredits,
    serial_number_prefix: String,
    quantity: u64,
    issuance_date: i64,
    now: i64,
    mint: Result<(), TransferFailure>,
) -> (r: Result<CreditsIssued, ErrorCode>)
    ensures
        issuance_rejection(*old(ctx), serial_number_prefix, quantity, issuance_date, now) matches Some(e)
            ==> r == Err::<CreditsIssued, ErrorCode>(e),
        issuance_rejection(*old(ctx), serial_number_prefix, quantity, issuance_date, now) is None ==> (
        mint matches Err(f) ==> r == Err::<CreditsIssued, ErrorCode>(ErrorCode::TransferFailed(f))),
        r is Err ==> *final(ctx) == *old(ctx),
        r is Ok <==> issuance_rejection(*old(ctx), serial_number_prefix, quantity, issuance_date, now) is None
            && mint is Ok,
        r is Ok ==> {
            &&& r == Ok::<CreditsIssued, ErrorCode>(
                CreditsIssued {
                    issuance_id: old(ctx).credit_issuance_key,
                    project_registry: old(ctx).project_registry_key,
                    serial_number_prefix,
                    quantity,
                    recipient: old(ctx).recipient,
                },
            )
            &&& *final(ctx) == (IssueCredits {
                credit_issuance: Some(
                    CreditIssuance {
                        project_registry: old(ctx).project_registry_key,
                        serial_number_prefix,
                        quantity,
                        issuance_date,
                        issued_to: old(ctx).recipient,
                        status: IssuanceStatus::Active,
                        created_at: now,
                    },
                ),
                project_registry: ProjectRegistry {
                    total_issued: (old(ctx).project_registry.total_issued + quantity) as u64,
                    ..old(ctx).project_registry
                },
                registry: Registry {
                    total_credits_issued: (old(ctx).registry.total_credits_issued + quantity) as u64,
                    ..old(ctx).registry
                },
                ..*old(ctx)
            })
        },
        old(ctx).project_registry.wf() ==> final(ctx).project_registry.wf(),
        old(ctx).registry.wf() ==> final(ctx).registry.wf(),
{
    match check_issuance(ctx, &serial_number_prefix, quantity, issuance_date, now) {
        Ok(()) => {},
        Err(e) => return Err(e),
    }
    if let Err(f) = mint {
        return Err(ErrorCode::TransferFailed(f));
    }
    let event = CreditsIssued {
        issuance_id: ctx.credit_issuance_key,
        project_registry: ctx.project_registry_key,
        serial_number_prefix: serial_number_prefix.clone(),
        quantity,
        recipient: ctx.recipient,
    };
    ctx.credit_issuance = Some(
        CreditIssuance {
            project_registry: ctx.project_registry_key,
            serial_number_prefix,
            quantity,
            issuance_date,
            issued_to: ctx.recipient,
            status: IssuanceStatus::Active,
            created_at: now,
        },
    );
    ctx.project_registry.total_issued = ctx.project_registry.total_issued + quantity;
    ctx.registry.total_credits_issued = ctx.registry.total_credits_issued + quantity;
    Ok(event)
}

// ---------------------------------------------------------------------------
// Retirement

/// Why retiring `quantity` credits is refused, checked in order; `None`
/// where it may go ahead.
pub open spec fn retirement_rejection(
    ctx: RetireCredits,
    quantity: u64,
    retirement_reason: String,
    beneficiary: String,
) -> Option<ErrorCode> {
    if !found_at(
        program_address(
            tagged_keys(CREDIT_RETIREMENT_TAG, ctx.project_registry_key, ctx.owner),
            ctx.program_id,
        ),
        ctx.credit_retirement_key,
    ) {
        Some(ErrorCode::ConstraintSeeds)
    } else if ctx.credit_retirement is Some {
        Some(ErrorCode::AccountAlreadyInitialized)
    } else if quantity == 0 {
        Some(ErrorCode::InvalidQuantity)
    } else if byte_len(retirement_reason) > MAX_REASON_LEN {
        Some(ErrorCode::RetirementReasonTooLong)
    } else if byte_len(beneficiary) > MAX_BENEFICIARY_LEN {
        Some(ErrorCode::BeneficiaryTooLong)
    } else if quantity > ctx.project_registry.available()
        || ctx.registry.total_credits_retired + quantity > ctx.registry.total_credits_issued {
        Some(ErrorCode::InsufficientCredits)
    } else {
        None
    }
}

/// Checks a retirement before the credits are burnt: `Ok` exactly where
/// `retire_credits` would accept it once the burn succeeded.
pub fn check_retirement(
    ctx: &RetireCredits,
    quantity: u64,
    retirement_reason: &String,
    beneficiary: &String,
) -> (r: Result<(), ErrorCode>)
    ensures
        retirement_rejection(*ctx, quantity, *retirement_reason, *beneficiary) matches Some(e)
            ==> r == Err::<(), ErrorCode>(e),
        retirement_rejection(*ctx, quantity, *retirement_reason, *beneficiary) is None ==> r is Ok,
{
    if !address_matches(
        address_of_keys(&ctx.program_id, CREDIT_RETIREMENT_TAG, &ctx.project_registry_key, &ctx.owner),
        &ctx.credit_retirement_key,
    ) {
        return Err(ErrorCode::ConstraintSeeds);
    }
    if ctx.credit_retirement.is_some() {
        return Err(ErrorCode::AccountAlreadyInitialized);
    }
    if quantity == 0 {
        return Err(ErrorCode::InvalidQuantity);
    }
    if !fits(retirement_reason, MAX_REASON_LEN) {
        return Err(ErrorCode::RetirementReasonTooLong);
    }
    if !fits(beneficiary, MAX_BENEFICIARY_LEN) {
        return Err(ErrorCode::BeneficiaryTooLong);
    }
    let project = &ctx.project_registry;
    let registry = &ctx.registry;
    if project.total_retired > project.total_issued
        || quantity > project.total_issued - project.total_retired
        || registry.total_credits_retired > registry.total_credits_issued
        || quantity > registry.total_credits_issued - registry.total_credits_retired {
        return Err(ErrorCode::InsufficientCredits);
    }
    Ok(())
}

/// Retires `quantity` of the owner's credits for good. `burn` is the outcome
/// of burning them from the owner's holding. Where the checks pass and the
/// burn succeeded, the retirement is recorded and the project's and the
/// registry's retired totals both grow by `quantity`, never past the issued
/// totals; otherwise nothing changes.
pub fn retire_credits(
    ctx: &mut RetireCredits,
    quantity: u64,
    retirement_reason: String,
    beneficiary: String,
    now: i64,
    burn: Result<(), TransferFailure>,
) -> (r: Result<CreditsRetired, ErrorCode>)
    ensures
        retirement_rejection(*old(ctx), quantity, retirement_reason, beneficiary) matches Some(e)
            ==> r == Err::<CreditsRetired, ErrorCode>(e),
        retirement_rejection(*old(ctx), quantity, retirement_reason, beneficiary) is None ==> (
        burn matches Err(f) ==> r == Err::<CreditsRetired, ErrorCode>(ErrorCode::TransferFailed(f))),
        r is Err ==> *final(ctx) == *old(ctx),
        r is Ok <==> retirement_rejection(*old(ctx), quantity, retirement_reason, beneficiary) is None
            && burn is Ok,
        r is Ok ==> {
            &&& r == Ok::<CreditsRetired, ErrorCode>(
                CreditsRetired {
                    retirement_id: old(ctx).credit_retirement_key,
                    owner: old(ctx).owner,
                    project_registry: old(ctx).project_registry_key,
                    quantity,
                    reason: retirement_reason,
                },
            )
            &&& *final(ctx) == (RetireCredits {
                credit_retirement: Some(
                    CreditRetirement {
                        owner: old(ctx).owner,
                        project_registry: old(ctx).project_registry_key,
                        quantity,
                        retirement_reason,
                        beneficiary,
                        retired_at: now,
                    },
                ),
                project_registry: ProjectRegistry {
                    total_retired: (old(ctx).project_registry.total_retired + quantity) as u64,
                    ..old(ctx).project_registry
                },
                registry: Registry {
                    total_credits_retired: (old(ctx).registry.total_credits_retired + quantity) as u64,
                    ..old(ctx).registry
                },
                ..*old(ctx)
            })
            &&& final(ctx).project_registry.wf()
            &&& final(ctx).registry.wf()
        },
        old(ctx).project_registry.wf() ==> final(ctx).project_registry.wf(),
        old(ctx).registry.wf() ==> final(ctx).registry.wf(),
{
    match check_retirement(ctx, quantity, &retirement_reason, &beneficiary) {
        Ok(()) => {},
        Err(e) => return Err(e),
    }
    if let Err(f) = burn {
        return Err(ErrorCode::TransferFailed(f));
    }
    let event = CreditsRetired {
        retirement_id: ctx.credit_retirement_key,
        owner: ctx.owner,
        project_registry: ctx.project_registry_key,
        quantity,
        reason: retirement_reason.clone(),
    };
    ctx.credit_retirement = Some(
        CreditRetirement {
            owner: ctx.owner,
            project_registry: ctx.project_registry_key,
            quantity,
            retirement_reason,
            beneficiary,
            retired_at: now,
        },
    );
    ctx.project_registry.total_retired = ctx.project_registry.total_retired + quantity;
    ctx.registry.total_credits_retired = ctx.registry.total_credits_retired + quantity;
    Ok(event)
}

// ---------------------------------------------------------------------------
// Transfers

/// Why a transfer of `quantity` credits is refused, checked in order; `None`
/// where it may go ahead.
pub open spec fn transfer_rejection(ctx: TransferCredits, quantity: u64, transfer_reason: String) -> Option<
    ErrorCode,
> {
    if !found_at(
        program_address(
            tagged_keys(TRANSFER_RECORD_TAG, ctx.project_registry_key, ctx.from_owner),
            ctx.program_id,
        ),
        ctx.transfer_record_key,
    ) {
        Some(ErrorCode::ConstraintSeeds)
    } else if ctx.transfer_record is Some {
        Some(ErrorCode::AccountAlreadyInitialized)
    } else if quantity == 0 {
        Some(ErrorCode::InvalidQuantity)
    } else if byte_len(transfer_reason) > MAX_REASON_LEN {
        Some(ErrorCode::TransferReasonTooLong)
    } else {
        None
    }
}

/// Checks a transfer before the credits move: `Ok` exactly where
/// `transfer_credits` would accept it once the transfer succeeded.
pub fn check_transfer(ctx: &TransferCredits, quantity: u64, transfer_reason: &String) -> (r: Result<
    (),
    ErrorCode,
>)
    ensures
        transfer_rejection(*ctx, quantity, *transfer_reason) matches Some(e) ==> r == Err::<(), ErrorCode>(e),
        transfer_rejection(*ctx, quantity, *transfer_reason) is None ==> r is Ok,
{
    if !address_matches(
        address_of_keys(&ctx.program_id, TRANSFER_RECORD_TAG, &ctx.project_registry_key, &ctx.from_owner),
        &ctx.transfer_record_key,
    ) {
        return Err(ErrorCode::ConstraintSeeds);
    }
    if ctx.transfer_record.is_some() {
        return Err(ErrorCode::AccountAlreadyInitialized);
    }
    if quantity == 0 {
        return Err(ErrorCode::InvalidQuantity);
    }
    if !fits(transfer_reason, MAX_REASON_LEN) {
        return Err(ErrorCode::TransferReasonTooLong);
    }
    Ok(())
}

/// Records that `quantity` credits moved from one owner to another.
/// `transfer` is the outcome of moving them. Where the checks pass and the
/// transfer succeeded, an audit record is written; the project's issued and
/// retired totals never change.
pub fn transfer_credits(
    ctx: &mut TransferCredits,
    quantity: u64,
    transfer_reason: String,
    now: i64,
    transfer: Result<(), TransferFailure>,
) -> (r: Result<CreditsTransferred, ErrorCode>)
    ensures
        transfer_rejection(*old(ctx), quantity, transfer_reason) matches Some(e)
            ==> r == Err::<CreditsTransferred, ErrorCode>(e),
        transfer_rejection(*old(ctx), quantity, transfer_reason) is None ==> (
        transfer matches Err(f) ==> r == Err::<CreditsTransferred, ErrorCode>(ErrorCode::TransferFailed(f))),
        r is Err ==> *final(ctx) == *old(ctx),
        r is Ok <==> transfer_rejection(*old(ctx), quantity, transfer_reason) is None && transfer is Ok,
        r is Ok ==> {
            &&& r == Ok::<CreditsTransferred, ErrorCode>(
                CreditsTransferred {
                    transfer_id: old(ctx).transfer_record_key,
                    from_owner: old(ctx).from_owner,
                    to_owner: old(ctx).to_owner,
                    quantity,
                    reason: transfer_reason,
                },
            )
            &&& *final(ctx) == (TransferCredits {
                transfer_record: Some(
                    TransferRecord {
                        from_owner: old(ctx).from_owner,
                        to_owner: old(ctx).to_owner,
                        project_registry: old(ctx).project_registry_key,
                        quantity,
                        transfer_reason,
                        transferred_at: now,
                    },
                ),
                ..*old(ctx)
            })
        },
        final(ctx).project_registry == old(ctx).project_registry,
{
    match check_transfer(ctx, quantity, &transfer_reason) {
        Ok(()) => {},
        Err(e) => return Err(e),
    }
    if let Err(f) = transfer {
        return Err(ErrorCode::TransferFailed(f));
    }
    let event = CreditsTransferred {
        transfer_id: ctx.transfer_record_key,
        from_owner: ctx.from_owner,
        to_owner: ctx.to_owner,
        quantity,
        reason: transfer_reason.clone(),
    };
    ctx.transfer_record = Some(
        TransferRecord {
            from_owner: ctx.from_owner,
            to_owner: ctx.to_owner,
            project_registry: ctx.project_registry_key,
            quantity,
            transfer_reason,
            transferred_at: now,
        },
    );
    Ok(event)
}

// ---------------------------------------------------------------------------
// Registry and projects

/// Why creating the registry is refused, checked in order; `None` where it
/// may go ahead.
pub open spec fn initialize_rejection(
    ctx: InitializeRegistry,
    registry_name: String,
    base_uri: String,
) -> Option<ErrorCode> {
    if !found_at(
        program_address(tagged_key(REGISTRY_TAG, ctx.authority), ctx.program_id),
        ctx.registry_key,
    ) {
        Some(ErrorCode::ConstraintSeeds)
    } else if ctx.registry is Some {
        Some(ErrorCode::AccountAlreadyInitialized)
    } else if byte_len(registry_name) > MAX_REGISTRY_NAME_LEN {
        Some(ErrorCode::RegistryNameTooLong)
    } else if byte_len(base_uri) > MAX_BASE_URI_LEN {
        Some(ErrorCode::BaseUriTooLong)
    } else {
        None
    }
}

/// Creates the registry under the signing authority, with all totals zero.
pub fn initialize_registry(
    ctx: &mut InitializeRegistry,
    registry_name: String,
    base_uri: String,
    now: i64,
) -> (r: Result<RegistryInitialized, ErrorCode>)
    ensures
        initialize_rejection(*old(ctx), registry_name, base_uri) matches Some(e)
            ==> r == Err::<RegistryInitialized, ErrorCode>(e) && *final(ctx) == *old(ctx),
        initialize_rejection(*old(ctx), registry_name, base_uri) is None ==> {
            &&& r == Ok::<RegistryInitialized, ErrorCode>(
                RegistryInitialized {
                    registry_id: old(ctx).registry_key,
                    authority: old(ctx).authority,
                    registry_name,
                },
            )
            &&& *final(ctx) == (InitializeRegistry {
                registry: Some(
                    Registry {
                        authority: old(ctx).authority,
                        registry_name,
                        base_uri,
                        total_credits_issued: 0,
                        total_credits_retired: 0,
                        total_projects: 0,
                        created_at: now,
                    },
                ),
                ..*old(ctx)
            })
        },
{
    if !address_matches(address_of_key(&ctx.program_id, REGISTRY_TAG, &ctx.authority), &ctx.registry_key) {
        return Err(ErrorCode::ConstraintSeeds);
    }
    if ctx.registry.is_some() {
        return Err(ErrorCode::AccountAlreadyInitialized);
    }
    if !fits(&registry_name, MAX_REGISTRY_NAME_LEN) {
        return Err(ErrorCode::RegistryNameTooLong);
    }
    if !fits(&base_uri, MAX_BASE_URI_LEN) {
        return Err(ErrorCode::BaseUriTooLong);
    }
    let event = RegistryInitialized {
        registry_id: ctx.registry_key,
        authority: ctx.authority,
        registry_name: registry_name.clone(),
    };
    ctx.registry = Some(
        Registry {
            authority: ctx.authority,
            registry_name,
            base_uri,
            total_credits_issued: 0,
            total_credits_retired: 0,
            total_projects: 0,
            created_at: now,
        },
    );
    Ok(event)
}

/// Why registering a project is refused, checked in order; `None` where it
/// may go ahead. A project already stored under the same identifier in this
/// registry is refused first.
pub open spec fn registration_rejection(
    ctx: RegisterProject,
    project_id: String,
    vintage_year: u16,
    methodology: String,
    country_code: String,
) -> Option<ErrorCode> {
    if byte_len(project_id) > MAX_PROJECT_ID_LEN {
        Some(ErrorCode::ProjectIdTooLong)
    } else if !found_at(
        program_address(tagged_key_text(PROJECT_REGISTRY_TAG, ctx.registry_key, project_id), ctx.program_id),
        ctx.project_registry_key,
    ) {
        Some(ErrorCode::ConstraintSeeds)
    } else if ctx.project_registry is Some {
        Some(ErrorCode::AccountAlreadyInitialized)
    } else if ctx.authority != ctx.registry.authority {
        Some(ErrorCode::Unauthorized)
    } else if byte_len(methodology) > MAX_METHODOLOGY_LEN {
        Some(ErrorCode::MethodologyTooLong)
    } else if byte_len(country_code) > MAX_COUNTRY_CODE_LEN {
        Some(ErrorCode::CountryCodeTooLong)
    } else if vintage_year < MIN_VINTAGE_YEAR || vintage_year > MAX_VINTAGE_YEAR {
        Some(ErrorCode::InvalidVintageYear)
    } else if ctx.registry.total_projects + 1 > u64::MAX {
        Some(ErrorCode::ArithmeticOverflow)
    } else {
        None
    }
}

/// Registers a project with the registry: `Active`, nothing issued or
/// retired, and counted in the registry's project total.
pub fn register_project(
    ctx: &mut RegisterProject,
    project_id: String,
    vintage_year: u16,
    methodology: String,
    country_code: String,
    project_developer: Key,
    now: i64,
) -> (r: Result<ProjectRegistered, ErrorCode>)
    ensures
        registration_rejection(*old(ctx), project_id, vintage_year, methodology, country_code) matches Some(e)
            ==> r == Err::<ProjectRegistered, ErrorCode>(e) && *final(ctx) == *old(ctx),
        registration_rejection(*old(ctx), project_id, vintage_year, methodology, country_code) is None ==> {
            &&& r == Ok::<ProjectRegistered, ErrorCode>(
                ProjectRegistered {
                    project_registry_id: old(ctx).project_registry_key,
                    project_id,
                    vintage_year,
                    project_developer,
                },
            )
            &&& *final(ctx) == (RegisterProject {
                project_registry: Some(
                    ProjectRegistry {
                        project_id,
                        vintage_year,
                        methodology,
                        country_code,
                        project_developer,
                        registry: old(ctx).registry_key,
                        total_issued: 0,
                        total_retired: 0,
                        status: ProjectRegistryStatus::Active,
                        registered_at: now,
                    },
                ),
                registry: Registry {
                    total_projects: (old(ctx).registry.total_projects + 1) as u64,
                    ..old(ctx).registry
                },
                ..*old(ctx)
            })
        },
{
    if !fits(&project_id, MAX_PROJECT_ID_LEN) {
        return Err(ErrorCode::ProjectIdTooLong);
    }
    if !address_matches(
        address_of_key_text(&ctx.program_id, PROJECT_REGISTRY_TAG, &ctx.registry_key, &project_id),
        &ctx.project_registry_key,
    ) {
        return Err(ErrorCode::ConstraintSeeds);
    }
    if ctx.project_registry.is_some() {
        return Err(ErrorCode::AccountAlreadyInitialized);
    }
    if ctx.authority != ctx.registry.authority {
        return Err(ErrorCode::Unauthorized);
    }
    if !fits(&methodology, MAX_METHODOLOGY_LEN) {
        return Err(ErrorCode::MethodologyTooLong);
    }
    if !fits(&country_code, MAX_COUNTRY_CODE_LEN) {
        return Err(ErrorCode::CountryCodeTooLong);
    }
    if vintage_year < MIN_VINTAGE_YEAR || vintage_year > MAX_VINTAGE_YEAR {
        return Err(ErrorCode::InvalidVintageYear);
    }
    let count = match ctx.registry.total_projects.checked_add(1) {
        Some(c) => c,
        None => return Err(ErrorCode::ArithmeticOverflow),
    };
    let event = ProjectRegistered {
        project_registry_id: ctx.project_registry_key,
        project_id: project_id.clone(),
        vintage_year,
        project_developer,
    };
    ctx.project_registry = Some(
        ProjectRegistry {
            project_id,
            vintage_year,
            methodology,
            country_code,
            project_developer,
            registry: ctx.registry_key,
            total_issued: 0,
            total_retired: 0,
            status: ProjectRegistryStatus::Active,
            registered_at: now,
        },
    );
    ctx.registry.total_projects = count;
    Ok(event)
}

/// Why creating a batch is refused, checked in order; `None` where it may go
/// ahead.
pub open spec fn batch_rejection(
    ctx: CreateBatch,
    batch_id: String,
    vintage_start: i64,
    vintage_end: i64,
    monitoring_report_uri: String,
) -> Option<ErrorCode> {
    if byte_len(batch_id) > MAX_BATCH_ID_LEN {
        Some(ErrorCode::BatchIdTooLong)
    } else if !found_at(
        program_address(tagged_key_text(CREDIT_BATCH_TAG, ctx.project_registry_key, batch_id), ctx.program_id),
        ctx.credit_batch_key,
    ) {
        Some(ErrorCode::ConstraintSeeds)
    } else if ctx.credit_batch is Some {
        Some(ErrorCode::AccountAlreadyInitialized)
    } else if vintage_end < vintage_start {
        Some(ErrorCode::InvalidVintagePeriod)
    } else if byte_len(monitoring_report_uri) > MAX_URI_LEN {
        Some(ErrorCode::MonitoringReportUriTooLong)
    } else {
        None
    }
}

/// Opens a vintage sub-ledger of the project for the window from
/// `vintage_start` to `vintage_end`: `Pending`, with zero totals.
pub fn create_batch(
    ctx: &mut CreateBatch,
    batch_id: String,
    vintage_start: i64,
    vintage_end: i64,
    monitoring_report_uri: String,
    now: i64,
) -> (r: Result<BatchCreated, ErrorCode>)
    ensures
        batch_rejection(*old(ctx), batch_id, vintage_start, vintage_end, monitoring_report_uri) matches Some(e)
            ==> r == Err::<BatchCreated, ErrorCode>(e) && *final(ctx) == *old(ctx),
        batch_rejection(*old(ctx), batch_id, vintage_start, vintage_end, monitoring_report_uri) is None ==> {
            &&& r == Ok::<BatchCreated, ErrorCode>(
                BatchCreated {
                    batch_id: old(ctx).credit_batch_key,
                    project_registry: old(ctx).project_registry_key,
                    batch_identifier: batch_id,
                    vintage_start,
                    vintage_end,
                },
            )
            &&& *final(ctx) == (CreateBatch {
                credit_batch: Some(
                    CreditBatch {
                        batch_id,
                        project_registry: old(ctx).project_registry_key,
                        vintage_start,
                        vintage_end,
                        monitoring_report_uri,
                        total_credits: 0,
                        available_credits: 0,
                        status: BatchStatus::Pending,
                        created_at: now,
                    },
                ),
                ..*old(ctx)
            })
        },
        r is Ok ==> (final(ctx).credit_batch matches Some(b) ==> b.wf()),
{
    if !fits(&batch_id, MAX_BATCH_ID_LEN) {
        return Err(ErrorCode::BatchIdTooLong);
    }
    if !address_matches(
        address_of_key_text(&ctx.program_id, CREDIT_BATCH_TAG, &ctx.project_registry_key, &batch_id),
        &ctx.credit_batch_key,
    ) {
        return Err(ErrorCode::ConstraintSeeds);
    }
    if ctx.credit_batch.is_some() {
        return Err(ErrorCode::AccountAlreadyInitialized);
    }
    if vintage_end < vintage_start {
        return Err(ErrorCode::InvalidVintagePeriod);
    }
    if !fits(&monitoring_report_uri, MAX_URI_LEN) {
        return Err(ErrorCode::MonitoringReportUriTooLong);
    }
    let event = BatchCreated {
        batch_id: ctx.credit_batch_key,
        project_registry: ctx.project_registry_key,
        batch_identifier: batch_id.clone(),
        vintage_start,
        vintage_end,
    };
    ctx.credit_batch = Some(
        CreditBatch {
            batch_id,
            project_registry: ctx.project_registry_key,
            vintage_start,
            vintage_end,
            monitoring_report_uri,
            total_credits: 0,
            available_credits: 0,
            status: BatchStatus::Pending,
            created_at: now,
        },
    );
    Ok(event)
}

/// Why a status change is refused, checked in order; `None` where it may go
/// ahead.
pub open spec fn status_update_rejection(ctx: UpdateProjectStatus, reason: String) -> Option<ErrorCode> {
    if ctx.authority != ctx.registry.authority {
        Some(ErrorCode::Unauthorized)
    } else if byte_len(reason) > MAX_REASON_LEN {
        Some(ErrorCode::ReasonTooLong)
    } else {
        None
    }
}

/// Sets the project's status. Only the registry's authority may; any status
/// may follow any other, and the notification carries the old and the new
/// one.
pub fn update_project_status(
    ctx: &mut UpdateProjectStatus,
    new_status: ProjectRegistryStatus,
    reason: String,
) -> (r: Result<ProjectStatusUpdated, ErrorCode>)
    ensures
        status_update_rejection(*old(ctx), reason) matches Some(e)
            ==> r == Err::<ProjectStatusUpdated, ErrorCode>(e) && *final(ctx) == *old(ctx),
        status_update_rejection(*old(ctx), reason) is None ==> {
            &&& r == Ok::<ProjectStatusUpdated, ErrorCode>(
                ProjectStatusUpdated {
                    project_registry_id: old(ctx).project_registry_key,
                    old_status: old(ctx).project_registry.status,
                    new_status,
                    reason,
                    updated_by: old(ctx).authority,
                },
            )
            &&& *final(ctx) == (UpdateProjectStatus {
                project_registry: ProjectRegistry { status: new_status, ..old(ctx).project_registry },
                ..*old(ctx)
            })
        },
{
    if ctx.authority != ctx.registry.authority {
        return Err(ErrorCode::Unauthorized);
    }
    if !fits(&reason, MAX_REASON_LEN) {
        return Err(ErrorCode::ReasonTooLong);
    }
    let old_status = ctx.project_registry.status;
    ctx.project_registry.status = new_status;
    Ok(
        ProjectStatusUpdated {
            project_registry_id: ctx.project_registry_key,
            old_status,
            new_status,
            reason,
            updated_by: ctx.authority,
        },
    )
}

/// Why attaching a document is refused, checked in order; `None` where it
/// may go ahead.
pub open spec fn metadata_rejection(
    ctx: AddProjectMetadata,
    metadata_uri: String,
    description: String,
) -> Option<ErrorCode> {
    if !found_at(
        program_address(
            tagged_keys(PROJECT_METADATA_TAG, ctx.project_registry_key, ctx.authority),
            ctx.program_id,
        ),
        ctx.project_metadata_key,
    ) {
        Some(ErrorCode::ConstraintSeeds)
    } else if ctx.project_metadata is Some {
        Some(ErrorCode::AccountAlreadyInitialized)
    } else if byte_len(metadata_uri) > MAX_URI_LEN {
        Some(ErrorCode::MetadataUriTooLong)
    } else if byte_len(description) > MAX_DESCRIPTION_LEN {
        Some(ErrorCode::DescriptionTooLong)
    } else {
        None
    }
}

/// Attaches a document, referenced by URI, to the project.
pub fn add_project_metadata(
    ctx: &mut AddProjectMetadata,
    metadata_type: MetadataType,
    metadata_uri: String,
    description: String,
    now: i64,
) -> (r: Result<ProjectMetadataAdded, ErrorCode>)
    ensures
        metadata_rejection(*old(ctx), metadata_uri, description) matches Some(e)
            ==> r == Err::<ProjectMetadataAdded, ErrorCode>(e) && *final(ctx) == *old(ctx),
        metadata_rejection(*old(ctx), metadata_uri, description) is None ==> {
            &&& r == Ok::<ProjectMetadataAdded, ErrorCode>(
                ProjectMetadataAdded {
                    metadata_id: old(ctx).project_metadata_key,
                    project_registry: old(ctx).project_registry_key,
                    metadata_type,
                },
            )
            &&& *final(ctx) == (AddProjectMetadata {
                project_metadata: Some(
                    ProjectMetadata {
                        project_registry: old(ctx).project_registry_key,
                        metadata_type,
                        metadata_uri,
                        description,
                        added_at: now,
                    },
                ),
                ..*old(ctx)
            })
        },
{
    if !address_matches(
        address_of_keys(&ctx.program_id, PROJECT_METADATA_TAG, &ctx.project_registry_key, &ctx.authority),
        &ctx.project_metadata_key,
    ) {
        return Err(ErrorCode::ConstraintSeeds);
    }
    if ctx.project_metadata.is_some() {
        return Err(ErrorCode::AccountAlreadyInitialized);
    }
    if !fits(&metadata_uri, MAX_URI_LEN) {
        return Err(ErrorCode::MetadataUriTooLong);
    }
    if !fits(&description, MAX_DESCRIPTION_LEN) {
        return Err(ErrorCode::DescriptionTooLong);
    }
    ctx.project_metadata = Some(
        ProjectMetadata {
            project_registry: ctx.project_registry_key,
            metadata_type,
            metadata_uri,
            description,
            added_at: now,
        },
    );
    Ok(
        ProjectMetadataAdded {
            metadata_id: ctx.project_metadata_key,
            project_registry: ctx.project_registry_key,
            metadata_type,
        },
    )
}

} // verus!
