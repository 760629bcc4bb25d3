//! The verification workflow: accredited verifiers take requests, record a
//! verdict on a project's claimed credits, and anyone may challenge a
//! verdict until the challenge is resolved.
//!
//! A request goes from `Pending` to `Completed` once; a challenge goes from
//! `Open` to `Upheld` or `Rejected` once. Opening a challenge marks the
//! verdict invalid at once; rejecting the challenge restores it, upholding
//! it keeps it invalid.
//!
//! Each operation takes the accounts it touches as one context value,
//! with the key of the program that owns them. An account that the
//! operation creates must sit at the address derived for it (see
//! `address`), and is an `Option`: `None` while nothing is stored there.
//! Time comes in as an argument; an operation that fails leaves its
//! context unchanged.
use vstd::prelude::*;

use crate::address::{
    address_matches, address_of_key, address_of_keys, found_at, program_address, tagged_key, tagged_keys,
};
use crate::common::{byte_len, fits, Key};

verus! {

/// Seed tag of a verifier's address, with its authority's key.
pub const VERIFIER_TAG: &'static str = "verifier";

/// Seed tag of a request's address, with the project's and the requester's
/// keys.
pub const VERIFICATION_REQUEST_TAG: &'static str = "verification_request";

/// Seed tag of a verdict's address, with the request's key.
pub const VERIFICATION_RESULT_TAG: &'static str = "verification_result";

/// Seed tag of a challenge's address, with the verdict's and the
/// challenger's keys.
pub const CHALLENGE_TAG: &'static str = "challenge";

/// Seed tag of a report's address, with the verdict's key.
pub const VERIFICATION_REPORT_TAG: &'static str = "verification_report";

/// Longest verifier or accreditation body name, in bytes.
pub const MAX_NAME_LEN: usize = 64;

/// Longest documentation, evidence or report URI, in bytes.
pub const MAX_URI_LEN: usize = 200;

/// Longest verification notes, challenge reason, resolution notes or
/// sampling approach, in bytes.
pub const MAX_NOTES_LEN: usize = 500;

/// Longest methodology details, in bytes.
pub const MAX_METHODOLOGY_DETAILS_LEN: usize = 1000;

/// Highest compliance score.
pub const MAX_COMPLIANCE_SCORE: u8 = 100;

/// An accredited verifier and its running totals.
#[derive(Clone, Debug)]
pub struct Verifier {
    pub authority: Key,
    pub verifier_name: String,
    pub certification_level: CertificationLevel,
    pub accreditation_body: String,
    pub is_active: bool,
    pub total_projects_verified: u64,
    pub total_credits_verified: u64,
    pub created_at: i64,
}

/// A project's request to have its claimed credits verified.
#[derive(Clone, Debug)]
pub struct VerificationRequest {
    pub project: Key,
    pub requester: Key,
    pub verifier: Key,
    pub verification_type: VerificationType,
    pub documentation_uri: String,
    pub estimated_credits: u64,
    pub status: VerificationStatus,
    pub submitted_at: i64,
    pub completed_at: Option<i64>,
}

/// A verifier's verdict on a request.
#[derive(Clone, Debug)]
pub struct VerificationResult {
    pub request: Key,
    pub verifier: Key,
    pub project: Key,
    pub verified_credits: u64,
    pub verification_notes: String,
    pub compliance_score: u8,
    pub methodology_used: VerificationType,
    pub verified_at: i64,
    pub is_valid: bool,
}

/// A dispute against a verdict.
#[derive(Clone, Debug)]
pub struct VerificationChallenge {
    pub verification: Key,
    pub challenger: Key,
    pub challenge_reason: String,
    pub evidence_uri: String,
    pub status: ChallengeStatus,
    pub submitted_at: i64,
    pub resolved_at: Option<i64>,
    pub resolution_notes: Option<String>,
}

/// Supplementary documentation of a verdict.
#[derive(Clone, Debug)]
pub struct VerificationReport {
    pub verification: Key,
    pub verifier: Key,
    pub report_uri: String,
    pub methodology_details: String,
    pub sampling_approach: String,
    pub created_at: i64,
}

#[derive(Clone, Copy, Debug, PartialEq, Eq, Structural)]
pub enum CertificationLevel {
    Basic,
    Intermediate,
    Advanced,
    Expert,
}

#[derive(Clone, Copy, Debug, PartialEq, Eq, Structural)]
pub enum VerificationType {
    Initial,
    Periodic,
    PostImplementation,
    Surveillance,
}

#[derive(Clone, Copy, Debug, PartialEq, Eq, Structural)]
pub enum VerificationStatus {
    Pending,
    InProgress,
    Completed,
    Rejected,
}

#[derive(Clone, Copy, Debug, PartialEq, Eq, Structural)]
pub enum ChallengeStatus {
    Open,
    Upheld,
    Rejected,
}

#[derive(Clone, Copy, Debug, PartialEq, Eq, Structural)]
pub enum ChallengeResolution {
    Upheld,
    Rejected,
}

/// Why a verification operation was refused.
#[derive(Clone, Copy, Debug, PartialEq, Eq, Structural)]
pub enum ErrorCode {
    VerifierNameTooLong,
    AccreditationBodyTooLong,
    DocumentationUriTooLong,
    InvalidCreditAmount,
    VerificationNotesTooLong,
    InvalidComplianceScore,
    RequestNotPending,
    ChallengeReasonTooLong,
    EvidenceUriTooLong,
    ResolutionNotesTooLong,
    ChallengeNotOpen,
    ReportUriTooLong,
    MethodologyDetailsTooLong,
    SamplingApproachTooLong,
    /// The account given for a new record is not at the address derived
    /// for it.
    ConstraintSeeds,
    /// The account at the derived address already holds a record.
    AccountAlreadyInitialized,
    /// The signer is not the verifier's authority.
    Unauthorized,
    /// The challenge is against another verdict than the one given.
    VerificationMismatch,
    /// A running total does not fit its integer type.
    ArithmeticOverflow,
}

// Notifications, one for each successful operation.

#[derive(Clone, Debug)]
pub struct VerifierInitialized {
    pub verifier_id: Key,
    pub authority: Key,
    pub verifier_name: String,
    pub certification_level: CertificationLevel,
}

#[derive(Clone, Copy, Debug)]
pub struct VerificationRequestSubmitted {
    pub request_id: Key,
    pub project: Key,
    pub requester: Key,
    pub verifier: Key,
    pub verification_type: VerificationType,
}

#[derive(Clone, Copy, Debug)]
pub struct VerificationCompleted {
    pub verification_id: Key,
    pub request_id: Key,
    pub project: Key,
    pub verifier: Key,
    pub verified_credits: u64,
    pub compliance_score: u8,
}

#[derive(Clone, Debug)]
pub struct VerificationChallenged {
    pub challenge_id: Key,
    pub verification_id: Key,
    pub challenger: Key,
    pub reason: String,
}

#[derive(Clone, Copy, Debug)]
pub struct ChallengeResolved {
    pub challenge_id: Key,
    pub verification_id: Key,
    pub resolution: ChallengeResolution,
    pub resolver: Key,
}

#[derive(Clone, Copy, Debug)]
pub struct VerifierStatusUpdated {
    pub verifier_id: Key,
    pub old_status: bool,
    pub new_status: bool,
    pub updated_by: Key,
}

#[derive(Clone, Copy, Debug)]
pub struct VerificationReportCreated {
    pub report_id: Key,
    pub verification_id: Key,
    pub verifier: Key,
}

// Accounts of each operation.

pub struct InitializeVerifier {
    pub program_id: Key,
    pub verifier: Option<Verifier>,
    pub verifier_key: Key,
    pub authority: Key,
}

pub struct SubmitVerificationRequest {
    pub program_id: Key,
    pub verification_request: Option<VerificationRequest>,
    pub verification_request_key: Key,
    pub verifier_key: Key,
    pub requester: Key,
}

pub struct ConductVerification {
    pub program_id: Key,
    pub verification_request: VerificationRequest,
    pub verification_request_key: Key,
    pub verification_result: Option<VerificationResult>,
    pub verification_result_key: Key,
    pub verifier: Verifier,
    pub verifier_key: Key,
    pub verifier_authority: Key,
}

pub struct ChallengeVerification {
    pub program_id: Key,
    pub verification_result: VerificationResult,
    pub verification_result_key: Key,
    pub challenge: Option<VerificationChallenge>,
    pub challenge_key: Key,
    pub challenger: Key,
}

pub struct ResolveChallenge {
    pub challenge: VerificationChallenge,
    pub challenge_key: Key,
    pub verification_result: VerificationResult,
    pub verification_result_key: Key,
    pub resolver: Key,
}

pub struct UpdateVerifierStatus {
    pub verifier: Verifier,
    pub verifier_key: Key,
    pub authority: Key,
}

pub struct CreateVerificationReport {
    pub program_id: Key,
    pub verification_result_key: Key,
    pub verification_report: Option<VerificationReport>,
    pub verification_report_key: Key,
    pub verifier: Verifier,
    pub verifier_key: Key,
    pub verifier_authority: Key,
}

/// A request once a verdict on it was recorded at time `now`.
pub open spec fn completed(request: VerificationRequest, now: i64) -> VerificationRequest {
    VerificationRequest { status: VerificationStatus::Completed, completed_at: Some(now), ..request }
}

/// The challenge that `challenge_verification` opens.
pub open spec fn opened_challenge(
    ctx: ChallengeVerification,
    challenge_reason: String,
    evidence_uri: String,
    now: i64,
) -> VerificationChallenge {
    VerificationChallenge {
        verification: ctx.verification_result_key,
        challenger: ctx.challenger,
        challenge_reason,
        evidence_uri,
        status: ChallengeStatus::Open,
        submitted_at: now,
        resolved_at: None,
        resolution_notes: None,
    }
}

/// A challenge once resolved at time `now`.
pub open spec fn closed(
    challenge: VerificationChallenge,
    resolution: ChallengeResolution,
    resolution_notes: String,
    now: i64,
) -> VerificationChallenge {
    VerificationChallenge {
        status: status_for(resolution),
        resolved_at: Some(now),
        resolution_notes: Some(resolution_notes),
        ..challenge
    }
}

/// The status a challenge ends in for a resolution.
pub open spec fn status_for(resolution: ChallengeResolution) -> ChallengeStatus {
    match resolution {
        ChallengeResolution::Upheld => ChallengeStatus::Upheld,
        ChallengeResolution::Rejected => ChallengeStatus::Rejected,
    }
}

/// A verdict once a challenge against it is opened: provisionally invalid.
pub open spec fn challenged(v: VerificationResult) -> VerificationResult {
    VerificationResult { is_valid: false, ..v }
}

/// A verdict once a challenge against it is resolved: valid again exactly
/// where the challenge was rejected.
pub open spec fn resolved(v: VerificationResult, resolution: ChallengeResolution) -> VerificationResult {
    VerificationResult { is_valid: resolution == ChallengeResolution::Rejected, ..v }
}

// ---------------------------------------------------------------------------
// Verdicts

/// Why recording a verdict is refused, checked in order; `None` where it may
/// go ahead. A request that is no longer `Pending` is always refused.
pub open spec fn conduct_rejection(
    ctx: ConductVerification,
    verified_credits: u64,
    verification_notes: String,
    compliance_score: u8,
) -> Option<ErrorCode> {
    if !found_at(
        program_address(tagged_key(VERIFICATION_RESULT_TAG, ctx.verification_request_key), ctx.program_id),
        ctx.verification_result_key,
    ) {
        Some(ErrorCode::ConstraintSeeds)
    } else if ctx.verification_result is Some {
        Some(ErrorCode::AccountAlreadyInitialized)
    } else if ctx.verifier.authority != ctx.verifier_authority {
        Some(ErrorCode::Unauthorized)
    } else if byte_len(verification_notes) > MAX_NOTES_LEN {
        Some(ErrorCode::VerificationNotesTooLong)
    } else if compliance_score > MAX_COMPLIANCE_SCORE {
        Some(ErrorCode::InvalidComplianceScore)
    } else if ctx.verification_request.status != VerificationStatus::Pending {
        Some(ErrorCode::RequestNotPending)
    } else if ctx.verifier.total_projects_verified + 1 > u64::MAX
        || ctx.verifier.total_credits_verified + verified_credits > u64::MAX {
        Some(ErrorCode::ArithmeticOverflow)
    } else {
        None
    }
}

/// Records the verifier's verdict on a pending request: a valid result, the
/// request `Completed` at time `now`, and the verifier's totals grown by one
/// project and `verified_credits` credits.
pub fn conduct_verification(
    ctx: &mut ConductVerification,
    verified_credits: u64,
    verification_notes: String,
    compliance_score: u8,
    now: i64,
) -> (r: Result<VerificationCompleted, ErrorCode>)
    ensures
        conduct_rejection(*old(ctx), verified_credits, verification_notes, compliance_score) matches Some(e)
            ==> r == Err::<VerificationCompleted, ErrorCode>(e) && *final(ctx) == *old(ctx),
        conduct_rejection(*old(ctx), verified_credits, verification_notes, compliance_score) is None ==> {
            &&& r == Ok::<VerificationCompleted, ErrorCode>(
                VerificationCompleted {
                    verification_id: old(ctx).verification_result_key,
                    request_id: old(ctx).verification_request_key,
                    project: old(ctx).verification_request.project,
                    verifier: old(ctx).verifier_key,
                    verified_credits,
                    compliance_score,
                },
            )
            &&& *final(ctx) == (ConductVerification {
                verification_result: Some(
                    VerificationResult {
                        request: old(ctx).verification_request_key,
                        verifier: old(ctx).verifier_key,
                        project: old(ctx).verification_request.project,
                        verified_credits,
                        verification_notes,
                        compliance_score,
                        methodology_used: old(ctx).verification_request.verification_type,
                        verified_at: now,
                        is_valid: true,
                    },
                ),
                verification_request: completed(old(ctx).verification_request, now),
                verifier: Verifier {
                    total_projects_verified: (old(ctx).verifier.total_projects_verified + 1) as u64,
                    total_credits_verified: (old(ctx).verifier.total_credits_verified
                        + verified_credits) as u64,
                    ..old(ctx).verifier
                },
                ..*old(ctx)
            })
        },
{
    if !address_matches(
        address_of_key(&ctx.program_id, VERIFICATION_RESULT_TAG, &ctx.verification_request_key),
        &ctx.verification_result_key,
    ) {
        return Err(ErrorCode::ConstraintSeeds);
    }
    if ctx.verification_result.is_some() {
        return Err(ErrorCode::AccountAlreadyInitialized);
    }
    if ctx.verifier.authority != ctx.verifier_authority {
        return Err(ErrorCode::Unauthorized);
    }
    if !fits(&verification_notes, MAX_NOTES_LEN) {
        return Err(ErrorCode::VerificationNotesTooLong);
    }
    if compliance_score > MAX_COMPLIANCE_SCORE {
        return Err(ErrorCode::InvalidComplianceScore);
    }
    if ctx.verification_request.status != VerificationStatus::Pending {
        return Err(ErrorCode::RequestNotPending);
    }
    let projects = match ctx.verifier.total_projects_verified.checked_add(1) {
        Some(n) => n,
        None => return Err(ErrorCode::ArithmeticOverflow),
    };
    let credits = match ctx.verifier.total_credits_verified.checked_add(verified_credits) {
        Some(n) => n,
        None => return Err(ErrorCode::ArithmeticOverflow),
    };
    ctx.verification_result = Some(
        VerificationResult {
            request: ctx.verification_request_key,
            verifier: ctx.verifier_key,
            project: ctx.verification_request.project,
            verified_credits,
            verification_notes,
            compliance_score,
            methodology_used: ctx.verification_request.verification_type,
            verified_at: now,
            is_valid: true,
        },
    );
    ctx.verification_request.status = VerificationStatus::Completed;
    ctx.verification_request.completed_at = Some(now);
    ctx.verifier.total_projects_verified = projects;
    ctx.verifier.total_credits_verified = credits;
    Ok(
        VerificationCompleted {
            verification_id: ctx.verification_result_key,
            request_id: ctx.verification_request_key,
            project: ctx.verification_request.project,
            verifier: ctx.verifier_key,
            verified_credits,
            compliance_score,
        },
    )
}

// ---------------------------------------------------------------------------
// Challenges

/// Why opening a challenge is refused, checked in order; `None` where it may
/// go ahead.
pub open spec fn challenge_rejection(
    ctx: ChallengeVerification,
    challenge_reason: String,
    evidence_uri: String,
) -> Option<ErrorCode> {
    if !found_at(
        program_address(
            tagged_keys(CHALLENGE_TAG, ctx.verification_result_key, ctx.challenger),
            ctx.program_id,
        ),
        ctx.challenge_key,
    ) {
        Some(ErrorCode::ConstraintSeeds)
    } else if ctx.challenge is Some {
        Some(ErrorCode::AccountAlreadyInitialized)
    } else if byte_len(challenge_reason) > MAX_NOTES_LEN {
        Some(ErrorCode::ChallengeReasonTooLong)
    } else if byte_len(evidence_uri) > MAX_URI_LEN {
        Some(ErrorCode::EvidenceUriTooLong)
    } else {
        None
    }
}

/// Opens a challenge against a verdict. The challenge starts `Open` and the
/// verdict is marked invalid until the challenge is resolved.
pub fn challenge_verification(
    ctx: &mut ChallengeVerification,
    challenge_reason: String,
    evidence_uri: String,
    now: i64,
) -> (r: Result<VerificationChallenged, ErrorCode>)
    ensures
        challenge_rejection(*old(ctx), challenge_reason, evidence_uri) matches Some(e)
            ==> r == Err::<VerificationChallenged, ErrorCode>(e) && *final(ctx) == *old(ctx),
        challenge_rejection(*old(ctx), challenge_reason, evidence_uri) is None ==> {
            &&& r == Ok::<VerificationChallenged, ErrorCode>(
                VerificationChallenged {
                    challenge_id: old(ctx).challenge_key,
                    verification_id: old(ctx).verification_result_key,
                    challenger: old(ctx).challenger,
                    reason: challenge_reason,
                },
            )
            &&& *final(ctx) == (ChallengeVerification {
                verification_result: challenged(old(ctx).verification_result),
                challenge: Some(opened_challenge(*old(ctx), challenge_reason, evidence_uri, now)),
                ..*old(ctx)
            })
        },
{
    if !address_matches(
        address_of_keys(&ctx.program_id, CHALLENGE_TAG, &ctx.verification_result_key, &ctx.challenger),
        &ctx.challenge_key,
    ) {
        return Err(ErrorCode::ConstraintSeeds);
    }
    if ctx.challenge.is_some() {
        return Err(ErrorCode::AccountAlreadyInitialized);
    }
    if !fits(&challenge_reason, MAX_NOTES_LEN) {
        return Err(ErrorCode::ChallengeReasonTooLong);
    }
    if !fits(&evidence_uri, MAX_URI_LEN) {
        return Err(ErrorCode::EvidenceUriTooLong);
    }
    let event = VerificationChallenged {
        challenge_id: ctx.challenge_key,
        verification_id: ctx.verification_result_key,
        challenger: ctx.challenger,
        reason: challenge_reason.clone(),
    };
    ctx.challenge = Some(
        VerificationChallenge {
            verification: ctx.verification_result_key,
            challenger: ctx.challenger,
            challenge_reason,
            evidence_uri,
            status: ChallengeStatus::Open,
            submitted_at: now,
            resolved_at: None,
            resolution_notes: None,
        },
    );
    ctx.verification_result.is_valid = false;
    Ok(event)
}

/// Why resolving a challenge is refused, checked in order; `None` where it
/// may go ahead. A challenge that is no longer `Open` is always refused.
pub open spec fn resolve_rejection(ctx: ResolveChallenge, resolution_notes: String) -> Option<ErrorCode> {
    if byte_len(resolution_notes) > MAX_NOTES_LEN {
        Some(ErrorCode::ResolutionNotesTooLong)
    } else if ctx.challenge.status != ChallengeStatus::Open {
        Some(ErrorCode::ChallengeNotOpen)
    } else if ctx.challenge.verification != ctx.verification_result_key {
        Some(ErrorCode::VerificationMismatch)
    } else {
        None
    }
}

/// Resolves an open challenge against the verdict it names. The challenge
/// ends `Upheld` or `Rejected` at time `now`, and the verdict is valid again
/// exactly where the challenge was rejected.
pub fn resolve_challenge(
    ctx: &mut ResolveChallenge,
    resolution: ChallengeResolution,
    resolution_notes: String,
    now: i64,
) -> (r: Result<ChallengeResolved, ErrorCode>)
    ensures
        resolve_rejection(*old(ctx), resolution_notes) matches Some(e)
            ==> r == Err::<ChallengeResolved, ErrorCode>(e) && *final(ctx) == *old(ctx),
        resolve_rejection(*old(ctx), resolution_notes) is None ==> {
            &&& r == Ok::<ChallengeResolved, ErrorCode>(
                ChallengeResolved {
                    challenge_id: old(ctx).challenge_key,
                    verification_id: old(ctx).verification_result_key,
                    resolution,
                    resolver: old(ctx).resolver,
                },
            )
            &&& *final(ctx) == (ResolveChallenge {
                challenge: closed(old(ctx).challenge, resolution, resolution_notes, now),
                verification_result: resolved(old(ctx).verification_result, resolution),
                ..*old(ctx)
            })
        },
{
    if !fits(&resolution_notes, MAX_NOTES_LEN) {
        return Err(ErrorCode::ResolutionNotesTooLong);
    }
    if ctx.challenge.status != ChallengeStatus::Open {
        return Err(ErrorCode::ChallengeNotOpen);
    }
    if ctx.challenge.verification != ctx.verification_result_key {
        return Err(ErrorCode::VerificationMismatch);
    }
    ctx.challenge.status = match resolution {
        ChallengeResolution::Upheld => ChallengeStatus::Upheld,
        ChallengeResolution::Rejected => ChallengeStatus::Rejected,
    };
    ctx.challenge.resolved_at = Some(now);
    ctx.challenge.resolution_notes = Some(resolution_notes);
    ctx.verification_result.is_valid = resolution == ChallengeResolution::Rejected;
    Ok(
        ChallengeResolved {
            challenge_id: ctx.challenge_key,
            verification_id: ctx.verification_result_key,
            resolution,
            resolver: ctx.resolver,
        },
    )
}

// ---------------------------------------------------------------------------
// Verifiers, requests and reports

/// Why registering a verifier is refused, checked in order; `None` where it
/// may go ahead.
pub open spec fn verifier_rejection(
    ctx: InitializeVerifier,
    verifier_name: String,
    accreditation_body: String,
) -> Option<ErrorCode> {
    if !found_at(
        program_address(tagged_key(VERIFIER_TAG, ctx.authority), ctx.program_id),
        ctx.verifier_key,
    ) {
        Some(ErrorCode::ConstraintSeeds)
    } else if ctx.verifier is Some {
        Some(ErrorCode::AccountAlreadyInitialized)
    } else if byte_len(verifier_name) > MAX_NAME_LEN {
        Some(ErrorCode::VerifierNameTooLong)
    } else if byte_len(accreditation_body) > MAX_NAME_LEN {
        Some(ErrorCode::AccreditationBodyTooLong)
    } else {
        None
    }
}

/// Registers the signing authority as an active verifier with zero totals.
pub fn initialize_verifier(
    ctx: &mut InitializeVerifier,
    verifier_name: String,
    certification_level: CertificationLevel,
    accreditation_body: String,
    now: i64,
) -> (r: Result<VerifierInitialized, ErrorCode>)
    ensures
        verifier_rejection(*old(ctx), verifier_name, accreditation_body) matches Some(e)
            ==> r == Err::<VerifierInitialized, ErrorCode>(e) && *final(ctx) == *old(ctx),
        verifier_rejection(*old(ctx), verifier_name, accreditation_body) is None ==> {
            &&& r == Ok::<VerifierInitialized, ErrorCode>(
                VerifierInitialized {
                    verifier_id: old(ctx).verifier_key,
                    authority: old(ctx).authority,
                    verifier_name,
                    certification_level,
                },
            )
            &&& *final(ctx) == (InitializeVerifier {
                verifier: Some(
                    Verifier {
                        authority: old(ctx).authority,
                        verifier_name,
                        certification_level,
                        accreditation_body,
                        is_active: true,
                        total_projects_verified: 0,
                        total_credits_verified: 0,
                        created_at: now,
                    },
                ),
                ..*old(ctx)
            })
        },
{
    if !address_matches(address_of_key(&ctx.program_id, VERIFIER_TAG, &ctx.authority), &ctx.verifier_key) {
        return Err(ErrorCode::ConstraintSeeds);
    }
    if ctx.verifier.is_some() {
        return Err(ErrorCode::AccountAlreadyInitialized);
    }
    if !fits(&verifier_name, MAX_NAME_LEN) {
        return Err(ErrorCode::VerifierNameTooLong);
    }
    if !fits(&accreditation_body, MAX_NAME_LEN) {
        return Err(ErrorCode::AccreditationBodyTooLong);
    }
    let event = VerifierInitialized {
        verifier_id: ctx.verifier_key,
        authority: ctx.authority,
        verifier_name: verifier_name.clone(),
        certification_level,
    };
    ctx.verifier = Some(
        Verifier {
            authority: ctx.authority,
            verifier_name,
            certification_level,
            accreditation_body,
            is_active: true,
            total_projects_verified: 0,
            total_credits_verified: 0,
            created_at: now,
        },
    );
    Ok(event)
}

/// Why submitting a request is refused, checked in order; `None` where it
/// may go ahead.
pub open spec fn request_rejection(
    ctx: SubmitVerificationRequest,
    project_key: Key,
    documentation_uri: String,
    estimated_credits: u64,
) -> Option<ErrorCode> {
    if !found_at(
        program_address(tagged_keys(VERIFICATION_REQUEST_TAG, project_key, ctx.requester), ctx.program_id),
        ctx.verification_request_key,
    ) {
        Some(ErrorCode::ConstraintSeeds)
    } else if ctx.verification_request is Some {
        Some(ErrorCode::AccountAlreadyInitialized)
    } else if byte_len(documentation_uri) > MAX_URI_LEN {
        Some(ErrorCode::DocumentationUriTooLong)
    } else if estimated_credits == 0 {
        Some(ErrorCode::InvalidCreditAmount)
    } else {
        None
    }
}

/// Asks the verifier to verify the project's claimed credits; the request
/// starts `Pending`.
pub fn submit_verification_request(
    ctx: &mut SubmitVerificationRequest,
    project_key: Key,
    verification_type: VerificationType,
    documentation_uri: String,
    estimated_credits: u64,
    now: i64,
) -> (r: Result<VerificationRequestSubmitted, ErrorCode>)
    ensures
        request_rejection(*old(ctx), project_key, documentation_uri, estimated_credits) matches Some(e)
            ==> r == Err::<VerificationRequestSubmitted, ErrorCode>(e) && *final(ctx) == *old(ctx),
        request_rejection(*old(ctx), project_key, documentation_uri, estimated_credits) is None ==> {
            &&& r == Ok::<VerificationRequestSubmitted, ErrorCode>(
                VerificationRequestSubmitted {
                    request_id: old(ctx).verification_request_key,
                    project: project_key,
                    requester: old(ctx).requester,
                    verifier: old(ctx).verifier_key,
                    verification_type,
                },
            )
            &&& *final(ctx) == (SubmitVerificationRequest {
                verification_request: Some(
                    VerificationRequest {
                        project: project_key,
                        requester: old(ctx).requester,
                        verifier: old(ctx).verifier_key,
                        verification_type,
                        documentation_uri,
                        estimated_credits,
                        status: VerificationStatus::Pending,
                        submitted_at: now,
                        completed_at: None,
                    },
                ),
                ..*old(ctx)
            })
        },
{
    if !address_matches(
        address_of_keys(&ctx.program_id, VERIFICATION_REQUEST_TAG, &project_key, &ctx.requester),
        &ctx.verification_request_key,
    ) {
        return Err(ErrorCode::ConstraintSeeds);
    }
    if ctx.verification_request.is_some() {
        return Err(ErrorCode::AccountAlreadyInitialized);
    }
    if !fits(&documentation_uri, MAX_URI_LEN) {
        return Err(ErrorCode::DocumentationUriTooLong);
    }
    if estimated_credits == 0 {
        return Err(ErrorCode::InvalidCreditAmount);
    }
    ctx.verification_request = Some(
        VerificationRequest {
            project: project_key,
            requester: ctx.requester,
            verifier: ctx.verifier_key,
            verification_type,
            documentation_uri,
            estimated_credits,
            status: VerificationStatus::Pending,
            submitted_at: now,
            completed_at: None,
        },
    );
    Ok(
        VerificationRequestSubmitted {
            request_id: ctx.verification_request_key,
            project: project_key,
            requester: ctx.requester,
            verifier: ctx.verifier_key,
            verification_type,
        },
    )
}

/// Turns the verifier on or off. Only its own authority may.
pub fn update_verifier_status(ctx: &mut UpdateVerifierStatus, is_active: bool) -> (r: Result<
    VerifierStatusUpdated,
    ErrorCode,
>)
    ensures
        old(ctx).verifier.authority != old(ctx).authority ==> r == Err::<VerifierStatusUpdated, ErrorCode>(
            ErrorCode::Unauthorized,
        ) && *final(ctx) == *old(ctx),
        old(ctx).verifier.authority == old(ctx).authority ==> {
            &&& r == Ok::<VerifierStatusUpdated, ErrorCode>(
                VerifierStatusUpdated {
                    verifier_id: old(ctx).verifier_key,
                    old_status: old(ctx).verifier.is_active,
                    new_status: is_active,
                    updated_by: old(ctx).authority,
                },
            )
            &&& *final(ctx) == (UpdateVerifierStatus {
                verifier: Verifier { is_active, ..old(ctx).verifier },
                ..*old(ctx)
            })
        },
{
    if ctx.verifier.authority != ctx.authority {
        return Err(ErrorCode::Unauthorized);
    }
    let old_status = ctx.verifier.is_active;
    ctx.verifier.is_active = is_active;
    Ok(
        VerifierStatusUpdated {
            verifier_id: ctx.verifier_key,
            old_status,
            new_status: is_active,
            updated_by: ctx.authority,
        },
    )
}

/// Why filing a report is refused, checked in order; `None` where it may go
/// ahead.
pub open spec fn report_rejection(
    ctx: CreateVerificationReport,
    report_uri: String,
    methodology_details: String,
    sampling_approach: String,
) -> Option<ErrorCode> {
    if !found_at(
        program_address(tagged_key(VERIFICATION_REPORT_TAG, ctx.verification_result_key), ctx.program_id),
        ctx.verification_report_key,
    ) {
        Some(ErrorCode::ConstraintSeeds)
    } else if ctx.verification_report is Some {
        Some(ErrorCode::AccountAlreadyInitialized)
    } else if ctx.verifier.authority != ctx.verifier_authority {
        Some(ErrorCode::Unauthorized)
    } else if byte_len(report_uri) > MAX_URI_LEN {
        Some(ErrorCode::ReportUriTooLong)
    } else if byte_len(methodology_details) > MAX_METHODOLOGY_DETAILS_LEN {
        Some(ErrorCode::MethodologyDetailsTooLong)
    } else if byte_len(sampling_approach) > MAX_NOTES_LEN {
        Some(ErrorCode::SamplingApproachTooLong)
    } else {
        None
    }
}

/// Files the verifier's supplementary report on a verdict; no status
/// changes.
pub fn create_verification_report(
    ctx: &mut CreateVerificationReport,
    report_uri: String,
    methodology_details: String,
    sampling_approach: String,
    now: i64,
) -> (r: Result<VerificationReportCreated, ErrorCode>)
    ensures
        report_rejection(*old(ctx), report_uri, methodology_details, sampling_approach) matches Some(e)
            ==> r == Err::<VerificationReportCreated, ErrorCode>(e) && *final(ctx) == *old(ctx),
        report_rejection(*old(ctx), report_uri, methodology_details, sampling_approach) is None ==> {
            &&& r == Ok::<VerificationReportCreated, ErrorCode>(
                VerificationReportCreated {
                    report_id: old(ctx).verification_report_key,
                    verification_id: old(ctx).verification_result_key,
                    verifier: old(ctx).verifier_key,
                },
            )
            &&& *final(ctx) == (CreateVerificationReport {
                verification_report: Some(
                    VerificationReport {
                        verification: old(ctx).verification_result_key,
                        verifier: old(ctx).verifier_key,
                        report_uri,
                        methodology_details,
                        sampling_approach,
                        created_at: now,
                    },
                ),
                ..*old(ctx)
            })
        },
{
    if !address_matches(
        address_of_key(&ctx.program_id, VERIFICATION_REPORT_TAG, &ctx.verification_result_key),
        &ctx.verification_report_key,
    ) {
        return Err(ErrorCode::ConstraintSeeds);
    }
    if ctx.verification_report.is_some() {
        return Err(ErrorCode::AccountAlreadyInitialized);
    }
    if ctx.verifier.authority != ctx.verifier_authority {
        return Err(ErrorCode::Unauthorized);
    }
    if !fits(&report_uri, MAX_URI_LEN) {
        return Err(ErrorCode::ReportUriTooLong);
    }
    if !fits(&methodology_details, MAX_METHODOLOGY_DETAILS_LEN) {
        return Err(ErrorCode::MethodologyDetailsTooLong);
    }
    if !fits(&sampling_approach, MAX_NOTES_LEN) {
        return Err(ErrorCode::SamplingApproachTooLong);
    }
    ctx.verification_report = Some(
        VerificationReport {
            verification: ctx.verification_result_key,
            verifier: ctx.verifier_key,
            report_uri,
            methodology_details,
            sampling_approach,
            created_at: now,
        },
    );
    Ok(
        VerificationReportCreated {
            report_id: ctx.verification_report_key,
            verification_id: ctx.verification_result_key,
            verifier: ctx.verifier_key,
        },
    )
}

// ---------------------------------------------------------------------------
// Laws of the workflow

/// A completed request is final: once a verdict was recorded on a request,
/// recording another on it is refused, whatever the arguments and however
/// often it is tried (a refused call changes nothing).
pub proof fn lemma_completed_request_is_final(
    ctx: ConductVerification,
    verified_credits: u64,
    verification_notes: String,
    compliance_score: u8,
    now: i64,
    later: ConductVerification,
    later_credits: u64,
    later_notes: String,
    later_score: u8,
)
    requires
        conduct_rejection(ctx, verified_credits, verification_notes, compliance_score) is None,
        later.verification_request == completed(ctx.verification_request, now),
    ensures
        conduct_rejection(later, later_credits, later_notes, later_score) is Some,
{
}

/// A resolved challenge is final: once a challenge was resolved, resolving
/// it again is refused, whatever the resolution and however often it is
/// tried (a refused call changes nothing).
pub proof fn lemma_resolved_challenge_is_final(
    ctx: ResolveChallenge,
    resolution: ChallengeResolution,
    resolution_notes: String,
    now: i64,
    later: ResolveChallenge,
    later_notes: String,
)
    requires
        resolve_rejection(ctx, resolution_notes) is None,
        later.challenge == closed(ctx.challenge, resolution, resolution_notes, now),
    ensures
        resolve_rejection(later, later_notes) is Some,
{
}

/// Challenge round trip: opening a challenge against a valid verdict makes
/// it invalid; the challenge just opened can then be resolved against that
/// verdict (given notes of allowed length), and resolving it `Rejected`
/// restores the verdict exactly, while `Upheld` leaves it invalid.
pub proof fn lemma_challenge_round_trip(
    ctx: ChallengeVerification,
    challenge_reason: String,
    evidence_uri: String,
    now: i64,
    resolver: Key,
    resolution: ChallengeResolution,
    resolution_notes: String,
)
    requires
        ctx.verification_result.is_valid,
        challenge_rejection(ctx, challenge_reason, evidence_uri) is None,
        byte_len(resolution_notes) <= MAX_NOTES_LEN,
    ensures
        ({
            let verdict = challenged(ctx.verification_result);
            let resolving = ResolveChallenge {
                challenge: opened_challenge(ctx, challenge_reason, evidence_uri, now),
                challenge_key: ctx.challenge_key,
                verification_result: verdict,
                verification_result_key: ctx.verification_result_key,
                resolver,
            };
            &&& !verdict.is_valid
            &&& resolve_rejection(resolving, resolution_notes) is None
            &&& resolved(verdict, resolution).is_valid == (resolution == ChallengeResolution::Rejected)
            &&& resolved(verdict, ChallengeResolution::Rejected) == ctx.verification_result
            &&& !resolved(verdict, ChallengeResolution::Upheld).is_valid
        }),
{
}

} // verus!
