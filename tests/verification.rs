use carbon_credits::address::{address_of_key, address_of_keys};
use carbon_credits::common::Key;
use carbon_credits::verification::{
    challenge_verification, conduct_verification, create_verification_report, initialize_verifier,
    resolve_challenge, submit_verification_request, update_verifier_status, CertificationLevel,
    ChallengeResolution, ChallengeStatus, ChallengeVerification, ConductVerification,
    CreateVerificationReport, ErrorCode, InitializeVerifier, ResolveChallenge,
    SubmitVerificationRequest, UpdateVerifierStatus, VerificationChallenge, VerificationRequest,
    VerificationResult, VerificationStatus, VerificationType, Verifier, CHALLENGE_TAG,
    VERIFICATION_REPORT_TAG, VERIFICATION_REQUEST_TAG, VERIFICATION_RESULT_TAG, VERIFIER_TAG,
};

fn key(n: u8) -> Key {
    Key { bytes: [n; 32] }
}

const VERIFIER_AUTHORITY: u8 = 20;

fn program() -> Key {
    key(200)
}

fn derived(found: Option<(Key, u8)>) -> Key {
    found.expect("an address exists for these seeds").0
}

fn verifier_key_of(authority: u8) -> Key {
    derived(address_of_key(&program(), VERIFIER_TAG, &key(authority)))
}

fn request_key() -> Key {
    derived(address_of_keys(&program(), VERIFICATION_REQUEST_TAG, &key(3), &key(2)))
}

fn result_key() -> Key {
    derived(address_of_key(&program(), VERIFICATION_RESULT_TAG, &request_key()))
}

fn new_verifier() -> Verifier {
    let mut ctx = InitializeVerifier {
        program_id: program(),
        verifier: None,
        verifier_key: verifier_key_of(VERIFIER_AUTHORITY),
        authority: key(VERIFIER_AUTHORITY),
    };
    initialize_verifier(&mut ctx, "Auditor".to_string(), CertificationLevel::Expert, "ANAB".to_string(), 1).unwrap();
    ctx.verifier.unwrap()
}

fn new_request() -> VerificationRequest {
    let mut ctx = SubmitVerificationRequest {
        program_id: program(),
        verification_request: None,
        verification_request_key: request_key(),
        verifier_key: verifier_key_of(VERIFIER_AUTHORITY),
        requester: key(2),
    };
    submit_verification_request(&mut ctx, key(3), VerificationType::Initial, "ipfs://doc".to_string(), 1000, 2)
        .unwrap();
    ctx.verification_request.unwrap()
}

fn conduct_ctx(signer: u8) -> ConductVerification {
    ConductVerification {
        program_id: program(),
        verification_request: new_request(),
        verification_request_key: request_key(),
        verification_result: None,
        verification_result_key: result_key(),
        verifier: new_verifier(),
        verifier_key: verifier_key_of(VERIFIER_AUTHORITY),
        verifier_authority: key(signer),
    }
}

fn new_verdict() -> VerificationResult {
    let mut ctx = conduct_ctx(VERIFIER_AUTHORITY);
    conduct_verification(&mut ctx, 900, "ok".to_string(), 87, 5).unwrap();
    ctx.verification_result.unwrap()
}

fn challenge_ctx(result: VerificationResult) -> ChallengeVerification {
    ChallengeVerification {
        program_id: program(),
        verification_result: result,
        verification_result_key: result_key(),
        challenge: None,
        challenge_key: derived(address_of_keys(&program(), CHALLENGE_TAG, &result_key(), &key(41))),
        challenger: key(41),
    }
}

fn open_challenge() -> (VerificationChallenge, VerificationResult) {
    let mut ctx = challenge_ctx(new_verdict());
    challenge_verification(&mut ctx, "double counted".to_string(), "ipfs://e".to_string(), 7).unwrap();
    (ctx.challenge.unwrap(), ctx.verification_result)
}

fn resolve_ctx(challenge: VerificationChallenge, result: VerificationResult) -> ResolveChallenge {
    ResolveChallenge {
        challenge,
        challenge_key: key(40),
        verification_result: result,
        verification_result_key: result_key(),
        resolver: key(42),
    }
}

#[test]
fn verifier_initialization() {
    let v = new_verifier();
    assert!(v.is_active);
    assert_eq!(v.authority, key(VERIFIER_AUTHORITY));
    assert_eq!(v.total_projects_verified, 0);
    assert_eq!(v.certification_level, CertificationLevel::Expert);
    let mut taken = InitializeVerifier {
        program_id: program(),
        verifier: Some(v),
        verifier_key: verifier_key_of(VERIFIER_AUTHORITY),
        authority: key(VERIFIER_AUTHORITY),
    };
    assert_eq!(
        initialize_verifier(&mut taken, "a".to_string(), CertificationLevel::Basic, "b".to_string(), 1).unwrap_err(),
        ErrorCode::AccountAlreadyInitialized
    );
    let mut fresh = InitializeVerifier {
        program_id: program(),
        verifier: None,
        verifier_key: verifier_key_of(1),
        authority: key(1),
    };
    assert_eq!(
        initialize_verifier(&mut fresh, "a".repeat(65), CertificationLevel::Basic, "b".to_string(), 1).unwrap_err(),
        ErrorCode::VerifierNameTooLong
    );
    assert_eq!(
        initialize_verifier(&mut fresh, "a".to_string(), CertificationLevel::Basic, "b".repeat(65), 1).unwrap_err(),
        ErrorCode::AccreditationBodyTooLong
    );
}

#[test]
fn request_submission() {
    let r = new_request();
    assert_eq!(r.status, VerificationStatus::Pending);
    assert_eq!(r.project, key(3));
    assert_eq!(r.verifier, verifier_key_of(VERIFIER_AUTHORITY));
    assert_eq!(r.completed_at, None);
    let ctx = || SubmitVerificationRequest {
        program_id: program(),
        verification_request: None,
        verification_request_key: request_key(),
        verifier_key: verifier_key_of(VERIFIER_AUTHORITY),
        requester: key(2),
    };
    assert_eq!(
        submit_verification_request(&mut ctx(), key(3), VerificationType::Periodic, "u".repeat(201), 1, 2)
            .unwrap_err(),
        ErrorCode::DocumentationUriTooLong
    );
    assert_eq!(
        submit_verification_request(&mut ctx(), key(3), VerificationType::Periodic, String::new(), 0, 2).unwrap_err(),
        ErrorCode::InvalidCreditAmount
    );
    let mut taken = ctx();
    taken.verification_request = Some(r);
    assert_eq!(
        submit_verification_request(&mut taken, key(3), VerificationType::Periodic, String::new(), 1, 2).unwrap_err(),
        ErrorCode::AccountAlreadyInitialized
    );
}

#[test]
fn conducting_completes_the_request() {
    let mut ctx = conduct_ctx(VERIFIER_AUTHORITY);
    let ev = conduct_verification(&mut ctx, 900, "ok".to_string(), 87, 5).unwrap();
    assert_eq!(ev.verified_credits, 900);
    assert_eq!(ev.project, key(3));
    assert_eq!(ctx.verification_request.status, VerificationStatus::Completed);
    assert_eq!(ctx.verification_request.completed_at, Some(5));
    let result = ctx.verification_result.clone().unwrap();
    assert!(result.is_valid);
    assert_eq!(result.compliance_score, 87);
    assert_eq!(result.methodology_used, VerificationType::Initial);
    assert_eq!(ctx.verifier.total_projects_verified, 1);
    assert_eq!(ctx.verifier.total_credits_verified, 900);
}

#[test]
fn completed_request_refuses_every_later_verdict() {
    let mut first = conduct_ctx(VERIFIER_AUTHORITY);
    conduct_verification(&mut first, 900, "ok".to_string(), 87, 5).unwrap();
    for _ in 0..3 {
        let mut later = ConductVerification {
            program_id: program(),
            verification_request: first.verification_request.clone(),
            verification_request_key: request_key(),
            verification_result: None,
            verification_result_key: result_key(),
            verifier: first.verifier.clone(),
            verifier_key: verifier_key_of(VERIFIER_AUTHORITY),
            verifier_authority: key(VERIFIER_AUTHORITY),
        };
        let e = conduct_verification(&mut later, 1, String::new(), 50, 6).unwrap_err();
        assert_eq!(e, ErrorCode::RequestNotPending);
        assert!(later.verification_result.is_none());
        assert_eq!(later.verifier.total_projects_verified, 1);
    }
}

#[test]
fn conduct_rejections() {
    assert_eq!(
        conduct_verification(&mut conduct_ctx(9), 1, String::new(), 50, 5).unwrap_err(),
        ErrorCode::Unauthorized
    );
    assert_eq!(
        conduct_verification(&mut conduct_ctx(VERIFIER_AUTHORITY), 1, "n".repeat(501), 50, 5).unwrap_err(),
        ErrorCode::VerificationNotesTooLong
    );
    assert_eq!(
        conduct_verification(&mut conduct_ctx(VERIFIER_AUTHORITY), 1, String::new(), 101, 5).unwrap_err(),
        ErrorCode::InvalidComplianceScore
    );
    assert!(conduct_verification(&mut conduct_ctx(VERIFIER_AUTHORITY), 1, String::new(), 100, 5).is_ok());
    let mut full = conduct_ctx(VERIFIER_AUTHORITY);
    full.verifier.total_credits_verified = u64::MAX;
    assert_eq!(
        conduct_verification(&mut full, 1, String::new(), 50, 5).unwrap_err(),
        ErrorCode::ArithmeticOverflow
    );
    assert_eq!(full.verification_request.status, VerificationStatus::Pending);
    let mut taken = conduct_ctx(VERIFIER_AUTHORITY);
    taken.verification_result = Some(new_verdict());
    assert_eq!(
        conduct_verification(&mut taken, 1, String::new(), 50, 5).unwrap_err(),
        ErrorCode::AccountAlreadyInitialized
    );
}

#[test]
fn challenge_then_reject_restores_validity() {
    let (challenge, result) = open_challenge();
    assert_eq!(challenge.status, ChallengeStatus::Open);
    assert_eq!(challenge.verification, result_key());
    assert!(!result.is_valid);
    let mut ctx = resolve_ctx(challenge, result);
    let ev = resolve_challenge(&mut ctx, ChallengeResolution::Rejected, "unfounded".to_string(), 9).unwrap();
    assert_eq!(ev.resolution, ChallengeResolution::Rejected);
    assert!(ctx.verification_result.is_valid);
    assert_eq!(ctx.challenge.status, ChallengeStatus::Rejected);
    assert_eq!(ctx.challenge.resolved_at, Some(9));
    assert_eq!(ctx.challenge.resolution_notes, Some("unfounded".to_string()));
}

#[test]
fn challenge_then_uphold_keeps_invalid() {
    let (challenge, result) = open_challenge();
    let mut ctx = resolve_ctx(challenge, result);
    resolve_challenge(&mut ctx, ChallengeResolution::Upheld, String::new(), 9).unwrap();
    assert!(!ctx.verification_result.is_valid);
    assert_eq!(ctx.challenge.status, ChallengeStatus::Upheld);
}

#[test]
fn resolved_challenge_refuses_every_later_resolution() {
    let (challenge, result) = open_challenge();
    let mut ctx = resolve_ctx(challenge, result);
    resolve_challenge(&mut ctx, ChallengeResolution::Upheld, String::new(), 9).unwrap();
    for resolution in [ChallengeResolution::Rejected, ChallengeResolution::Upheld, ChallengeResolution::Rejected] {
        let e = resolve_challenge(&mut ctx, resolution, String::new(), 10).unwrap_err();
        assert_eq!(e, ErrorCode::ChallengeNotOpen);
        assert!(!ctx.verification_result.is_valid);
        assert_eq!(ctx.challenge.status, ChallengeStatus::Upheld);
    }
}

#[test]
fn challenge_and_resolution_rejections() {
    let mut long_reason = challenge_ctx(new_verdict());
    assert_eq!(
        challenge_verification(&mut long_reason, "r".repeat(501), String::new(), 7).unwrap_err(),
        ErrorCode::ChallengeReasonTooLong
    );
    assert!(long_reason.verification_result.is_valid);
    assert_eq!(
        challenge_verification(&mut challenge_ctx(new_verdict()), String::new(), "e".repeat(201), 7).unwrap_err(),
        ErrorCode::EvidenceUriTooLong
    );
    let (challenge, result) = open_challenge();
    let mut taken = challenge_ctx(result.clone());
    taken.challenge = Some(challenge.clone());
    assert_eq!(
        challenge_verification(&mut taken, String::new(), String::new(), 7).unwrap_err(),
        ErrorCode::AccountAlreadyInitialized
    );
    assert_eq!(
        resolve_challenge(&mut resolve_ctx(challenge.clone(), result.clone()), ChallengeResolution::Upheld, "n".repeat(501), 9)
            .unwrap_err(),
        ErrorCode::ResolutionNotesTooLong
    );
    let mut elsewhere = resolve_ctx(challenge, result);
    elsewhere.verification_result_key = key(99);
    assert_eq!(
        resolve_challenge(&mut elsewhere, ChallengeResolution::Rejected, String::new(), 9).unwrap_err(),
        ErrorCode::VerificationMismatch
    );
    assert!(!elsewhere.verification_result.is_valid);
}

#[test]
fn verifier_status_updates() {
    let ctx = |signer: u8| UpdateVerifierStatus { verifier: new_verifier(), verifier_key: verifier_key_of(VERIFIER_AUTHORITY), authority: key(signer) };
    let mut ok = ctx(VERIFIER_AUTHORITY);
    let ev = update_verifier_status(&mut ok, false).unwrap();
    assert!(ev.old_status);
    assert!(!ev.new_status);
    assert!(!ok.verifier.is_active);
    let mut other = ctx(9);
    assert_eq!(update_verifier_status(&mut other, false).unwrap_err(), ErrorCode::Unauthorized);
    assert!(other.verifier.is_active);
}

#[test]
fn verification_reports() {
    let ctx = |signer: u8| CreateVerificationReport {
        program_id: program(),
        verification_result_key: result_key(),
        verification_report: None,
        verification_report_key: derived(address_of_key(&program(), VERIFICATION_REPORT_TAG, &result_key())),
        verifier: new_verifier(),
        verifier_key: verifier_key_of(VERIFIER_AUTHORITY),
        verifier_authority: key(signer),
    };
    let mut ok = ctx(VERIFIER_AUTHORITY);
    let ev = create_verification_report(&mut ok, "ipfs://r".to_string(), "m".to_string(), "s".to_string(), 11)
        .unwrap();
    assert_eq!(ev.verification_id, result_key());
    let report = ok.verification_report.clone().unwrap();
    assert_eq!(report.report_uri, "ipfs://r");
    assert_eq!(report.created_at, 11);
    assert_eq!(
        create_verification_report(&mut ok, String::new(), String::new(), String::new(), 11).unwrap_err(),
        ErrorCode::AccountAlreadyInitialized
    );
    assert_eq!(
        create_verification_report(&mut ctx(9), String::new(), String::new(), String::new(), 11).unwrap_err(),
        ErrorCode::Unauthorized
    );
    let s = String::new;
    assert_eq!(
        create_verification_report(&mut ctx(VERIFIER_AUTHORITY), "u".repeat(201), s(), s(), 11).unwrap_err(),
        ErrorCode::ReportUriTooLong
    );
    assert_eq!(
        create_verification_report(&mut ctx(VERIFIER_AUTHORITY), s(), "m".repeat(1001), s(), 11).unwrap_err(),
        ErrorCode::MethodologyDetailsTooLong
    );
    assert_eq!(
        create_verification_report(&mut ctx(VERIFIER_AUTHORITY), s(), s(), "x".repeat(501), 11).unwrap_err(),
        ErrorCode::SamplingApproachTooLong
    );
}

#[test]
fn one_verdict_per_request() {
    let mut first = conduct_ctx(VERIFIER_AUTHORITY);
    conduct_verification(&mut first, 900, "ok".to_string(), 87, 5).unwrap();
    let mut elsewhere = conduct_ctx(VERIFIER_AUTHORITY);
    elsewhere.verification_result_key = key(77);
    assert_eq!(
        conduct_verification(&mut elsewhere, 1, String::new(), 50, 6).unwrap_err(),
        ErrorCode::ConstraintSeeds
    );
    assert_eq!(elsewhere.verification_request.status, VerificationStatus::Pending);
}
