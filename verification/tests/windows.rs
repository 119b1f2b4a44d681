use xmip_core_authenticate_windows::account::{Principal, Reading};
use xmip_core_authenticate_windows::authenticator::{
    Answer, Step, Verification, Verified, PASSWORD, PRINCIPAL_USER,
};
use xmip_core_authenticate_windows::error::AuthenticateError;
use xmip_core_authenticate_windows::{
    Account, InProcess, Logon, Outcome, Unreachable, WindowsAuthenticator, UNREACHABLE,
};

// The identify capability's readings, as the tests below rely on them: a
// down-level name is DOMAIN\user, a principal name is user@domain divided
// at the last at-sign, and the domain is kept in lower case.

fn is_domain(domain: &str) -> bool {
    !domain.is_empty()
        && domain
            .split('.')
            .all(|label| !label.is_empty() && label.chars().all(|c| c.is_ascii_alphanumeric() || c == '-'))
}

fn is_user(user: &str) -> bool {
    !user.is_empty() && !user.contains('\\') && !user.chars().any(char::is_whitespace)
}

fn principal_of(user: &str, domain: &str) -> Option<Principal> {
    if is_user(user) && is_domain(domain) {
        Some(Principal::new(user.to_string(), domain.to_lowercase()))
    } else {
        None
    }
}

fn read_principal(text: &str) -> Option<Principal> {
    if let Some((domain, user)) = text.split_once('\\') {
        return principal_of(user, domain);
    }
    let (user, domain) = text.rsplit_once('@')?;
    principal_of(user, domain)
}

fn same_principal(a: &Principal, b: &Principal) -> bool {
    a.user.eq_ignore_ascii_case(&b.user) && a.domain == b.domain
}

fn parse(name: &str, default_domain: Option<&str>) -> Result<Account, AuthenticateError> {
    match Account::parse(name, default_domain, read_principal(name)) {
        Reading::Read(account) => Ok(account),
        Reading::Refused(error) => Err(error),
        Reading::InDomain { user, domain } => {
            Account::in_domain(name, &domain, principal_of(&user, &domain))
        }
    }
}

fn principal(account: &Account) -> Option<Principal> {
    principal_of(&account.user, account.domain.as_deref()?)
}

fn is(a: &Account, b: &Account) -> bool {
    let ours = principal(a);
    let theirs = principal(b);
    let same = match (&ours, &theirs) {
        (Some(x), Some(y)) => same_principal(x, y),
        _ => false,
    };
    a.is(b, ours.as_ref(), theirs.as_ref(), same)
}

fn account(name: &str) -> Account {
    parse(name, None).expect("an account")
}

// A security authority in the process, with its passwords in a plain list.

struct Authority {
    passwords: Vec<(String, String)>,
    restrictions: InProcess,
}

impl Authority {
    fn new(_iterations: u32) -> Self {
        Authority { passwords: Vec::new(), restrictions: InProcess::new() }
    }

    fn with_account(mut self, account: &Account, password: &str) -> Self {
        self.passwords.push((account.canonical(), password.to_string()));
        self
    }

    fn with_disabled(mut self, account: &Account) -> Self {
        self.restrictions = self.restrictions.with_disabled(account);
        self
    }

    fn with_locked_out(mut self, account: &Account) -> Self {
        self.restrictions = self.restrictions.with_locked_out(account);
        self
    }
}

impl Logon for Authority {
    fn logon(&self, account: &Account, password: &str) -> Result<Outcome, AuthenticateError> {
        let name = account.canonical();
        let holds = self.passwords.iter().any(|(n, p)| *n == name && p == password);
        Ok(self.restrictions.logon(account, holds))
    }
}

// A presented claim, and the verifier run over it.

struct Claim {
    mechanism: String,
    value: String,
    proofs: Vec<(String, String)>,
    evidence: Vec<(String, String)>,
}

impl Claim {
    fn passed(mechanism: &str, value: &str) -> Self {
        Claim {
            mechanism: mechanism.to_string(),
            value: value.to_string(),
            proofs: Vec::new(),
            evidence: Vec::new(),
        }
    }

    fn with_proof(mut self, name: &str, value: &str) -> Self {
        self.proofs.push((name.to_string(), value.to_string()));
        self
    }

    fn with_evidence(mut self, name: &str, value: &str) -> Self {
        self.evidence.push((name.to_string(), value.to_string()));
        self
    }

    fn proof_named(&self, name: &str) -> Option<&str> {
        self.proofs.iter().find(|(n, _)| n == name).map(|(_, v)| v.as_str())
    }
}

fn verify(verifier: &WindowsAuthenticator, claim: &Claim) -> Result<Verified, AuthenticateError> {
    let (mut run, mut step) = Verification::start(
        verifier,
        &claim.mechanism,
        &claim.value,
        claim.proof_named(PASSWORD),
        &claim.evidence,
    );
    loop {
        let answer = match step {
            Step::ReadPrincipal(text) => Answer::Principal(read_principal(&text)),
            Step::PrincipalOf { user, domain } => Answer::Principal(principal_of(&user, &domain)),
            Step::SamePrincipal { claimed, read } => Answer::Same(same_principal(&claimed, &read)),
            Step::LogOn { account, password } => Answer::LoggedOn(verifier.logon(&account, &password)),
            Step::Done(result) => return result,
        };
        assert!(run.answers(&answer));
        step = run.advance(answer);
    }
}

fn corp_verifier() -> WindowsAuthenticator {
    let authority = Authority::new(64)
        .with_account(&account("CORP\\alice"), "pencil")
        .with_account(&account("CORP\\retired"), "pencil")
        .with_disabled(&account("CORP\\retired"));
    WindowsAuthenticator::new().with_domain("CORP").with_facility(authority)
}

fn claim(username: &str, password: &str) -> Claim {
    Claim::passed("username", username).with_proof(PASSWORD, password)
}

// The account.

#[test]
fn a_name_is_read_in_each_of_its_three_shapes() {
    let down_level = parse("CORP\\alice", None).expect("read");
    assert_eq!(down_level.domain.as_deref(), Some("corp"));
    assert_eq!(down_level.user, "alice");
    assert_eq!(down_level.to_string(), "corp\\alice");

    let principal = parse("alice@corp.example", Some("OTHER")).expect("read");
    assert_eq!(principal.domain.as_deref(), Some("corp.example"));
    assert_eq!(principal.user, "alice");

    let bare = parse("alice", Some("CORP")).expect("read");
    assert_eq!(bare, down_level);
    let local = parse("alice", None).expect("read");
    assert_eq!(local.domain, None);
    assert_eq!(local.to_string(), "alice");
}

#[test]
fn two_spellings_of_one_account_share_a_canonical_form() {
    let upper = parse("CORP\\Alice", None).expect("read");
    let lower = parse("alice", Some("corp")).expect("read");
    assert_eq!(upper.canonical(), "corp\\alice");
    assert_eq!(upper.canonical(), lower.canonical());
    let local = parse("Alice", None).expect("read");
    assert_eq!(local.canonical(), ".\\alice");
}

#[test]
fn the_down_level_name_and_the_user_principal_name_are_the_same_account() {
    let down_level = parse("PARTNERX\\jane", None).expect("read");
    let principal_name = parse("Jane@partnerx", None).expect("read");
    let bare = parse("JANE", Some("PartnerX")).expect("read");
    assert!(is(&down_level, &principal_name));
    assert!(is(&principal_name, &bare));
    let name = principal(&down_level).expect("in a domain");
    assert_eq!(name.to_string(), "jane@partnerx");

    let local = parse("jane", None).expect("read");
    assert_eq!(principal(&local), None);
    assert!(is(&local, &parse("Jane", None).expect("read")));
    assert!(!is(&local, &down_level), "the host's jane is not the domain's");
    let elsewhere = parse("jane@other", None).expect("read");
    assert!(!is(&down_level, &elsewhere));
}

#[test]
fn what_is_not_an_account_name_is_refused_by_name() {
    for name in ["", "CORP\\", "\\alice", "@corp", "alice@", "A\\B\\c", "a/b"] {
        let failure = parse(name, Some("CORP")).expect_err("refused");
        assert!(
            failure.message.contains("is not a Windows account name"),
            "{name}: {}",
            failure.message
        );
    }
    let guest = parse("a@b@c", Some("CORP")).expect("read");
    assert_eq!((guest.user.as_str(), guest.domain.as_deref()), ("a@b", Some("c")));
    let failure = parse("alice", Some("not a domain")).expect_err("refused");
    assert!(
        failure.message.contains("'not a domain' is not a domain"),
        "{}",
        failure.message
    );
}

// The logon.

fn authority() -> Authority {
    Authority::new(64)
        .with_account(&account("CORP\\alice"), "pencil")
        .with_account(&account("CORP\\retired"), "pencil")
        .with_account(&account("CORP\\hammered"), "pencil")
        .with_disabled(&account("CORP\\retired"))
        .with_locked_out(&account("CORP\\hammered"))
}

#[test]
fn the_in_process_authority_concludes_as_windows_does() {
    let authority = authority();
    let logon = |name: &str, password: &str| {
        authority
            .logon(&account(name), password)
            .expect("the authority was asked")
    };
    assert_eq!(logon("CORP\\alice", "pencil"), Outcome::Success);
    assert_eq!(logon("corp\\ALICE", "pencil"), Outcome::Success);
    assert_eq!(logon("alice@CORP", "pencil"), Outcome::Success);
    assert_eq!(logon("CORP\\alice", "Pencil"), Outcome::LogonFailure);
    assert_eq!(logon("OTHER\\alice", "pencil"), Outcome::LogonFailure);
    assert_eq!(logon("alice", "pencil"), Outcome::LogonFailure);
    assert_eq!(logon("CORP\\retired", "pencil"), Outcome::AccountDisabled);
    assert_eq!(logon("CORP\\retired", "pen"), Outcome::LogonFailure);
    assert_eq!(logon("CORP\\hammered", "pencil"), Outcome::AccountLockedOut);
}

#[test]
fn an_outcome_carries_its_win32_code_and_name() {
    assert_eq!(Outcome::Success.code(), 0);
    assert_eq!(Outcome::LogonFailure.code(), 1326);
    assert_eq!(Outcome::PasswordExpired.name(), "ERROR_PASSWORD_EXPIRED");
    assert_eq!(Outcome::AccountDisabled.code(), 1331);
    assert_eq!(Outcome::AccountLockedOut.code(), 1909);
}

#[test]
fn the_unreachable_facility_logs_nobody_on_and_says_why() {
    let failure = Unreachable
        .logon(&account("CORP\\alice"), "pencil")
        .expect_err("refused");
    assert!(
        failure.message.starts_with(UNREACHABLE),
        "{}",
        failure.message
    );
    assert!(
        failure.message.contains("'CORP\\alice'"),
        "{}",
        failure.message
    );
    assert!(!failure.message.contains("pencil"));
}

// The verifier.

#[test]
fn a_real_logon_is_refused_with_the_reason_on_every_operating_system() {
    let verifier = WindowsAuthenticator::default();
    let failure = verify(&verifier, &claim("CORP\\alice", "pencil")).expect_err("refused");
    assert!(
        failure
            .message
            .starts_with("no SSPI is reachable from this build"),
        "{}",
        failure.message
    );
    assert!(!failure.message.contains("pencil"));
    assert_eq!(verifier.mechanism_name(), "windows");
    assert_eq!(verifier.domain(), None);
}

#[test]
fn through_the_in_process_authority_each_spelling_of_the_account_is_proven() {
    let verifier = corp_verifier();
    assert_eq!(verifier.domain(), Some("CORP"));
    for name in ["alice", "CORP\\alice", "corp\\Alice", "alice@corp"] {
        assert_eq!(
            verify(&verifier, &claim(name, "pencil")).expect("verified"),
            Verified::Proven,
            "{name}"
        );
    }
    let filed = Claim::passed("windows", "alice").with_proof(PASSWORD, "pencil");
    assert_eq!(verify(&verifier, &filed).expect("verified"), Verified::Proven);
}

#[test]
fn a_wrong_password_an_unknown_user_and_another_domain_are_refused_alike() {
    let verifier = corp_verifier();
    for (name, password) in [
        ("alice", "pen"),
        ("mallory", "pencil"),
        ("OTHER\\alice", "pencil"),
    ] {
        assert_eq!(
            verify(&verifier, &claim(name, password)).expect("verified"),
            Verified::Refused,
            "{name}"
        );
    }
}

#[test]
fn a_disabled_account_is_refused_with_win32s_name_for_it() {
    let failure = verify(&corp_verifier(), &claim("retired", "pencil")).expect_err("refused");
    assert_eq!(
        failure.message,
        "the host refused to log 'corp\\retired' on: ERROR_ACCOUNT_DISABLED (1331)"
    );
}

#[test]
fn a_missing_proof_a_malformed_name_and_another_mechanism_are_refused_by_name() {
    let bare = Claim::passed("username", "alice");
    let failure = verify(&corp_verifier(), &bare).expect_err("refused");
    assert!(
        failure.message.contains("'password' proof"),
        "{}",
        failure.message
    );
    let failure = verify(&corp_verifier(), &claim("CORP\\", "pencil")).expect_err("refused");
    assert!(
        failure.message.contains("not a Windows account name"),
        "{}",
        failure.message
    );
    let ticket = Claim::passed("kerberos", "alice@CORP.EXAMPLE").with_proof("kerberos.ap-req", "YII=");
    let failure = verify(&corp_verifier(), &ticket).expect_err("refused");
    assert!(
        failure.message.contains("'kerberos'"),
        "{}",
        failure.message
    );
}

#[test]
fn the_down_level_name_and_the_user_principal_name_log_the_same_account_on() {
    let authority = Authority::new(64).with_account(&account("jane@partnerx"), "pencil");
    let verifier = WindowsAuthenticator::new().with_facility(authority);
    let filed = claim("PARTNERX\\Jane", "pencil").with_evidence(PRINCIPAL_USER, "jane@partnerx");
    assert_eq!(verify(&verifier, &filed).expect("verified"), Verified::Proven);
    let principal_name = claim("jane@PartnerX", "pencil");
    assert_eq!(
        verify(&verifier, &principal_name).expect("verified"),
        Verified::Proven
    );
}

#[test]
fn evidence_of_another_account_than_the_one_presented_is_refused_naming_both() {
    let filed = claim("CORP\\alice", "pencil").with_evidence(PRINCIPAL_USER, "mallory@corp");
    let failure = verify(&corp_verifier(), &filed).expect_err("refused");
    assert!(
        failure.message.contains("'alice@corp'") && failure.message.contains("'mallory@corp'"),
        "{}",
        failure.message
    );
}
