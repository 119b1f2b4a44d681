//! The Windows verifier: which claims it reads, and the decisions that turn
//! a claim into a verdict.
//!
//! A claim is a `username` (or one the first gate already filed under
//! `windows`) with the password riding on it as a proof. The name is read as
//! an account, evidence that names another account refuses the claim naming
//! both, and then the host's logon facility decides: a logon that holds
//! proves the claim, `ERROR_LOGON_FAILURE` refuses it without saying whether
//! the name or the password was wrong, and any other outcome is refused with
//! Win32's name and code for it.
//!
//! Reading a user principal name, and asking whether two are the same, is
//! the identify capability's work. A [`Verification`] therefore goes step by
//! step: each [`Step`] asks for one such answer, or for the logon, and the
//! [`Answer`] handed back decides the next step, until the step is `Done`.

use vstd::prelude::*;
use vstd::string::*;
use crate::account::{Account, Principal, Reading, is_bare_user, not_a_domain, not_an_account_name};
use crate::error::AuthenticateError;
use crate::logon::{Logon, Outcome, Unreachable, outcome_code, outcome_name, unreachable_refusal};
use crate::text::{decimal, decimal_text, same_text, trimmed};

verus! {

/// The name of the proof that carries the password.
pub const PASSWORD: &'static str = "password";

/// The name of the evidence that says which user a claim is about.
pub const PRINCIPAL_USER: &'static str = "principal.user";

/// The verdict on a claim that could be read and logged on.
#[derive(Clone, Copy, Debug, PartialEq, Eq, Structural)]
pub enum Verified {
    /// The credential holds.
    Proven,
    /// The credential does not hold.
    Refused,
}

/// Whether a claim filed under `mechanism` is one this verifier reads: a
/// bare `username`, or one the first gate already filed under `windows`.
pub open spec fn reads_mechanism(mechanism: Seq<char>) -> bool {
    mechanism == "username"@ || mechanism == "windows"@
}

/// Whether a claim filed under `mechanism` is one this verifier reads.
pub fn reads(mechanism: &str) -> (r: bool)
    ensures
        r == reads_mechanism(mechanism@),
{
    same_text(mechanism, "username") || same_text(mechanism, "windows")
}

/// The refusal of a claim this verifier does not read.
pub open spec fn not_read(mechanism: Seq<char>) -> Seq<char> {
    "'"@ + mechanism + "' is not a claim the Windows verifier reads: it takes a username"@
}

/// The refusal of a claim that carries no password.
pub open spec fn no_password(value: Seq<char>) -> Seq<char> {
    "no '"@ + PASSWORD@ + "' proof was presented with the username '"@ + value + "'"@
}

/// The refusal of a claim whose evidence names another account than the one
/// it presents.
pub open spec fn not_same_account(read: Seq<char>, claimed: Seq<char>) -> Seq<char> {
    "the claim presents '"@ + read + "' and its evidence names '"@ + claimed
        + "': not the same account"@
}

/// The refusal of a logon that the host concluded with `outcome`.
pub open spec fn host_refused(account: Seq<char>, outcome: Outcome) -> Seq<char> {
    "the host refused to log '"@ + account + "' on: "@ + outcome_name(outcome) + " ("@ + decimal(
        outcome_code(outcome) as nat,
    ) + ")"@
}

/// The value of the first entry of `entries` named `name`.
pub open spec fn first_named(entries: Seq<(String, String)>, name: Seq<char>) -> Option<
    Seq<char>,
>
    decreases entries.len(),
{
    if entries.len() == 0 {
        None
    } else if entries[0].0@ == name {
        Some(entries[0].1@)
    } else {
        first_named(entries.drop_first(), name)
    }
}

/// The value of the first entry of `entries` named `name`.
pub fn first_value_named(entries: &Vec<(String, String)>, name: &str) -> (r: Option<String>)
    ensures
        r matches Some(v) ==> first_named(entries@, name@) == Some(v@),
        r is None ==> first_named(entries@, name@) is None,
{
    let n: usize = entries.len();
    let mut i: usize = 0;
    assert(entries@.skip(0) =~= entries@);
    while i < n
        invariant
            n == entries@.len(),
            0 <= i <= n,
            first_named(entries@, name@) == first_named(entries@.skip(i as int), name@),
        decreases n - i,
    {
        let ghost rest = entries@.skip(i as int);
        assert(rest[0] == entries@[i as int]);
        if same_text(entries[i].0.as_str(), name) {
            return Some(entries[i].1.clone());
        }
        assert(rest.drop_first() =~= entries@.skip(i + 1));
        i = i + 1;
    }
    None
}

/// What the host's answer to a logon comes to: a logon that holds proves
/// the claim, `ERROR_LOGON_FAILURE` refuses it, any other outcome is refused
/// with its Win32 name and code, and a facility that could not be asked
/// passes its error on.
pub open spec fn concluded(
    account: Account,
    logon: Result<Outcome, AuthenticateError>,
    r: Result<Verified, AuthenticateError>,
) -> bool {
    match logon {
        Err(e) => r == Err::<Verified, AuthenticateError>(e),
        Ok(Outcome::Success) => r == Ok::<Verified, AuthenticateError>(Verified::Proven),
        Ok(Outcome::LogonFailure) => r == Ok::<Verified, AuthenticateError>(Verified::Refused),
        Ok(o) => r matches Err(e) && e.message@ == host_refused(account.text(), o),
    }
}

/// The verdict on a claim for `account`, given what the host's logon
/// facility answered.
pub fn conclude(account: &Account, logon: Result<Outcome, AuthenticateError>) -> (r: Result<
    Verified,
    AuthenticateError,
>)
    ensures
        concluded(*account, logon, r),
{
    match logon {
        Err(e) => Err(e),
        Ok(Outcome::Success) => Ok(Verified::Proven),
        Ok(Outcome::LogonFailure) => Ok(Verified::Refused),
        Ok(other) => {
            let mut message = String::from_str("the host refused to log '");
            let written = account.to_string();
            message.append(written.as_str());
            message.append("' on: ");
            message.append(other.name());
            message.append(" (");
            let code = decimal_text(other.code());
            message.append(code.as_str());
            message.append(")");
            proof {
                assert(message@ =~= host_refused(account.text(), other));
            }
            Err(AuthenticateError::new(message))
        },
    }
}

/// Verifies a `username` claim with a `password` proof through the host's
/// logon facility.
pub struct WindowsAuthenticator {
    domain: Option<String>,
    facility: Option<Box<dyn Logon>>,
}

impl WindowsAuthenticator {
    /// The domain a bare username is looked up in, where one is configured.
    pub closed spec fn configured_domain(&self) -> Option<Seq<char>> {
        match self.domain {
            Some(d) => Some(d@),
            None => None,
        }
    }

    /// Whether a facility was given to log on through; without one, every
    /// logon is refused as [`Unreachable`] refuses it.
    pub closed spec fn has_facility(&self) -> bool {
        self.facility is Some
    }

    /// Whether `facility` is the one this authenticator logs on through.
    pub closed spec fn facility_is<L: Logon + 'static>(&self, facility: L) -> bool {
        let boxed: Box<dyn Logon> = Box::new(facility);
        self.facility == Some(boxed)
    }

    /// Whether `r` is an answer the logon of `account` with `password` may
    /// come to: what the facility given may answer, or, without one, the
    /// refusal of [`Unreachable`].
    pub closed spec fn facility_concludes(
        &self,
        account: Account,
        password: Seq<char>,
        r: Result<Outcome, AuthenticateError>,
    ) -> bool {
        match self.facility {
            Some(facility) => facility.concluded_by(account, password, r),
            None => Unreachable.concluded_by(account, password, r),
        }
    }

    /// Whether two authenticators log on through the same facility.
    pub closed spec fn same_facility(&self, other: &Self) -> bool {
        self.facility == other.facility
    }

    /// Authenticates against the facility this build reaches, which is
    /// none: every logon is refused with the reason until
    /// [`WindowsAuthenticator::with_facility`] gives it one.
    pub fn new() -> (r: Self)
        ensures
            r.configured_domain() is None,
            !r.has_facility(),
    {
        WindowsAuthenticator { domain: None, facility: None }
    }

    /// The domain a bare username is looked up in. Without one, a bare name
    /// is an account of the host itself.
    pub fn with_domain(self, domain: &str) -> (r: Self)
        ensures
            r.configured_domain() == Some(domain@),
            r.has_facility() == self.has_facility(),
            r.same_facility(&self),
    {
        WindowsAuthenticator { domain: Some(String::from_str(domain)), facility: self.facility }
    }

    /// The facility to log on through.
    pub fn with_facility(self, facility: impl Logon + 'static) -> (r: Self)
        ensures
            r.configured_domain() == self.configured_domain(),
            r.has_facility(),
            r.facility_is(facility),
    {
        let f: Option<Box<dyn Logon>> = Some(Box::new(facility));
        WindowsAuthenticator { domain: self.domain, facility: f }
    }

    /// The domain a bare username is looked up in, where one is configured.
    pub fn domain(&self) -> (r: Option<&str>)
        ensures
            r matches Some(d) ==> self.configured_domain() == Some(d@),
            r is None ==> self.configured_domain() is None,
    {
        match &self.domain {
            Some(d) => Some(d.as_str()),
            None => None,
        }
    }

    /// The name of this mechanism, `windows`, by which an acceptance says
    /// which verifier a location uses.
    pub fn mechanism_name(&self) -> (r: &'static str)
        ensures
            r@ == "windows"@,
    {
        "windows"
    }

    /// Log `account` on with `password` through the facility, and hand its
    /// answer on; without one, the logon is refused with the reason and the
    /// account's down-level name.
    pub fn logon(&self, account: &Account, password: &str) -> (r: Result<
        Outcome,
        AuthenticateError,
    >)
        ensures
            self.facility_concludes(*account, password@, r),
            !self.has_facility() ==> (r matches Err(e) && e.message@ == unreachable_refusal(
                account.down_level_name(),
            )),
    {
        match &self.facility {
            Some(facility) => facility.logon(account, password),
            None => Unreachable.logon(account, password),
        }
    }
}

impl Default for WindowsAuthenticator {
    fn default() -> (r: Self)
        ensures
            r.configured_domain() is None,
            !r.has_facility(),
    {
        Self::new()
    }
}

/// Where a verification stands.
pub enum Stage {
    /// Waiting for the identify capability's reading of the presented name.
    ReadingName,
    /// Waiting for the principal `user@domain` of a bare name.
    LookingUp { user: String, domain: String },
    /// The account is read; waiting for the reading of the evidence.
    ReadingEvidence { account: Account },
    /// Waiting for the principal of the account, to hold against the one the
    /// evidence names.
    ReadingAccount { account: Account, claimed: Principal },
    /// Waiting for whether the claimed principal is the account's.
    Comparing { account: Account, claimed: Principal, read: Principal },
    /// Waiting for the host's logon.
    LoggingOn { account: Account },
    /// The verdict is given.
    Finished,
}

/// What a verification asks for next.
pub enum Step {
    /// The identify capability's reading of this text as a user principal
    /// name, answered with [`Answer::Principal`].
    ReadPrincipal(String),
    /// The identify capability's principal `user@domain`, answered with
    /// [`Answer::Principal`].
    PrincipalOf { user: String, domain: String },
    /// Whether, by the identify capability, `claimed` is `read`, answered
    /// with [`Answer::Same`].
    SamePrincipal { claimed: Principal, read: Principal },
    /// The host's logon of the account with the password, answered with
    /// [`Answer::LoggedOn`].
    LogOn { account: Account, password: String },
    /// The verdict.
    Done(Result<Verified, AuthenticateError>),
}

/// An answer to a step.
pub enum Answer {
    /// The principal read, if any.
    Principal(Option<Principal>),
    /// Whether two principals are the same.
    Same(bool),
    /// What the host's logon facility answered.
    LoggedOn(Result<Outcome, AuthenticateError>),
}

/// A claim on its way to a verdict.
pub struct Verification {
    domain: Option<String>,
    value: String,
    password: String,
    evidence: Option<String>,
    stage: Stage,
}

/// The account that a stage holds, where it holds one.
pub open spec fn account_read(stage: Stage) -> Account {
    match stage {
        Stage::ReadingEvidence { account } => account,
        Stage::ReadingAccount { account, .. } => account,
        Stage::Comparing { account, .. } => account,
        Stage::LoggingOn { account } => account,
        _ => arbitrary(),
    }
}

/// The step after the account is read, with the account held in `new`: the
/// evidence is read where the claim carries one, else the logon follows.
pub open spec fn proceeds(v: Verification, new: Verification, step: Step) -> bool {
    match v.evidence() {
        None => new.stage() is LoggingOn && step == (Step::LogOn {
            account: account_read(new.stage()),
            password: v.password(),
        }),
        Some(evidence) => new.stage() is ReadingEvidence && step == Step::ReadPrincipal(evidence),
    }
}

/// The logon of `account` with the presented password is the next step.
pub open spec fn logs_on(v: Verification, account: Account, new: Verification, step: Step) -> bool {
    &&& new.stage() == (Stage::LoggingOn { account })
    &&& step == (Step::LogOn { account, password: v.password() })
}

/// The verification is over, refused with `message`.
pub open spec fn finishes(new: Verification, step: Step, message: Seq<char>) -> bool {
    &&& new.stage() is Finished
    &&& step matches Step::Done(Err(e)) && e.message@ == message
}

/// What one answer does to a verification: the stage it moves to and the
/// step it asks for next.
pub open spec fn advances(v: Verification, answer: Answer, new: Verification, step: Step) -> bool {
    &&& new.same_claim(v)
    &&& match v.stage() {
        Stage::ReadingName => match answer {
            Answer::Principal(Some(p)) => proceeds(v, new, step) && account_read(new.stage()).names(
                p,
            ),
            Answer::Principal(None) => {
                let user = trimmed(v.value()@);
                if !is_bare_user(user) {
                    finishes(new, step, not_an_account_name(v.value()@))
                } else {
                    match v.domain() {
                        None => {
                            &&& proceeds(v, new, step)
                            &&& account_read(new.stage()).domain is None
                            &&& account_read(new.stage()).user@ == user
                        },
                        Some(d) => {
                            &&& new.stage() matches Stage::LookingUp { user: u, domain: dd }
                            &&& u@ == user && dd@ == d@
                            &&& step == (Step::PrincipalOf { user: u, domain: dd })
                        },
                    }
                }
            },
            _ => false,
        },
        Stage::LookingUp { user, domain } => match answer {
            Answer::Principal(Some(p)) => proceeds(v, new, step) && account_read(new.stage()).names(
                p,
            ),
            Answer::Principal(None) => finishes(new, step, not_a_domain(domain@, v.value()@)),
            _ => false,
        },
        Stage::ReadingEvidence { account } => match answer {
            Answer::Principal(Some(claimed)) => match account.domain {
                Some(d) => {
                    &&& new.stage() == (Stage::ReadingAccount { account, claimed })
                    &&& step == (Step::PrincipalOf { user: account.user, domain: d })
                },
                None => logs_on(v, account, new, step),
            },
            Answer::Principal(None) => logs_on(v, account, new, step),
            _ => false,
        },
        Stage::ReadingAccount { account, claimed } => match answer {
            Answer::Principal(Some(read)) => {
                &&& new.stage() == (Stage::Comparing { account, claimed, read })
                &&& step == (Step::SamePrincipal { claimed, read })
            },
            Answer::Principal(None) => logs_on(v, account, new, step),
            _ => false,
        },
        Stage::Comparing { account, claimed, read } => match answer {
            Answer::Same(true) => logs_on(v, account, new, step),
            Answer::Same(false) => finishes(new, step, not_same_account(read.text(), claimed.text())),
            _ => false,
        },
        Stage::LoggingOn { account } => match answer {
            Answer::LoggedOn(logon) => {
                &&& new.stage() is Finished
                &&& step matches Step::Done(r) && concluded(account, logon, r)
            },
            _ => false,
        },
        Stage::Finished => false,
    }
}

impl Verification {
    /// The domain a bare name is looked up in.
    pub closed spec fn domain(&self) -> Option<String> {
        self.domain
    }

    /// The presented name.
    pub closed spec fn value(&self) -> String {
        self.value
    }

    /// The presented password.
    pub closed spec fn password(&self) -> String {
        self.password
    }

    /// The first `principal.user` evidence presented, if any.
    pub closed spec fn evidence(&self) -> Option<String> {
        self.evidence
    }

    /// Where the verification stands.
    pub closed spec fn stage(&self) -> Stage {
        self.stage
    }

    /// Whether two verifications are of the same claim.
    pub open spec fn same_claim(&self, other: Verification) -> bool {
        &&& self.domain() == other.domain()
        &&& self.value() == other.value()
        &&& self.password() == other.password()
        &&& self.evidence() == other.evidence()
    }

    /// Whether `answer` is of the kind the current step asked for.
    pub open spec fn awaits(&self, answer: Answer) -> bool {
        match self.stage() {
            Stage::ReadingName => answer is Principal,
            Stage::LookingUp { .. } => answer is Principal,
            Stage::ReadingEvidence { .. } => answer is Principal,
            Stage::ReadingAccount { .. } => answer is Principal,
            Stage::Comparing { .. } => answer is Same,
            Stage::LoggingOn { .. } => answer is LoggedOn,
            Stage::Finished => false,
        }
    }

    /// Whether `answer` is of the kind the current step asked for.
    pub fn answers(&self, answer: &Answer) -> (r: bool)
        ensures
            r == self.awaits(*answer),
    {
        match &self.stage {
            Stage::ReadingName | Stage::LookingUp { .. } | Stage::ReadingEvidence { .. }
            | Stage::ReadingAccount { .. } => match answer {
                Answer::Principal(_) => true,
                _ => false,
            },
            Stage::Comparing { .. } => match answer {
                Answer::Same(_) => true,
                _ => false,
            },
            Stage::LoggingOn { .. } => match answer {
                Answer::LoggedOn(_) => true,
                _ => false,
            },
            Stage::Finished => false,
        }
    }

    /// Begin verifying a claim filed under `mechanism` that presents the name
    /// `value`, with the `password` proof where one was presented and the
    /// claim's `evidence`, against `authenticator`.
    ///
    /// A claim this verifier does not read, or one without a password, is
    /// refused at once; any other claim first asks for the reading of its
    /// name.
    pub fn start(
        authenticator: &WindowsAuthenticator,
        mechanism: &str,
        value: &str,
        password: Option<&str>,
        evidence: &Vec<(String, String)>,
    ) -> (r: (Verification, Step))
        ensures
            r.0.value()@ == value@,
            r.0.domain() matches Some(d) ==> authenticator.configured_domain() == Some(d@),
            r.0.domain() is None ==> authenticator.configured_domain() is None,
            r.0.evidence() matches Some(e) ==> first_named(evidence@, PRINCIPAL_USER@) == Some(
                e@,
            ),
            r.0.evidence() is None ==> first_named(evidence@, PRINCIPAL_USER@) is None,
            !reads_mechanism(mechanism@) ==> finishes(r.0, r.1, not_read(mechanism@)),
            reads_mechanism(mechanism@) && password is None ==> finishes(
                r.0,
                r.1,
                no_password(value@),
            ),
            reads_mechanism(mechanism@) && password is Some ==> {
                &&& r.0.stage() is ReadingName
                &&& r.0.password()@ == password.unwrap()@
                &&& r.1 == Step::ReadPrincipal(r.0.value())
            },
    {
        let domain = match authenticator.domain() {
            Some(d) => Some(String::from_str(d)),
            None => None,
        };
        let found = first_value_named(evidence, PRINCIPAL_USER);
        if !reads(mechanism) {
            let mut message = String::from_str("'");
            message.append(mechanism);
            message.append("' is not a claim the Windows verifier reads: it takes a username");
            proof {
                assert(message@ =~= not_read(mechanism@));
            }
            let v = Verification {
                domain,
                value: String::from_str(value),
                password: String::new(),
                evidence: found,
                stage: Stage::Finished,
            };
            return (v, Step::Done(Err(AuthenticateError::new(message))));
        }
        match password {
            None => {
                let mut message = String::from_str("no '");
                message.append(PASSWORD);
                message.append("' proof was presented with the username '");
                message.append(value);
                message.append("'");
                proof {
                    assert(message@ =~= no_password(value@));
                }
                let v = Verification {
                    domain,
                    value: String::from_str(value),
                    password: String::new(),
                    evidence: found,
                    stage: Stage::Finished,
                };
                (v, Step::Done(Err(AuthenticateError::new(message))))
            },
            Some(password) => {
                let v = Verification {
                    domain,
                    value: String::from_str(value),
                    password: String::from_str(password),
                    evidence: found,
                    stage: Stage::ReadingName,
                };
                let step = Step::ReadPrincipal(v.value.clone());
                (v, step)
            },
        }
    }

    /// Hold `account` as read, and ask for what follows.
    fn proceed(&mut self, account: Account) -> (step: Step)
        ensures
            proceeds(*old(self), *final(self), step),
            account_read(final(self).stage()) == account,
            final(self).same_claim(*old(self)),
    {
        match &self.evidence {
            Some(evidence) => {
                let step = Step::ReadPrincipal(evidence.clone());
                self.stage = Stage::ReadingEvidence { account };
                step
            },
            None => self.log_on(account),
        }
    }

    /// Ask for the logon of `account`.
    fn log_on(&mut self, account: Account) -> (step: Step)
        ensures
            logs_on(*old(self), account, *final(self), step),
            final(self).same_claim(*old(self)),
    {
        let step = Step::LogOn { account: account.duplicate(), password: self.password.clone() };
        self.stage = Stage::LoggingOn { account };
        step
    }

    /// Refuse the claim with `error`.
    fn finish(&mut self, error: AuthenticateError) -> (step: Step)
        ensures
            final(self).stage() is Finished,
            step == Step::Done(Err(error)),
            final(self).same_claim(*old(self)),
    {
        self.stage = Stage::Finished;
        Step::Done(Err(error))
    }

    /// Take the answer to the current step, and ask for the next one.
    pub fn advance(&mut self, answer: Answer) -> (step: Step)
        requires
            old(self).awaits(answer),
        ensures
            advances(*old(self), answer, *final(self), step),
    {
        let mut stage = Stage::Finished;
        std::mem::swap(&mut stage, &mut self.stage);
        match (stage, answer) {
            (Stage::ReadingName, Answer::Principal(principal)) => {
                let domain = match &self.domain {
                    Some(d) => Some(d.as_str()),
                    None => None,
                };
                match Account::parse(self.value.as_str(), domain, principal) {
                    Reading::Read(account) => self.proceed(account),
                    Reading::Refused(error) => self.finish(error),
                    Reading::InDomain { user, domain } => {
                        let step = Step::PrincipalOf { user: user.clone(), domain: domain.clone() };
                        self.stage = Stage::LookingUp { user, domain };
                        step
                    },
                }
            },
            (Stage::LookingUp { user, domain }, Answer::Principal(principal)) => {
                match Account::in_domain(self.value.as_str(), domain.as_str(), principal) {
                    Ok(account) => self.proceed(account),
                    Err(error) => self.finish(error),
                }
            },
            (Stage::ReadingEvidence { account }, Answer::Principal(claimed)) => {
                match claimed {
                    Some(claimed) => match &account.domain {
                        Some(d) => {
                            let step = Step::PrincipalOf {
                                user: account.user.clone(),
                                domain: d.clone(),
                            };
                            self.stage = Stage::ReadingAccount { account, claimed };
                            step
                        },
                        None => self.log_on(account),
                    },
                    None => self.log_on(account),
                }
            },
            (Stage::ReadingAccount { account, claimed }, Answer::Principal(read)) => {
                match read {
                    Some(read) => {
                        let step = Step::SamePrincipal {
                            claimed: claimed.duplicate(),
                            read: read.duplicate(),
                        };
                        self.stage = Stage::Comparing { account, claimed, read };
                        step
                    },
                    None => self.log_on(account),
                }
            },
            (Stage::Comparing { account, claimed, read }, Answer::Same(same)) => {
                if same {
                    self.log_on(account)
                } else {
                    let mut message = String::from_str("the claim presents '");
                    let read_text = read.to_string();
                    message.append(read_text.as_str());
                    message.append("' and its evidence names '");
                    let claimed_text = claimed.to_string();
                    message.append(claimed_text.as_str());
                    message.append("': not the same account");
                    proof {
                        assert(message@ =~= not_same_account(read.text(), claimed.text()));
                    }
                    self.finish(AuthenticateError::new(message))
                }
            },
            (Stage::LoggingOn { account }, Answer::LoggedOn(logon)) => {
                let r = conclude(&account, logon);
                self.stage = Stage::Finished;
                Step::Done(r)
            },
            (_, _) => {
                proof {
                    assert(false);
                }
                Step::Done(Ok(Verified::Refused))
            },
        }
    }
}

/// Evidence is never proof: where the evidence names the very account the
/// claim presents, the next step is the logon of that account with the
/// presented password, the same step a claim without such evidence takes;
/// agreeing evidence proves nothing, and the logon still decides.
pub proof fn lemma_agreeing_evidence_proves_nothing(
    v: Verification,
    account: Account,
    claimed: Principal,
    read: Principal,
    new: Verification,
    step: Step,
)
    requires
        v.stage() == (Stage::Comparing { account, claimed, read }),
        advances(v, Answer::Same(true), new, step),
    ensures
        step == (Step::LogOn { account, password: v.password() }),
        new.stage() == (Stage::LoggingOn { account }),
{
}

/// Evidence that names another account refuses the claim, naming both the
/// account presented and the one the evidence names, before any logon.
pub proof fn lemma_disagreeing_evidence_refuses_naming_both(
    v: Verification,
    account: Account,
    claimed: Principal,
    read: Principal,
    new: Verification,
    step: Step,
)
    requires
        v.stage() == (Stage::Comparing { account, claimed, read }),
        advances(v, Answer::Same(false), new, step),
    ensures
        new.stage() is Finished,
        step matches Step::Done(Err(e)) && e.message@ == not_same_account(read.text(), claimed.text()),
{
}

/// An authenticator given no facility refuses every logon it reaches, with
/// the reason and the account's name: whatever the account and password,
/// the verdict is that refusal.
pub proof fn lemma_no_facility_refuses_with_the_reason(
    v: Verification,
    account: Account,
    logon: Result<Outcome, AuthenticateError>,
    new: Verification,
    step: Step,
)
    requires
        v.stage() == (Stage::LoggingOn { account }),
        logon matches Err(e) && e.message@ == unreachable_refusal(account.down_level_name()),
        advances(v, Answer::LoggedOn(logon), new, step),
    ensures
        step matches Step::Done(Err(e)) && e.message@ == unreachable_refusal(account.down_level_name()),
{
}

/// The host decides alike for a wrong password, an unknown user and another
/// domain: each is `ERROR_LOGON_FAILURE`, and each is refused without saying
/// which it was; only a logon that holds proves the claim.
pub proof fn lemma_only_a_holding_logon_proves(
    account: Account,
    logon: Result<Outcome, AuthenticateError>,
    r: Result<Verified, AuthenticateError>,
)
    requires
        concluded(account, logon, r),
    ensures
        r == Ok::<Verified, AuthenticateError>(Verified::Proven) <==> logon == Ok::<
            Outcome,
            AuthenticateError,
        >(Outcome::Success),
        r == Ok::<Verified, AuthenticateError>(Verified::Refused) <==> logon == Ok::<
            Outcome,
            AuthenticateError,
        >(Outcome::LogonFailure),
{
}

/// The verifier reads exactly two mechanisms: a claim filed under any name
/// other than `username` or `windows` is not read.
pub proof fn lemma_reads_exactly_username_and_windows(mechanism: Seq<char>)
    ensures
        reads_mechanism(mechanism) <==> (mechanism == "username"@ || mechanism == "windows"@),
{
}

/// Evidence is held against the presented account itself: once the evidence
/// is read as a principal, the next step asks for the principal of the
/// account's own user in the account's own domain, to be compared with the
/// claimed one.
pub proof fn lemma_evidence_is_held_against_the_account(
    v: Verification,
    account: Account,
    claimed: Principal,
    new: Verification,
    step: Step,
)
    requires
        v.stage() == (Stage::ReadingEvidence { account }),
        account.domain is Some,
        advances(v, Answer::Principal(Some(claimed)), new, step),
    ensures
        step matches Step::PrincipalOf { user, domain } && user == account.user && domain
            == account.domain.unwrap(),
        new.stage() == (Stage::ReadingAccount { account, claimed }),
{
}

/// The principals compared are the claimed one and the account's own, and
/// the claim is refused, naming both, whenever they differ: the logon is
/// reached only where the identify capability finds them the same.
pub proof fn lemma_the_account_and_the_evidence_are_compared(
    v: Verification,
    account: Account,
    claimed: Principal,
    read: Principal,
    new: Verification,
    step: Step,
    same: bool,
    new2: Verification,
    step2: Step,
)
    requires
        v.stage() == (Stage::ReadingAccount { account, claimed }),
        advances(v, Answer::Principal(Some(read)), new, step),
        advances(new, Answer::Same(same), new2, step2),
    ensures
        step == (Step::SamePrincipal { claimed, read }),
        !same ==> (step2 matches Step::Done(Err(e)) && e.message@ == "the claim presents '"@
            + read.user@ + seq!['@'] + read.domain@ + "' and its evidence names '"@
            + claimed.user@ + seq!['@'] + claimed.domain@ + "': not the same account"@),
        same ==> step2 == (Step::LogOn { account, password: v.password() }),
{
    if !same {
        assert(read.text() =~= read.user@ + seq!['@'] + read.domain@);
        assert(claimed.text() =~= claimed.user@ + seq!['@'] + claimed.domain@);
        assert(not_same_account(read.text(), claimed.text()) =~= "the claim presents '"@
            + read.user@ + seq!['@'] + read.domain@ + "' and its evidence names '"@
            + claimed.user@ + seq!['@'] + claimed.domain@ + "': not the same account"@);
    }
}

/// No verdict without the host: a step gives `Proven` only where it answers a
/// logon that held, and `Refused` only where it answers a logon that failed
/// with `ERROR_LOGON_FAILURE`; every other step that ends a verification ends
/// it with an error.
pub proof fn lemma_a_verdict_comes_only_from_the_host(
    v: Verification,
    answer: Answer,
    new: Verification,
    step: Step,
)
    requires
        advances(v, answer, new, step),
    ensures
        step == Step::Done(Ok::<Verified, AuthenticateError>(Verified::Proven)) ==> (
        v.stage() is LoggingOn && answer == Answer::LoggedOn(
            Ok::<Outcome, AuthenticateError>(Outcome::Success),
        )),
        step == Step::Done(Ok::<Verified, AuthenticateError>(Verified::Refused)) ==> (
        v.stage() is LoggingOn && answer == Answer::LoggedOn(
            Ok::<Outcome, AuthenticateError>(Outcome::LogonFailure),
        )),
{
}

/// The logon is always of the presented password: every step that asks for
/// a logon hands on the password the claim presented, and no answer changes
/// the claim.
pub proof fn lemma_the_logon_is_of_the_presented_password(
    v: Verification,
    answer: Answer,
    new: Verification,
    step: Step,
)
    requires
        advances(v, answer, new, step),
    ensures
        step matches Step::LogOn { password, .. } ==> password == v.password(),
        new.password() == v.password(),
        new.value() == v.value(),
        new.evidence() == v.evidence(),
        new.domain() == v.domain(),
{
}

/// A name the identify capability reads as a principal, in a claim without
/// evidence, is logged on as the account of that principal (its user, in
/// its domain) with the presented password.
pub proof fn lemma_a_principal_is_logged_on_as_itself(
    v: Verification,
    principal: Principal,
    new: Verification,
    step: Step,
)
    requires
        v.stage() is ReadingName,
        v.evidence() is None,
        advances(v, Answer::Principal(Some(principal)), new, step),
    ensures
        step matches Step::LogOn { account, password } && account.user@ == principal.user@
            && account.domain_view() == Some(principal.domain@) && password == v.password(),
{
}

/// Any outcome but a logon that held or failed is refused naming the
/// account and the outcome by Win32's name and code.
pub proof fn lemma_the_host_refusal_names_name_and_code(
    account: Account,
    outcome: Outcome,
    r: Result<Verified, AuthenticateError>,
)
    requires
        concluded(account, Ok(outcome), r),
    ensures
        outcome == Outcome::PasswordExpired ==> (r matches Err(e) && e.message@
            == "the host refused to log '"@ + account.text()
            + "' on: ERROR_PASSWORD_EXPIRED (1330)"@),
        outcome == Outcome::AccountDisabled ==> (r matches Err(e) && e.message@
            == "the host refused to log '"@ + account.text()
            + "' on: ERROR_ACCOUNT_DISABLED (1331)"@),
        outcome == Outcome::AccountLockedOut ==> (r matches Err(e) && e.message@
            == "the host refused to log '"@ + account.text()
            + "' on: ERROR_ACCOUNT_LOCKED_OUT (1909)"@),
{
    reveal_with_fuel(decimal, 5);
    reveal_strlit("' on: ");
    reveal_strlit(" (");
    reveal_strlit(")");
    reveal_strlit("ERROR_PASSWORD_EXPIRED");
    reveal_strlit("ERROR_ACCOUNT_DISABLED");
    reveal_strlit("ERROR_ACCOUNT_LOCKED_OUT");
    reveal_strlit("' on: ERROR_PASSWORD_EXPIRED (1330)");
    reveal_strlit("' on: ERROR_ACCOUNT_DISABLED (1331)");
    reveal_strlit("' on: ERROR_ACCOUNT_LOCKED_OUT (1909)");
    let t = account.text();
    let front = "the host refused to log '"@ + t;
    if outcome == Outcome::PasswordExpired {
        assert(decimal(1330) =~= seq!['1', '3', '3', '0']);
        assert(host_refused(t, outcome) =~= front + "' on: ERROR_PASSWORD_EXPIRED (1330)"@);
    }
    if outcome == Outcome::AccountDisabled {
        assert(decimal(1331) =~= seq!['1', '3', '3', '1']);
        assert(host_refused(t, outcome) =~= front + "' on: ERROR_ACCOUNT_DISABLED (1331)"@);
    }
    if outcome == Outcome::AccountLockedOut {
        assert(decimal(1909) =~= seq!['1', '9', '0', '9']);
        assert(host_refused(t, outcome) =~= front + "' on: ERROR_ACCOUNT_LOCKED_OUT (1909)"@);
    }
}

} // verus!
