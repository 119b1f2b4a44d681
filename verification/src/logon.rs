//! The logon: the host facility, as a trait, with what this build decides of
//! it.
//!
//! On Windows a username and password are proven by handing them to the
//! Security Support Provider Interface, a call into C, which this build does
//! not make. So the facility is a trait. [`Unreachable`] is what a node gets
//! unless it is given another: it refuses every logon and says why.
//! [`InProcess`] holds what a security authority living in the process
//! decides once its credential store has checked the password: which
//! accounts are locked out and which are disabled.

use vstd::prelude::*;
use vstd::string::*;
use crate::account::Account;
use crate::error::AuthenticateError;
use crate::text::same_text;

verus! {

/// Why [`Unreachable`] refuses, word for word.
pub const UNREACHABLE: &'static str = "no SSPI is reachable from this build";

/// What the host concluded, by the Win32 errors a logon meets.
#[derive(Clone, Copy, Debug, PartialEq, Eq, Structural)]
pub enum Outcome {
    /// The logon held.
    Success,
    /// `ERROR_LOGON_FAILURE`: unknown user name or bad password; Windows
    /// does not say which.
    LogonFailure,
    /// `ERROR_PASSWORD_EXPIRED`: the password is right and must be changed.
    PasswordExpired,
    /// `ERROR_ACCOUNT_DISABLED`: the password is right and the account is
    /// disabled.
    AccountDisabled,
    /// `ERROR_ACCOUNT_LOCKED_OUT`: the account takes no logon for now.
    AccountLockedOut,
}

/// The Win32 error code of an outcome.
pub open spec fn outcome_code(o: Outcome) -> u32 {
    match o {
        Outcome::Success => 0,
        Outcome::LogonFailure => 1326,
        Outcome::PasswordExpired => 1330,
        Outcome::AccountDisabled => 1331,
        Outcome::AccountLockedOut => 1909,
    }
}

/// The Win32 name of an outcome.
pub open spec fn outcome_name(o: Outcome) -> Seq<char> {
    match o {
        Outcome::Success => "ERROR_SUCCESS"@,
        Outcome::LogonFailure => "ERROR_LOGON_FAILURE"@,
        Outcome::PasswordExpired => "ERROR_PASSWORD_EXPIRED"@,
        Outcome::AccountDisabled => "ERROR_ACCOUNT_DISABLED"@,
        Outcome::AccountLockedOut => "ERROR_ACCOUNT_LOCKED_OUT"@,
    }
}

impl Outcome {
    /// The Win32 error code.
    pub fn code(self) -> (c: u32)
        ensures
            c == outcome_code(self),
    {
        match self {
            Outcome::Success => 0,
            Outcome::LogonFailure => 1326,
            Outcome::PasswordExpired => 1330,
            Outcome::AccountDisabled => 1331,
            Outcome::AccountLockedOut => 1909,
        }
    }

    /// The Win32 name for it.
    pub fn name(self) -> (n: &'static str)
        ensures
            n@ == outcome_name(self),
    {
        match self {
            Outcome::Success => "ERROR_SUCCESS",
            Outcome::LogonFailure => "ERROR_LOGON_FAILURE",
            Outcome::PasswordExpired => "ERROR_PASSWORD_EXPIRED",
            Outcome::AccountDisabled => "ERROR_ACCOUNT_DISABLED",
            Outcome::AccountLockedOut => "ERROR_ACCOUNT_LOCKED_OUT",
        }
    }
}

/// Distinct outcomes carry distinct Win32 codes, and distinct names: either
/// one says which outcome the host concluded.
pub proof fn lemma_outcome_code_and_name_identify_it(a: Outcome, b: Outcome)
    ensures
        outcome_code(a) == outcome_code(b) ==> a == b,
        outcome_name(a) == outcome_name(b) ==> a == b,
{
    reveal_strlit("ERROR_SUCCESS");
    reveal_strlit("ERROR_LOGON_FAILURE");
    reveal_strlit("ERROR_PASSWORD_EXPIRED");
    reveal_strlit("ERROR_ACCOUNT_DISABLED");
    reveal_strlit("ERROR_ACCOUNT_LOCKED_OUT");
    if a != b && outcome_name(a) == outcome_name(b) {
        let na = outcome_name(a);
        let nb = outcome_name(b);
        assert(na.len() != nb.len() || na[6] != nb[6] || na[14] != nb[14]);
    }
}

/// The host's logon facility.
pub trait Logon: Send + Sync {
    /// Whether `r` is an answer this facility may give to the logon of
    /// `account` with `password`. A facility that states nothing of its
    /// answers may give any.
    open spec fn concluded_by(
        &self,
        account: Account,
        password: Seq<char>,
        r: Result<Outcome, AuthenticateError>,
    ) -> bool {
        true
    }

    /// Log `account` on with `password`, over the network and without a
    /// desktop, and answer with what the host concluded; an error where the
    /// facility could not be asked at all, which is not a verdict on the
    /// credential.
    fn logon(&self, account: &Account, password: &str) -> (r: Result<Outcome, AuthenticateError>)
        ensures
            self.concluded_by(*account, password@, r),
    ;
}

/// The refusal of [`Unreachable`] for the account whose down-level logon
/// name is `account`.
pub open spec fn unreachable_refusal(account: Seq<char>) -> Seq<char> {
    UNREACHABLE@ + ": binding Secur32 takes unsafe code, which the estate forbids, so '"@ + account
        + "' was not logged on"@
}

/// The facility of a build that binds none: every logon is refused with the
/// reason.
#[derive(Clone, Copy, Debug, Default)]
pub struct Unreachable;

impl Logon for Unreachable {
    /// Every logon is refused with the reason, naming the account.
    open spec fn concluded_by(
        &self,
        account: Account,
        password: Seq<char>,
        r: Result<Outcome, AuthenticateError>,
    ) -> bool {
        r matches Err(e) && e.message@ == unreachable_refusal(account.down_level_name())
    }

    /// Refuses, naming the account by its down-level logon name and the
    /// reason, and never the password.
    fn logon(&self, account: &Account, password: &str) -> (r: Result<Outcome, AuthenticateError>)
        ensures
            r matches Err(e) && e.message@ == unreachable_refusal(account.down_level_name()),
    {
        let mut message = String::from_str(UNREACHABLE);
        message.append(": binding Secur32 takes unsafe code, which the estate forbids, so '");
        let written = account.down_level();
        message.append(written.as_str());
        message.append("' was not logged on");
        proof {
            assert(message@ =~= unreachable_refusal(account.down_level_name()));
        }
        Err(AuthenticateError::new(message))
    }
}

/// What an in-process authority concludes for the account whose canonical
/// form is `name`, given whether its credential store holds `password` for
/// it: a locked-out account takes no logon, right password or wrong; a wrong
/// password fails the logon; a disabled account with the right password is
/// refused as disabled; any other logon holds.
pub open spec fn conclusion(
    locked_out: Seq<Seq<char>>,
    disabled: Seq<Seq<char>>,
    name: Seq<char>,
    password_holds: bool,
) -> Outcome {
    if locked_out.contains(name) {
        Outcome::AccountLockedOut
    } else if !password_holds {
        Outcome::LogonFailure
    } else if disabled.contains(name) {
        Outcome::AccountDisabled
    } else {
        Outcome::Success
    }
}

/// The texts of a list of strings.
pub open spec fn texts(v: Seq<String>) -> Seq<Seq<char>> {
    v.map_values(|s: String| s@)
}

/// Whether `names` holds `name`.
fn holds_name(names: &Vec<String>, name: &str) -> (r: bool)
    ensures
        r == texts(names@).contains(name@),
{
    let n: usize = names.len();
    let mut i: usize = 0;
    while i < n
        invariant
            n == names@.len(),
            0 <= i <= n,
            forall|j: int| 0 <= j < i ==> names@[j]@ != name@,
        decreases n - i,
    {
        if same_text(names[i].as_str(), name) {
            assert(texts(names@)[i as int] == name@);
            return true;
        }
        i = i + 1;
    }
    assert forall|j: int| 0 <= j < texts(names@).len() implies texts(names@)[j] != name@ by {
        assert(texts(names@)[j] == names@[j]@);
    }
    false
}

/// What a security authority in the process holds besides its credential
/// store: the accounts it has disabled and those it has locked out, each by
/// its canonical form, compared without regard to case as Windows compares
/// them.
#[derive(Clone, Debug)]
pub struct InProcess {
    disabled: Vec<String>,
    locked_out: Vec<String>,
}

impl InProcess {
    /// The canonical forms of the disabled accounts, in the order they were
    /// disabled.
    pub closed spec fn disabled_names(&self) -> Seq<Seq<char>> {
        texts(self.disabled@)
    }

    /// The canonical forms of the locked-out accounts, in the order they were
    /// locked out.
    pub closed spec fn locked_out_names(&self) -> Seq<Seq<char>> {
        texts(self.locked_out@)
    }

    /// An authority with no account disabled or locked out.
    pub fn new() -> (r: Self)
        ensures
            r.disabled_names() == Seq::<Seq<char>>::empty(),
            r.locked_out_names() == Seq::<Seq<char>>::empty(),
    {
        let r = InProcess { disabled: Vec::new(), locked_out: Vec::new() };
        assert(texts(r.disabled@) =~= Seq::<Seq<char>>::empty());
        assert(texts(r.locked_out@) =~= Seq::<Seq<char>>::empty());
        r
    }

    /// Disable `account`: its password still checks, and it may not log on.
    pub fn with_disabled(self, account: &Account) -> (r: Self)
        ensures
            r.disabled_names() == self.disabled_names().push(account.canonical_text()),
            r.locked_out_names() == self.locked_out_names(),
    {
        let mut r = self;
        let ghost before = r.disabled@;
        r.disabled.push(account.canonical());
        assert(texts(r.disabled@) =~= texts(before).push(account.canonical_text()));
        r
    }

    /// Lock `account` out: no logon is taken, right password or wrong.
    pub fn with_locked_out(self, account: &Account) -> (r: Self)
        ensures
            r.locked_out_names() == self.locked_out_names().push(account.canonical_text()),
            r.disabled_names() == self.disabled_names(),
    {
        let mut r = self;
        let ghost before = r.locked_out@;
        r.locked_out.push(account.canonical());
        assert(texts(r.locked_out@) =~= texts(before).push(account.canonical_text()));
        r
    }

    /// Log `account` on: what the authority concludes for it, given whether its
    /// credential store holds the presented password for the account's
    /// canonical form.
    pub fn logon(&self, account: &Account, password_holds: bool) -> (o: Outcome)
        ensures
            o == conclusion(
                self.locked_out_names(),
                self.disabled_names(),
                account.canonical_text(),
                password_holds,
            ),
    {
        let name = account.canonical();
        if holds_name(&self.locked_out, name.as_str()) {
            return Outcome::AccountLockedOut;
        }
        if !password_holds {
            return Outcome::LogonFailure;
        }
        if holds_name(&self.disabled, name.as_str()) {
            return Outcome::AccountDisabled;
        }
        Outcome::Success
    }
}

/// An account that is locked out takes no logon, whatever the password and
/// whatever else was recorded of it.
pub proof fn lemma_locked_out_takes_no_logon(
    locked_out: Seq<Seq<char>>,
    disabled: Seq<Seq<char>>,
    name: Seq<char>,
    password_holds: bool,
)
    ensures
        conclusion(locked_out.push(name), disabled, name, password_holds)
            == Outcome::AccountLockedOut,
{
    assert(locked_out.push(name)[locked_out.len() as int] == name);
}

/// A disabled account that is not locked out still has its password checked:
/// a wrong one fails the logon as for any account, and only the right one
/// meets the refusal as disabled.
pub proof fn lemma_disabled_password_still_checks(
    locked_out: Seq<Seq<char>>,
    disabled: Seq<Seq<char>>,
    name: Seq<char>,
)
    requires
        !locked_out.contains(name),
    ensures
        conclusion(locked_out, disabled.push(name), name, false) == Outcome::LogonFailure,
        conclusion(locked_out, disabled.push(name), name, true) == Outcome::AccountDisabled,
{
    assert(disabled.push(name)[disabled.len() as int] == name);
}

/// Disabling or locking out one account changes nothing for any other.
pub proof fn lemma_restriction_touches_only_its_account(
    locked_out: Seq<Seq<char>>,
    disabled: Seq<Seq<char>>,
    restricted: Seq<char>,
    name: Seq<char>,
    password_holds: bool,
)
    requires
        restricted != name,
    ensures
        conclusion(locked_out.push(restricted), disabled, name, password_holds) == conclusion(
            locked_out,
            disabled,
            name,
            password_holds,
        ),
        conclusion(locked_out, disabled.push(restricted), name, password_holds) == conclusion(
            locked_out,
            disabled,
            name,
            password_holds,
        ),
{
    assert(locked_out.push(restricted).contains(name) == locked_out.contains(name)) by {
        if locked_out.push(restricted).contains(name) {
            let i: int = choose|i: int|
                0 <= i < locked_out.push(restricted).len() && locked_out.push(restricted)[i]
                    == name;
            assert(locked_out[i] == name);
        }
        if locked_out.contains(name) {
            let i: int = choose|i: int| 0 <= i < locked_out.len() && locked_out[i] == name;
            assert(locked_out.push(restricted)[i] == name);
        }
    }
    assert(disabled.push(restricted).contains(name) == disabled.contains(name)) by {
        if disabled.push(restricted).contains(name) {
            let i: int = choose|i: int|
                0 <= i < disabled.push(restricted).len() && disabled.push(restricted)[i] == name;
            assert(disabled[i] == name);
        }
        if disabled.contains(name) {
            let i: int = choose|i: int| 0 <= i < disabled.len() && disabled[i] == name;
            assert(disabled.push(restricted)[i] == name);
        }
    }
}

/// Accounts are compared by their canonical form, as Windows compares
/// them: two accounts with the same canonical form meet the same conclusion
/// for the same answer of the credential store.
pub proof fn lemma_conclusion_goes_by_canonical_form(
    locked_out: Seq<Seq<char>>,
    disabled: Seq<Seq<char>>,
    a: Account,
    b: Account,
    password_holds: bool,
)
    requires
        a.canonical_text() == b.canonical_text(),
    ensures
        conclusion(locked_out, disabled, a.canonical_text(), password_holds) == conclusion(
            locked_out,
            disabled,
            b.canonical_text(),
            password_holds,
        ),
{
}

/// A wrong password fails the logon alike for an unknown, an enrolled and a
/// disabled account that is not locked out, so the failure reveals neither
/// which; and the refusal as disabled only ever follows a password that
/// checks.
pub proof fn lemma_a_wrong_password_reveals_nothing(
    locked_out: Seq<Seq<char>>,
    disabled: Seq<Seq<char>>,
    name: Seq<char>,
    password_holds: bool,
)
    ensures
        !locked_out.contains(name) ==> conclusion(locked_out, disabled, name, false)
            == Outcome::LogonFailure,
        conclusion(locked_out, disabled, name, password_holds) == Outcome::AccountDisabled
            ==> password_holds,
{
}

/// What an in-process authority concludes, outcome by outcome: a locked-out
/// account is refused as locked out; an account that is not locked out and
/// whose password does not hold fails the logon; a disabled account whose
/// password holds is refused as disabled; and an account that is neither
/// locked out nor disabled and whose password holds logs on.
pub proof fn lemma_each_outcome_of_the_authority(
    locked_out: Seq<Seq<char>>,
    disabled: Seq<Seq<char>>,
    name: Seq<char>,
    password_holds: bool,
)
    ensures
        locked_out.contains(name) ==> conclusion(locked_out, disabled, name, password_holds)
            == Outcome::AccountLockedOut,
        !locked_out.contains(name) && !password_holds ==> conclusion(
            locked_out,
            disabled,
            name,
            password_holds,
        ) == Outcome::LogonFailure,
        !locked_out.contains(name) && password_holds && disabled.contains(name) ==> conclusion(
            locked_out,
            disabled,
            name,
            password_holds,
        ) == Outcome::AccountDisabled,
        !locked_out.contains(name) && !disabled.contains(name) && password_holds ==> conclusion(
            locked_out,
            disabled,
            name,
            password_holds,
        ) == Outcome::Success,
{
}

} // verus!
