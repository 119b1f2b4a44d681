//! The account a Windows logon names: a user, and the domain that knows it.
//!
//! A name arrives in one of three shapes. `CORP\alice` is the down-level
//! logon name, domain first. `alice@corp.example` is a user principal name,
//! domain last. Both are read by the identify capability's user principal
//! name, and by nothing here: what that capability reads is handed to
//! [`Account::parse`] as a [`Principal`]. A bare `alice` names no domain, and
//! is looked up in the one the authenticator was configured with, or on the
//! host itself where none was. Windows compares both halves without regard
//! to case.

use vstd::prelude::*;
use vstd::string::*;
use crate::error::AuthenticateError;
use crate::text::{
    ascii_lowercase_of, ascii_uppercase, ascii_uppercase_of, has_char, is_ascii_text, ascii_lower, lowercase_of, same_text, to_lowercase, trim,
    trimmed,
};

verus! {

/// A user principal name as the identify capability reads one: the user and
/// the domain that knows it.
#[derive(Clone, Debug, PartialEq, Eq)]
pub struct Principal {
    /// The user, as the capability read it.
    pub user: String,
    /// The domain, as the capability read it.
    pub domain: String,
}

impl Principal {
    /// The principal `user@domain`.
    pub fn new(user: String, domain: String) -> (p: Principal)
        ensures
            p.user == user,
            p.domain == domain,
    {
        Principal { user, domain }
    }

    /// The principal written out, `user@domain`.
    pub open spec fn text(&self) -> Seq<char> {
        self.user@ + seq!['@'] + self.domain@
    }

    /// An equal principal.
    pub(crate) fn duplicate(&self) -> (p: Principal)
        ensures
            p == *self,
    {
        Principal { user: self.user.clone(), domain: self.domain.clone() }
    }

    /// The principal written out, `user@domain`.
    pub fn to_string(&self) -> (r: String)
        ensures
            r@ == self.text(),
    {
        let mut r = self.user.clone();
        r.append("@");
        proof {
            reveal_strlit("@");
        }
        r.append(self.domain.as_str());
        assert(r@ =~= self.text());
        r
    }
}

/// A user and the domain it is looked up in.
#[derive(Clone, Debug, PartialEq, Eq)]
pub struct Account {
    /// The domain, in the lower case a principal name is written in, or
    /// `None` for an account of the host itself.
    pub domain: Option<String>,
    /// The user, as it was written.
    pub user: String,
}

/// What reading a presented name comes to, before or after the domain lookup.
#[derive(Clone, Debug)]
pub enum Reading {
    /// The name is this account.
    Read(Account),
    /// A bare user, to be looked up in the configured domain: ask the identify
    /// capability for the principal `user@domain` and hand its answer to
    /// [`Account::in_domain`].
    InDomain { user: String, domain: String },
    /// The name is not an account name.
    Refused(AuthenticateError),
}

/// The refusal of a name that is no account name.
pub open spec fn not_an_account_name(name: Seq<char>) -> Seq<char> {
    "'"@ + name + "' is not a Windows account name: DOMAIN\\user, user@domain or user"@
}

/// The refusal of a domain that a bare name cannot be looked up in.
pub open spec fn not_a_domain(domain: Seq<char>, name: Seq<char>) -> Seq<char> {
    "'"@ + domain + "' is not a domain the bare name '"@ + name + "' can be looked up in"@
}

/// Whether a trimmed name may stand as a bare user: it is not empty and holds
/// no backslash, at-sign or slash.
pub open spec fn is_bare_user(user: Seq<char>) -> bool {
    &&& user.len() > 0
    &&& !user.contains('\\')
    &&& !user.contains('@')
    &&& !user.contains('/')
}

impl Account {
    /// The domain's characters, where there is one.
    pub open spec fn domain_view(&self) -> Option<Seq<char>> {
        match self.domain {
            Some(d) => Some(d@),
            None => None,
        }
    }

    /// Whether this account is the one a principal names.
    pub open spec fn names(&self, p: Principal) -> bool {
        &&& self.user@ == p.user@
        &&& self.domain_view() == Some(p.domain@)
    }

    /// The account written out: `domain\user`, or the bare user of the host.
    pub open spec fn text(&self) -> Seq<char> {
        match self.domain {
            Some(d) => d@ + seq!['\\'] + self.user@,
            None => self.user@,
        }
    }

    /// The account by its down-level logon name as Windows writes it:
    /// `DOMAIN\user` with the domain's ASCII letters in capitals, or the
    /// bare user of the host.
    pub open spec fn down_level_name(&self) -> Seq<char> {
        match self.domain {
            Some(d) => ascii_uppercase_of(d@) + seq!['\\'] + self.user@,
            None => self.user@,
        }
    }

    /// The case-folded form two spellings of one account share:
    /// `domain\user` with the user in lower case and `.` for the host.
    pub open spec fn canonical_text(&self) -> Seq<char> {
        let domain = match self.domain {
            Some(d) => d@,
            None => seq!['.'],
        };
        domain + seq!['\\'] + lowercase_of(self.user@)
    }

    /// An equal account.
    pub(crate) fn duplicate(&self) -> (a: Account)
        ensures
            a == *self,
    {
        let domain = match &self.domain {
            Some(d) => Some(d.clone()),
            None => None,
        };
        Account { domain, user: self.user.clone() }
    }

    /// The canonical form of an account whose user is ASCII text: the user's
    /// ASCII letters in lower case.
    pub open spec fn ascii_canonical_text(&self) -> Seq<char> {
        let domain = match self.domain {
            Some(d) => d@,
            None => seq!['.'],
        };
        domain + seq!['\\'] + ascii_lowercase_of(self.user@)
    }

    /// The account a principal names.
    pub fn from_principal(principal: &Principal) -> (a: Account)
        ensures
            a.names(*principal),
    {
        Account { domain: Some(principal.domain.clone()), user: principal.user.clone() }
    }

    /// Read a presented name, falling back to `default_domain` where the
    /// name carries none. `principal` is what the identify capability reads
    /// `name` as, where it reads a user principal name in it.
    ///
    /// A principal is the account. Otherwise the trimmed name is a bare user
    /// unless it is empty or holds a backslash, an at-sign or a slash, and a
    /// bare user is an account of the host, or is to be looked up in
    /// `default_domain` where there is one.
    pub fn parse(name: &str, default_domain: Option<&str>, principal: Option<Principal>) -> (r:
        Reading)
        ensures
            principal matches Some(p) ==> (r matches Reading::Read(a) && a.names(p)),
            principal is None && !is_bare_user(trimmed(name@)) ==> (r matches Reading::Refused(e)
                && e.message@ == not_an_account_name(name@)),
            principal is None && is_bare_user(trimmed(name@)) && default_domain is None ==> (
            r matches Reading::Read(a) && a.domain is None && a.user@ == trimmed(name@)),
            principal is None && is_bare_user(trimmed(name@)) && default_domain is Some ==> (
            r matches Reading::InDomain { user, domain } && user@ == trimmed(name@) && domain@
                == default_domain.unwrap()@),
            r matches Reading::Read(a) ==> (a.domain is None <==> (principal is None
                && default_domain is None)),
    {
        if let Some(p) = principal {
            return Reading::Read(Account::from_principal(&p));
        }
        let user = trim(name);
        if user.unicode_len() == 0 || has_char(user, '\\') || has_char(user, '@') || has_char(
            user,
            '/',
        ) {
            let mut message = String::from_str("'");
            message.append(name);
            message.append("' is not a Windows account name: DOMAIN\\user, user@domain or user");
            proof {
                assert(message@ =~= not_an_account_name(name@));
            }
            return Reading::Refused(AuthenticateError::new(message));
        }
        match default_domain {
            None => Reading::Read(Account { domain: None, user: String::from_str(user) }),
            Some(domain) => Reading::InDomain {
                user: String::from_str(user),
                domain: String::from_str(domain),
            },
        }
    }

    /// The account a bare name comes to in `domain`, given what the identify
    /// capability made of the principal `user@domain`: that principal, or a
    /// refusal where `domain` is not a domain.
    pub fn in_domain(name: &str, domain: &str, principal: Option<Principal>) -> (r: Result<
        Account,
        AuthenticateError,
    >)
        ensures
            principal matches Some(p) ==> (r matches Ok(a) && a.names(p)),
            principal is None ==> (r matches Err(e) && e.message@ == not_a_domain(domain@, name@)),
    {
        match principal {
            Some(p) => Ok(Account::from_principal(&p)),
            None => {
                let mut message = String::from_str("'");
                message.append(domain);
                message.append("' is not a domain the bare name '");
                message.append(name);
                message.append("' can be looked up in");
                proof {
                    assert(message@ =~= not_a_domain(domain@, name@));
                }
                Err(AuthenticateError::new(message))
            },
        }
    }

    /// Whether another name is the same account: by the identify capability's
    /// own question where both are in a domain, and by the user without
    /// regard to case (the users' lower case is the same) where both are the
    /// host's.
    ///
    /// `ours` and `theirs` are the principals the capability makes of the two
    /// accounts (none for an account of the host), and `same_principal` its
    /// answer to whether `ours` is `theirs`, where both are there.
    pub fn is(
        &self,
        other: &Self,
        ours: Option<&Principal>,
        theirs: Option<&Principal>,
        same_principal: bool,
    ) -> (r: bool)
        ensures
            r == match (ours, theirs) {
                (Some(_), Some(_)) => same_principal,
                (None, None) => lowercase_of(self.user@) == lowercase_of(other.user@),
                _ => false,
            },
    {
        match (ours, theirs) {
            (Some(_), Some(_)) => same_principal,
            (None, None) => {
                let ours = to_lowercase(self.user.as_str());
                let theirs = to_lowercase(other.user.as_str());
                same_text(ours.as_str(), theirs.as_str())
            },
            _ => false,
        }
    }

    /// The account in one case-folded form, `domain\user`, with `.` for the
    /// host itself: what two spellings of one account share.
    pub fn canonical(&self) -> (r: String)
        ensures
            r@ == self.canonical_text(),
            is_ascii_text(self.user@) ==> r@ == self.ascii_canonical_text(),
    {
        let mut r = match &self.domain {
            Some(d) => d.clone(),
            None => String::from_str("."),
        };
        proof {
            reveal_strlit(".");
            reveal_strlit("\\");
        }
        r.append("\\");
        let user = to_lowercase(self.user.as_str());
        r.append(user.as_str());
        proof {
            assert(r@ =~= self.canonical_text());
            if is_ascii_text(self.user@) {
                assert(r@ =~= self.ascii_canonical_text());
            }
        }
        r
    }

    /// The account by its down-level logon name: `DOMAIN\user` with the
    /// domain in capitals, or the bare user of the host.
    pub fn down_level(&self) -> (r: String)
        ensures
            r@ == self.down_level_name(),
    {
        proof {
            reveal_strlit("\\");
        }
        match &self.domain {
            Some(d) => {
                let mut r = ascii_uppercase(d.as_str());
                r.append("\\");
                r.append(self.user.as_str());
                assert(r@ =~= self.down_level_name());
                r
            },
            None => self.user.clone(),
        }
    }

    /// The account written out: `domain\user`, or the bare user of the host.
    pub fn to_string(&self) -> (r: String)
        ensures
            r@ == self.text(),
    {
        proof {
            reveal_strlit("\\");
        }
        match &self.domain {
            Some(d) => {
                let mut r = d.clone();
                r.append("\\");
                r.append(self.user.as_str());
                assert(r@ =~= self.text());
                r
            },
            None => self.user.clone(),
        }
    }
}

/// Two spellings of one account share a canonical form: accounts in the same
/// domain whose users are the same in lower case have the same canonical
/// form, however their users were written.
pub proof fn lemma_spellings_share_canonical_form(a: Account, b: Account)
    requires
        a.domain_view() == b.domain_view(),
        lowercase_of(a.user@) == lowercase_of(b.user@),
    ensures
        a.canonical_text() == b.canonical_text(),
{
}

/// The canonical form tells accounts apart: where no domain holds a
/// backslash or is written `.`, two accounts with the same canonical form
/// are in the same domain (or both the host's) and their users are the same
/// in lower case.
pub proof fn lemma_canonical_form_identifies_account(a: Account, b: Account)
    requires
        a.domain_view() matches Some(d) ==> !d.contains('\\') && d != seq!['.'],
        b.domain_view() matches Some(d) ==> !d.contains('\\') && d != seq!['.'],
        a.canonical_text() == b.canonical_text(),
    ensures
        a.domain_view() == b.domain_view(),
        lowercase_of(a.user@) == lowercase_of(b.user@),
{
    let da = match a.domain_view() {
        Some(d) => d,
        None => seq!['.'],
    };
    let db = match b.domain_view() {
        Some(d) => d,
        None => seq!['.'],
    };
    let ca = a.canonical_text();
    let cb = b.canonical_text();
    assert(ca == da + seq!['\\'] + lowercase_of(a.user@));
    assert(cb == db + seq!['\\'] + lowercase_of(b.user@));
    assert(!da.contains('\\')) by {
        if a.domain_view() is None {
            assert(da[0] == '.');
        }
    }
    assert(!db.contains('\\')) by {
        if b.domain_view() is None {
            assert(db[0] == '.');
        }
    }
    assert(ca[da.len() as int] == '\\');
    assert(cb[db.len() as int] == '\\');
    if da.len() < db.len() {
        assert(cb[da.len() as int] == db[da.len() as int]);
        assert(false);
    }
    if db.len() < da.len() {
        assert(ca[db.len() as int] == da[db.len() as int]);
        assert(false);
    }
    assert(da =~= ca.subrange(0, da.len() as int));
    assert(db =~= cb.subrange(0, db.len() as int));
    assert(lowercase_of(a.user@) =~= ca.subrange(da.len() as int + 1, ca.len() as int));
    assert(lowercase_of(b.user@) =~= cb.subrange(db.len() as int + 1, cb.len() as int));
}

/// Two accounts of the host are the same account exactly where they share
/// a canonical form: both compare the users without regard to case.
pub proof fn lemma_host_accounts_are_the_same_where_canonical_forms_are(a: Account, b: Account)
    requires
        a.domain is None,
        b.domain is None,
    ensures
        (lowercase_of(a.user@) == lowercase_of(b.user@)) <==> (a.canonical_text()
            == b.canonical_text()),
{
    let la = lowercase_of(a.user@);
    let lb = lowercase_of(b.user@);
    let p = seq!['.'] + seq!['\\'];
    assert(a.canonical_text() =~= p + la);
    assert(b.canonical_text() =~= p + lb);
    if a.canonical_text() == b.canonical_text() {
        assert(la =~= (p + la).subrange(2, (p + la).len() as int));
        assert(lb =~= (p + lb).subrange(2, (p + lb).len() as int));
    }
}

/// Changing the case of a user's ASCII letters leaves the canonical form
/// unchanged: two accounts in the same domain whose ASCII users are the same
/// but for case share the form `canonical` gives them.
pub proof fn lemma_ascii_case_leaves_canonical_form(a: Account, b: Account)
    requires
        a.domain_view() == b.domain_view(),
        is_ascii_text(a.user@),
        is_ascii_text(b.user@),
        a.user@.len() == b.user@.len(),
        forall|i: int| 0 <= i < a.user@.len() ==> #[trigger] ascii_lower(a.user@[i]) == ascii_lower(
            b.user@[i],
        ),
    ensures
        a.ascii_canonical_text() == b.ascii_canonical_text(),
{
    assert(ascii_lowercase_of(a.user@) =~= ascii_lowercase_of(b.user@));
}

/// The canonical form of an ASCII user is in lower case already: lowering
/// it again changes nothing.
pub proof fn lemma_ascii_canonical_form_is_lower_case(a: Account)
    requires
        a.domain_view() matches Some(d) ==> ascii_lowercase_of(d) == d,
    ensures
        ascii_lowercase_of(a.ascii_canonical_text()) == a.ascii_canonical_text(),
{
    let d = match a.domain {
        Some(d) => d@,
        None => seq!['.'],
    };
    let u = ascii_lowercase_of(a.user@);
    let c = a.ascii_canonical_text();
    assert(c =~= d + seq!['\\'] + u);
    assert(ascii_lowercase_of(c) =~= ascii_lowercase_of(d) + seq!['\\'] + ascii_lowercase_of(u));
    assert(ascii_lowercase_of(u) =~= u);
    assert(ascii_lowercase_of(d) =~= d);
}

/// Only a backslash, an at-sign or a slash keeps a non-empty trimmed name
/// from being a bare user: any other characters, dots and spaces within
/// included, may make up a user.
pub proof fn lemma_bare_user_refuses_only_separators(user: Seq<char>)
    ensures
        is_bare_user(user) <==> (user.len() > 0 && forall|i: int|
            0 <= i < user.len() ==> #[trigger] user[i] != '\\' && user[i] != '@' && user[i] != '/'),
{
    if user.len() > 0 && forall|i: int|
        0 <= i < user.len() ==> #[trigger] user[i] != '\\' && user[i] != '@' && user[i] != '/' {
        assert(!user.contains('\\'));
        assert(!user.contains('@'));
        assert(!user.contains('/'));
    }
    if is_bare_user(user) {
        assert forall|i: int| 0 <= i < user.len() implies #[trigger] user[i] != '\\' && user[i]
            != '@' && user[i] != '/' by {
            if user[i] == '\\' || user[i] == '@' || user[i] == '/' {
                assert(user.contains(user[i]));
            }
        }
    }
}

} // verus!
