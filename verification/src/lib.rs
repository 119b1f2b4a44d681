//! Authenticate by Windows: a username and password through the host's
//! logon facility, refusing where none is reachable.
//!
//! The name is read as an account (`CORP\alice`, `alice@corp.example`, or a
//! bare `alice` in the configured domain) and handed with the password to the
//! host's logon facility. The host's answer decides: a
//! logon that holds proves the claim, `ERROR_LOGON_FAILURE` refuses it
//! without saying whether the name or the password was wrong, and a
//! disabled or locked-out account or an expired password is refused with
//! Win32's name for it. An authenticator given no facility refuses every
//! logon, and says why.

pub mod account;
pub mod authenticator;
pub mod error;
pub mod logon;
pub mod text;

pub use account::Account;
pub use authenticator::WindowsAuthenticator;
pub use logon::{InProcess, Logon, Outcome, UNREACHABLE, Unreachable};
