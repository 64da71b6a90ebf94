use vstd::prelude::*;

verus! {

/// Why a login was refused by [`crate::Login::check_valid`].
#[derive(Debug, Clone, Copy, PartialEq, Eq, Structural)]
pub enum InvalidLoginReason {
    EmptyHostname,
    EmptyPassword,
    BothTargets,
    NoTarget,
}

/// The fixed text that describes each reason.
pub open spec fn reason_text(r: InvalidLoginReason) -> Seq<char> {
    match r {
        InvalidLoginReason::EmptyHostname => "Can't add a login with an empty hostname."@,
        InvalidLoginReason::EmptyPassword => "Can't add a login with an empty password."@,
        InvalidLoginReason::BothTargets => "Can't add a login with both a httpRealm and formSubmitURL."@,
        InvalidLoginReason::NoTarget => "Can't add a login without a httpRealm or formSubmitURL."@,
    }
}

impl InvalidLoginReason {
    /// The fixed text that describes the reason.
    pub fn message(&self) -> (r: &'static str)
        ensures
            r@ == reason_text(*self),
    {
        match self {
            InvalidLoginReason::EmptyHostname => "Can't add a login with an empty hostname.",
            InvalidLoginReason::EmptyPassword => "Can't add a login with an empty password.",
            InvalidLoginReason::BothTargets => "Can't add a login with both a httpRealm and formSubmitURL.",
            InvalidLoginReason::NoTarget => "Can't add a login without a httpRealm or formSubmitURL.",
        }
    }
}

/// The errors that the store reports.
#[derive(Debug, Clone, PartialEq, Eq)]
pub enum Error {
    /// The storage engine failed; the text is its message.
    SqlError(String),
    /// The sync transport failed; the text is its message.
    SyncError(String),
    /// A stored column could not be read; the text names the column.
    ParseColumnError(String),
    /// A login breaks the validity rules.
    InvalidLogin(InvalidLoginReason),
    /// A stored sync status is not one of the known values.
    BadSyncStatus(u8),
    /// One incoming batch names the same record twice.
    DuplicateGuid(String),
}

} // verus!
