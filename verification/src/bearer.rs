//! Bearer protection of resources: a presented credential is observed, a
//! validator is asked, and the request is forwarded or turned away.

use vstd::prelude::*;
use vstd::string::*;

verus! {

/// A bearer credential as the client presented it. Nothing here looks
/// inside it.
#[derive(Debug)]
pub struct BearerCredential {
    token: String,
}

impl View for BearerCredential {
    type V = Seq<char>;

    closed spec fn view(&self) -> Seq<char> {
        self.token@
    }
}

impl BearerCredential {
    /// The credential with the text `token`.
    pub fn new(token: String) -> (credential: BearerCredential)
        ensures
            credential@ == token@,
    {
        BearerCredential { token }
    }

    /// The text of the credential.
    pub fn token(&self) -> (token: &str)
        ensures
            token@ == self@,
    {
        self.token.as_str()
    }
}

/// What a credential validator says of a credential.
#[derive(Clone, Copy, Debug, PartialEq, Eq, Structural)]
pub enum Verdict {
    Accept,
    Reject,
}

/// What becomes of a request for a protected resource.
#[derive(Clone, Copy, Debug, PartialEq, Eq, Structural)]
pub enum Access {
    /// The request goes on to the protected resource.
    Forward,
    /// The request is turned away as not authenticated. This is no request
    /// defect of the kind that the authorization endpoint reports.
    Unauthenticated,
}

/// The answer for one request: what to put on record before anything else,
/// and what becomes of the request then.
#[derive(Debug)]
pub struct AccessReport {
    pub observed: String,
    pub access: Access,
}

/// An access report as plain values.
pub struct AccessReportView {
    pub observed: Seq<char>,
    pub access: Access,
}

impl View for AccessReport {
    type V = AccessReportView;

    open spec fn view(&self) -> AccessReportView {
        AccessReportView { observed: self.observed@, access: self.access }
    }
}

/// The access that follows from a verdict.
pub open spec fn access_for(verdict: Verdict) -> Access {
    match verdict {
        Verdict::Accept => Access::Forward,
        Verdict::Reject => Access::Unauthenticated,
    }
}

/// The validator that accepts every credential.
pub fn ok_validator(_credential: &BearerCredential) -> (verdict: Verdict)
    ensures
        verdict == Verdict::Accept,
{
    Verdict::Accept
}

/// Decides on a request that presented `credential`, given the validator's
/// verdict on it. The credential is put on record whatever the verdict; the
/// verdict alone decides.
pub fn check_access(credential: &BearerCredential, verdict: Verdict) -> (report: AccessReport)
    ensures
        report@ == (AccessReportView { observed: credential@, access: access_for(verdict) }),
{
    let access = match verdict {
        Verdict::Accept => Access::Forward,
        Verdict::Reject => Access::Unauthenticated,
    };
    AccessReport { observed: String::from_str(credential.token()), access }
}

/// Decides on a request with the validator that accepts every credential:
/// the credential is observed and the resource is reached.
pub fn protect(credential: &BearerCredential) -> (report: AccessReport)
    ensures
        report@ == (AccessReportView { observed: credential@, access: Access::Forward }),
{
    check_access(credential, ok_validator(credential))
}

} // verus!
