//! The failures that the endpoint reports to a client.

use vstd::prelude::*;

verus! {

/// Message of the failure for a code request that names no redirect URI.
pub const REDIRECT_URI_REQUIRED: &'static str = "redirect_uri is required when code is requested";

/// Message of the failure for a redirect URI that is no absolute URL.
pub const REDIRECT_URI_MALFORMED: &'static str = "redirect_uri must be an absolute URL";

/// Message of the failure for a redirect URI too long to take the query pairs.
pub const REDIRECT_URI_TOO_LONG: &'static str = "redirect_uri is too long";

/// A failure of the endpoint. Each one ends the current request only.
#[derive(Debug)]
pub enum ServerError<'t> {
    /// The request has a defect that the client can correct.
    InputError(&'t str),
}

/// A failure as plain text.
pub enum ServerErrorView {
    InputError(Seq<char>),
}

impl<'t> View for ServerError<'t> {
    type V = ServerErrorView;

    open spec fn view(&self) -> ServerErrorView {
        match self {
            ServerError::InputError(message) => ServerErrorView::InputError(message@),
        }
    }
}

/// The messages differ from each other, so that a failure tells its
/// reason.
pub proof fn lemma_messages_differ()
    ensures
        REDIRECT_URI_REQUIRED@ != REDIRECT_URI_MALFORMED@,
        REDIRECT_URI_REQUIRED@ != REDIRECT_URI_TOO_LONG@,
        REDIRECT_URI_MALFORMED@ != REDIRECT_URI_TOO_LONG@,
{
    reveal_strlit("redirect_uri is required when code is requested");
    reveal_strlit("redirect_uri must be an absolute URL");
    reveal_strlit("redirect_uri is too long");
    assert(REDIRECT_URI_REQUIRED@.len() == 47);
    assert(REDIRECT_URI_MALFORMED@.len() == 36);
    assert(REDIRECT_URI_TOO_LONG@.len() == 24);
}

} // verus!
