//! The authorization endpoint: issue, dispatch, present.

use vstd::prelude::*;
use crate::dispatch::dispatch;
use crate::dispatch::dispatch_spec;
use crate::dispatch::AuthorizationOutcomeView;
use crate::error::ServerError;
use crate::error::ServerErrorView;
use crate::reply::body_members;
use crate::reply::reply_spec;
use crate::reply::HttpReply;
use crate::reply::HttpReplyView;
use crate::reply::ReplyBodyView;
use crate::request::AuthRequest;
use crate::request::AuthRequestView;
use crate::request::ResponseType;
use crate::token::issue_token;
use crate::token::placeholder_material;
use crate::token::IssuedTokenMaterialView;

verus! {

/// What the endpoint answers to `request`: the reply that presents the
/// outcome of dispatching it with the placeholder issuer's material, or the
/// failure of that dispatch.
pub open spec fn login_spec(request: AuthRequestView) -> Result<HttpReplyView, ServerErrorView> {
    match dispatch_spec(request, placeholder_material()) {
        Ok(outcome) => Ok(reply_spec(outcome)),
        Err(error) => Err(error),
    }
}

/// A reply or a failure as plain values.
pub open spec fn reply_text(reply: Result<HttpReply, ServerError>) -> Result<
    HttpReplyView,
    ServerErrorView,
> {
    match reply {
        Ok(reply) => Ok(reply@),
        Err(error) => Err(error@),
    }
}

/// Answers an authorization request.
pub fn login(auth_request: AuthRequest) -> (reply: Result<HttpReply, ServerError<'static>>)
    ensures
        reply_text(reply) == login_spec(auth_request@),
        auth_request@.response_type == ResponseType::Token ==> ({
            &&& reply matches Ok(sent)
            &&& sent@.carries("Cache-Control"@, "no-store"@)
        }),
{
    proof {
        if auth_request@.response_type == ResponseType::Token {
            lemma_token_reply_is_not_to_be_stored(auth_request@, placeholder_material());
        }
    }
    let material = issue_token(auth_request.scope());
    match dispatch(&auth_request, &material) {
        Ok(outcome) => Ok(outcome.reply()),
        Err(error) => Err(error),
    }
}

/// The reply to a token request carries `Cache-Control: no-store`, whatever
/// the token material.
pub proof fn lemma_token_reply_is_not_to_be_stored(
    request: AuthRequestView,
    material: IssuedTokenMaterialView,
)
    requires
        request.response_type == ResponseType::Token,
    ensures
        ({
            &&& dispatch_spec(request, material) matches Ok(outcome)
            &&& reply_spec(outcome).carries("Cache-Control"@, "no-store"@)
        }),
{
    let outcome = dispatch_spec(request, material)->Ok_0;
    assert(reply_spec(outcome).headers[0] == ("Cache-Control"@, "no-store"@));
}

/// The body that answers a token request without a scope has no member
/// named `scope`: the member is left out, not given an empty value.
pub proof fn lemma_token_body_without_scope_has_no_scope_member(
    request: AuthRequestView,
    material: IssuedTokenMaterialView,
)
    requires
        request.response_type == ResponseType::Token,
        request.scope is None,
    ensures
        ({
            &&& dispatch_spec(request, material) matches Ok(AuthorizationOutcomeView::Body(body))
            &&& reply_spec(AuthorizationOutcomeView::Body(body)).body == ReplyBodyView::Json(
                body_members(body),
            )
            &&& forall|i: int|
                0 <= i < body_members(body).len() ==> (#[trigger] body_members(body)[i]).0
                    != "scope"@
        }),
{
    reveal_strlit("scope");
    reveal_strlit("token_type");
    reveal_strlit("access_token");
    reveal_strlit("refresh_token");
    let body = dispatch_spec(request, material)->Ok_0->Body_0;
    assert forall|i: int| 0 <= i < body_members(body).len() implies (#[trigger] body_members(
        body,
    )[i]).0 != "scope"@ by {
        let name = body_members(body)[i].0;
        assert(name.len() != "scope"@.len());
    }
}

} // verus!
