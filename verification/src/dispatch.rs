//! The dispatcher: from a request and the token material issued for it to
//! the outcome that the client is owed.

use vstd::prelude::*;
use crate::error::ServerError;
use crate::error::ServerErrorView;
use crate::error::lemma_messages_differ;
use crate::error::REDIRECT_URI_MALFORMED;
use crate::error::REDIRECT_URI_REQUIRED;
use crate::error::REDIRECT_URI_TOO_LONG;
use crate::location::pairs_fit;
use crate::location::pairs_text;
use crate::location::parsed_text;
use crate::location::redirect_location;
use crate::location::redirect_location_spec;
use crate::location::QueryPair;
use crate::request::AuthRequest;
use crate::request::AuthRequestView;
use crate::request::ResponseType;
use crate::text::as_opt_str;
use crate::text::text_of;
use crate::token::IssuedTokenMaterial;
use crate::token::IssuedTokenMaterialView;

verus! {

/// The token body of a token-mode answer. An optional field that is `None`
/// has no member in the serialized body.
#[derive(Debug)]
pub struct AuthResponse<'t> {
    pub token_type: &'t str,
    pub access_token: &'t str,
    pub refresh_token: Option<&'t str>,
    pub scope: Option<&'t str>,
}

/// A token body as plain values.
pub struct AuthResponseView {
    pub token_type: Seq<char>,
    pub access_token: Seq<char>,
    pub refresh_token: Option<Seq<char>>,
    pub scope: Option<Seq<char>>,
}

impl<'t> View for AuthResponse<'t> {
    type V = AuthResponseView;

    open spec fn view(&self) -> AuthResponseView {
        AuthResponseView {
            token_type: self.token_type@,
            access_token: self.access_token@,
            refresh_token: text_of(self.refresh_token),
            scope: text_of(self.scope),
        }
    }
}

/// What the dispatcher decides for a request that it accepts.
#[derive(Debug)]
pub enum AuthorizationOutcome<'t> {
    /// Send the client to `location`.
    Redirect { location: String },
    /// Answer with the token body.
    Body(AuthResponse<'t>),
}

/// An outcome as plain values.
pub enum AuthorizationOutcomeView {
    Redirect { location: Seq<char> },
    Body(AuthResponseView),
}

impl<'t> View for AuthorizationOutcome<'t> {
    type V = AuthorizationOutcomeView;

    open spec fn view(&self) -> AuthorizationOutcomeView {
        match self {
            AuthorizationOutcome::Redirect { location } => AuthorizationOutcomeView::Redirect {
                location: location@,
            },
            AuthorizationOutcome::Body(body) => AuthorizationOutcomeView::Body(body@),
        }
    }
}

/// The query pairs of a code-mode redirect, in the order in which they are
/// appended: the access token, the token type `code`, then the scope and the
/// refresh token, each only if there is one.
pub open spec fn redirect_pairs_spec(
    material: IssuedTokenMaterialView,
    scope: Option<Seq<char>>,
) -> Seq<(Seq<char>, Seq<char>)> {
    let fixed = seq![("access_token"@, material.access_token), ("token_type"@, "code"@)];
    let scoped = match scope {
        Some(scope) => fixed.push(("scope"@, scope)),
        None => fixed,
    };
    match material.refresh_token {
        Some(refresh_token) => scoped.push(("refresh_token"@, refresh_token)),
        None => scoped,
    }
}

/// The token body of a token-mode answer: a `Bearer` token, with the
/// refresh token and the scope carried through.
pub open spec fn token_body_spec(
    material: IssuedTokenMaterialView,
    scope: Option<Seq<char>>,
) -> AuthResponseView {
    AuthResponseView {
        token_type: "Bearer"@,
        access_token: material.access_token,
        refresh_token: material.refresh_token,
        scope,
    }
}

/// What dispatching `request` with `material` gives.
pub open spec fn dispatch_spec(
    request: AuthRequestView,
    material: IssuedTokenMaterialView,
) -> Result<AuthorizationOutcomeView, ServerErrorView> {
    match request.response_type {
        ResponseType::Code => match request.redirect_uri {
            None => Err(ServerErrorView::InputError(REDIRECT_URI_REQUIRED@)),
            Some(redirect_uri) => match redirect_location_spec(
                redirect_uri,
                redirect_pairs_spec(material, request.scope),
            ) {
                Ok(location) => Ok(AuthorizationOutcomeView::Redirect { location }),
                Err(error) => Err(error),
            },
        },
        ResponseType::Token => Ok(
            AuthorizationOutcomeView::Body(token_body_spec(material, request.scope)),
        ),
    }
}

/// An outcome or a failure as plain values.
pub open spec fn outcome_text(outcome: Result<AuthorizationOutcome, ServerError>) -> Result<
    AuthorizationOutcomeView,
    ServerErrorView,
> {
    match outcome {
        Ok(outcome) => Ok(outcome@),
        Err(error) => Err(error@),
    }
}

/// Lists the query pairs of a code-mode redirect.
pub fn redirect_pairs<'t>(material: &'t IssuedTokenMaterial, scope: Option<&'t str>) -> (pairs: Vec<
    QueryPair<'t>,
>)
    ensures
        pairs_text(pairs@) == redirect_pairs_spec(material@, text_of(scope)),
{
    let mut pairs: Vec<QueryPair<'t>> = Vec::new();
    pairs.push(QueryPair { name: "access_token", value: material.access_token.as_str() });
    pairs.push(QueryPair { name: "token_type", value: "code" });
    if let Some(scope) = scope {
        pairs.push(QueryPair { name: "scope", value: scope });
    }
    if let Some(refresh_token) = as_opt_str(&material.refresh_token) {
        pairs.push(QueryPair { name: "refresh_token", value: refresh_token });
    }
    pairs
}

/// Builds the token body of a token-mode answer.
pub fn token_body<'t>(material: &'t IssuedTokenMaterial, scope: Option<&'t str>) -> (body:
    AuthResponse<'t>)
    ensures
        body@ == token_body_spec(material@, text_of(scope)),
{
    AuthResponse {
        token_type: "Bearer",
        access_token: material.access_token.as_str(),
        refresh_token: as_opt_str(&material.refresh_token),
        scope,
    }
}

/// Decides the outcome for `request`, given the token material issued for
/// it. A code request is answered by a redirect to its redirect URI, which
/// it must name; a token request by the token body.
pub fn dispatch<'t>(request: &'t AuthRequest, material: &'t IssuedTokenMaterial) -> (outcome:
    Result<AuthorizationOutcome<'t>, ServerError<'static>>)
    ensures
        outcome_text(outcome) == dispatch_spec(request@, material@),
        request@.response_type == ResponseType::Code && request@.redirect_uri is None ==> ({
            &&& outcome matches Err(ServerError::InputError(message))
            &&& message@ == REDIRECT_URI_REQUIRED@
        }),
        request@.response_type == ResponseType::Token ==> ({
            &&& outcome matches Ok(AuthorizationOutcome::Body(body))
            &&& body@ == token_body_spec(material@, request@.scope)
        }),
{
    match request.response_type() {
        ResponseType::Code => {
            match request.redirect_uri() {
                None => Err(ServerError::InputError(REDIRECT_URI_REQUIRED)),
                Some(redirect_uri) => {
                    let pairs = redirect_pairs(material, request.scope());
                    match redirect_location(redirect_uri, &pairs) {
                        Ok(location) => Ok(AuthorizationOutcome::Redirect { location }),
                        Err(error) => Err(error),
                    }
                },
            }
        },
        ResponseType::Token => Ok(AuthorizationOutcome::Body(token_body(material, request.scope()))),
    }
}

/// A code request that names no redirect URI fails as an input error,
/// whatever the token material: no redirect comes of it, not even a partial
/// one.
pub proof fn lemma_code_request_needs_redirect_uri(
    request: AuthRequestView,
    material: IssuedTokenMaterialView,
)
    requires
        request.response_type == ResponseType::Code,
        request.redirect_uri is None,
    ensures
        dispatch_spec(request, material) == Err::<AuthorizationOutcomeView, ServerErrorView>(
            ServerErrorView::InputError(REDIRECT_URI_REQUIRED@),
        ),
        !(dispatch_spec(request, material) matches Ok(AuthorizationOutcomeView::Redirect { .. })),
{
}

/// Each failure tells its reason: a request fails for want of a redirect URI
/// exactly if its fields do not fit together, as malformed exactly if it is a
/// code request whose redirect URI does not parse, and as too long exactly if
/// that URI parses and has no room for the pairs. Every other request is
/// answered.
pub proof fn lemma_failures_tell_their_reason(
    request: AuthRequestView,
    material: IssuedTokenMaterialView,
)
    ensures
        dispatch_spec(request, material) == Err::<AuthorizationOutcomeView, ServerErrorView>(
            ServerErrorView::InputError(REDIRECT_URI_REQUIRED@),
        ) <==> !request.well_formed(),
        dispatch_spec(request, material) == Err::<AuthorizationOutcomeView, ServerErrorView>(
            ServerErrorView::InputError(REDIRECT_URI_MALFORMED@),
        ) <==> ({
            &&& request.response_type == ResponseType::Code
            &&& request.redirect_uri matches Some(redirect_uri)
            &&& parsed_text(redirect_uri) is None
        }),
        dispatch_spec(request, material) == Err::<AuthorizationOutcomeView, ServerErrorView>(
            ServerErrorView::InputError(REDIRECT_URI_TOO_LONG@),
        ) <==> ({
            &&& request.response_type == ResponseType::Code
            &&& request.redirect_uri matches Some(redirect_uri)
            &&& parsed_text(redirect_uri) matches Some(text)
            &&& !pairs_fit(text, redirect_pairs_spec(material, request.scope))
        }),
        dispatch_spec(request, material) is Ok <==> ({
            ||| request.response_type == ResponseType::Token
            ||| ({
                &&& request.redirect_uri matches Some(redirect_uri)
                &&& parsed_text(redirect_uri) matches Some(text)
                &&& pairs_fit(text, redirect_pairs_spec(material, request.scope))
            })
        }),
{
    lemma_messages_differ();
}

/// A token request is always answered, by a body that carries the scope as
/// the request has it: without a scope in the request the body has none.
pub proof fn lemma_token_request_carries_scope_through(
    request: AuthRequestView,
    material: IssuedTokenMaterialView,
)
    requires
        request.response_type == ResponseType::Token,
    ensures
        dispatch_spec(request, material) matches Ok(AuthorizationOutcomeView::Body(body))
            && body.scope == request.scope && (request.scope is None ==> body.scope is None),
{
}

/// Dispatching is repeatable: two dispatches of the same request with the
/// same token material give the same outcome, character for character.
pub proof fn lemma_dispatch_is_repeatable(
    first_request: AuthRequest,
    first_material: IssuedTokenMaterial,
    second_request: AuthRequest,
    second_material: IssuedTokenMaterial,
)
    requires
        first_request@ == second_request@,
        first_material@ == second_material@,
    ensures
        dispatch_spec(first_request@, first_material@) == dispatch_spec(
            second_request@,
            second_material@,
        ),
{
}

/// The outcomes of a run of dispatches, each request with its own token
/// material: every request is answered from its own inputs.
pub open spec fn dispatch_each(
    requests: Seq<AuthRequestView>,
    materials: Seq<IssuedTokenMaterialView>,
) -> Seq<Result<AuthorizationOutcomeView, ServerErrorView>> {
    Seq::new(requests.len(), |i: int| dispatch_spec(requests[i], materials[i]))
}

/// Dispatches do not interfere: in a run of dispatches the outcome for one
/// request stays what it is when any other request of the run, and the
/// material issued for it, is exchanged for another.
pub proof fn lemma_dispatches_do_not_interfere(
    requests: Seq<AuthRequestView>,
    materials: Seq<IssuedTokenMaterialView>,
    kept: int,
    exchanged: int,
    other_request: AuthRequestView,
    other_material: IssuedTokenMaterialView,
)
    requires
        requests.len() == materials.len(),
        0 <= kept < requests.len(),
        0 <= exchanged < requests.len(),
        kept != exchanged,
    ensures
        dispatch_each(
            requests.update(exchanged, other_request),
            materials.update(exchanged, other_material),
        )[kept] == dispatch_each(requests, materials)[kept],
        dispatch_each(requests, materials)[kept] == dispatch_spec(requests[kept], materials[kept]),
{
}

} // verus!
