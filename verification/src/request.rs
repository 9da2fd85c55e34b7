//! The authorization request as the endpoint receives it.

use vstd::prelude::*;
use crate::text::as_opt_str;
use crate::text::str_eq;
use crate::text::text_of;
use crate::text::text_of_owned;

verus! {

/// The shape of grant that a client asks for.
#[derive(Clone, Copy, Debug, PartialEq, Eq, Structural)]
pub enum ResponseType {
    /// The token material is delivered by a redirect to the client.
    Code,
    /// The token material is delivered as a JSON body.
    Token,
}

/// The response type that the field value `name` stands for: each variant
/// answers to its own name and to its lower-case alias, nothing else does.
pub open spec fn response_type_named(name: Seq<char>) -> Option<ResponseType> {
    if name == "Code"@ || name == "code"@ {
        Some(ResponseType::Code)
    } else if name == "Token"@ || name == "token"@ {
        Some(ResponseType::Token)
    } else {
        None
    }
}

impl ResponseType {
    /// Reads a `response_type` field value.
    pub fn from_name(name: &str) -> (parsed: Option<ResponseType>)
        ensures
            parsed == response_type_named(name@),
    {
        if str_eq(name, "Code") || str_eq(name, "code") {
            Some(ResponseType::Code)
        } else if str_eq(name, "Token") || str_eq(name, "token") {
            Some(ResponseType::Token)
        } else {
            None
        }
    }
}

/// An authorization request. Nothing relates the fields to each other here:
/// whether a code request names a redirect URI is decided at dispatch.
#[derive(Debug)]
pub struct AuthRequest {
    response_type: ResponseType,
    maybe_scope: Option<String>,
    maybe_redirect_uri: Option<String>,
}

/// An authorization request as plain values.
pub struct AuthRequestView {
    pub response_type: ResponseType,
    pub scope: Option<Seq<char>>,
    pub redirect_uri: Option<Seq<char>>,
}

impl AuthRequestView {
    /// Whether the fields fit together: a code request names a redirect URI.
    /// Decoding does not ask for it; dispatch does.
    pub open spec fn well_formed(self) -> bool {
        self.response_type == ResponseType::Code ==> self.redirect_uri is Some
    }
}

impl View for AuthRequest {
    type V = AuthRequestView;

    closed spec fn view(&self) -> AuthRequestView {
        AuthRequestView {
            response_type: self.response_type,
            scope: text_of_owned(self.maybe_scope),
            redirect_uri: text_of_owned(self.maybe_redirect_uri),
        }
    }
}

/// The request that a mapping of the recognized fields decodes to, `None`
/// where `response_type` names no response type.
pub open spec fn request_from_fields(
    response_type: Seq<char>,
    scope: Option<Seq<char>>,
    redirect_uri: Option<Seq<char>>,
) -> Option<AuthRequestView> {
    match response_type_named(response_type) {
        Some(response_type) => Some(AuthRequestView { response_type, scope, redirect_uri }),
        None => None,
    }
}

impl AuthRequest {
    /// A request with the given fields.
    pub fn new(
        response_type: ResponseType,
        maybe_scope: Option<String>,
        maybe_redirect_uri: Option<String>,
    ) -> (request: AuthRequest)
        ensures
            request@ == (AuthRequestView {
                response_type,
                scope: text_of_owned(maybe_scope),
                redirect_uri: text_of_owned(maybe_redirect_uri),
            }),
    {
        AuthRequest { response_type, maybe_scope, maybe_redirect_uri }
    }

    /// Decodes the recognized fields of a request body. `scope` and
    /// `redirect_uri` pass through as they are.
    pub fn from_fields(
        response_type: &str,
        scope: Option<String>,
        redirect_uri: Option<String>,
    ) -> (request: Option<AuthRequest>)
        ensures
            match request_from_fields(
                response_type@,
                text_of_owned(scope),
                text_of_owned(redirect_uri),
            ) {
                Some(decoded) => request matches Some(r) && r@ == decoded,
                None => request is None,
            },
    {
        match ResponseType::from_name(response_type) {
            Some(response_type) => Some(AuthRequest::new(response_type, scope, redirect_uri)),
            None => None,
        }
    }

    /// The requested response type.
    pub fn response_type(&self) -> (response_type: ResponseType)
        ensures
            response_type == self@.response_type,
    {
        self.response_type
    }

    /// The requested scope, if any.
    pub fn scope(&self) -> (scope: Option<&str>)
        ensures
            text_of(scope) == self@.scope,
    {
        as_opt_str(&self.maybe_scope)
    }

    /// The redirect URI, if any.
    pub fn redirect_uri(&self) -> (redirect_uri: Option<&str>)
        ensures
            text_of(redirect_uri) == self@.redirect_uri,
    {
        as_opt_str(&self.maybe_redirect_uri)
    }
}

} // verus!
