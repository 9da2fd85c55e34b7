//! The HTTP reply that presents an outcome or a failure, as plain values for
//! the server to send.

use vstd::prelude::*;
use vstd::string::*;
use crate::dispatch::AuthResponse;
use crate::dispatch::AuthResponseView;
use crate::dispatch::AuthorizationOutcome;
use crate::dispatch::AuthorizationOutcomeView;
use crate::error::ServerError;
use crate::error::ServerErrorView;

verus! {

/// A header of a reply, or a member of a JSON body: a name and a string
/// value.
#[derive(Debug)]
pub struct Field {
    pub name: String,
    pub value: String,
}

impl View for Field {
    type V = (Seq<char>, Seq<char>);

    open spec fn view(&self) -> (Seq<char>, Seq<char>) {
        (self.name@, self.value@)
    }
}

impl Field {
    /// The field `name` with the value `value`.
    pub fn new(name: &str, value: &str) -> (field: Field)
        ensures
            field@ == (name@, value@),
    {
        Field { name: String::from_str(name), value: String::from_str(value) }
    }
}

/// The fields of a list as plain values, in the list's order.
pub open spec fn fields_text(fields: Seq<Field>) -> Seq<(Seq<char>, Seq<char>)> {
    fields.map_values(|field: Field| field@)
}

/// The body of a reply. Its kind says what content type the server sends
/// it as.
#[derive(Debug)]
pub enum ReplyBody {
    /// Plain text.
    Text(String),
    /// A JSON object with these members, in this order.
    Json(Vec<Field>),
}

/// A reply body as plain values.
pub enum ReplyBodyView {
    Text(Seq<char>),
    Json(Seq<(Seq<char>, Seq<char>)>),
}

impl View for ReplyBody {
    type V = ReplyBodyView;

    open spec fn view(&self) -> ReplyBodyView {
        match self {
            ReplyBody::Text(text) => ReplyBodyView::Text(text@),
            ReplyBody::Json(members) => ReplyBodyView::Json(fields_text(members@)),
        }
    }
}

/// An HTTP reply: the status code, the headers that the endpoint sets, and
/// the body.
#[derive(Debug)]
pub struct HttpReply {
    pub status: u16,
    pub headers: Vec<Field>,
    pub body: ReplyBody,
}

/// A reply as plain values.
pub struct HttpReplyView {
    pub status: u16,
    pub headers: Seq<(Seq<char>, Seq<char>)>,
    pub body: ReplyBodyView,
}

impl View for HttpReply {
    type V = HttpReplyView;

    open spec fn view(&self) -> HttpReplyView {
        HttpReplyView {
            status: self.status,
            headers: fields_text(self.headers@),
            body: self.body@,
        }
    }
}

impl HttpReplyView {
    /// Whether the reply carries the header `name` with the value `value`.
    pub open spec fn carries(self, name: Seq<char>, value: Seq<char>) -> bool {
        self.headers.contains((name, value))
    }
}

/// The members of the serialized token body, in their order: the token type
/// and the access token, then the refresh token and the scope, each only if
/// there is one.
pub open spec fn body_members(body: AuthResponseView) -> Seq<(Seq<char>, Seq<char>)> {
    let fixed = seq![("token_type"@, body.token_type), ("access_token"@, body.access_token)];
    let refreshed = match body.refresh_token {
        Some(refresh_token) => fixed.push(("refresh_token"@, refresh_token)),
        None => fixed,
    };
    match body.scope {
        Some(scope) => refreshed.push(("scope"@, scope)),
        None => refreshed,
    }
}

/// The reply that presents `outcome`: a redirect is `302` with the location
/// in the `Location` header and named in the text; a token body is `200`
/// with the body as JSON, and is marked as not to be stored by any cache.
pub open spec fn reply_spec(outcome: AuthorizationOutcomeView) -> HttpReplyView {
    match outcome {
        AuthorizationOutcomeView::Redirect { location } => HttpReplyView {
            status: 302,
            headers: seq![("Location"@, location)],
            body: ReplyBodyView::Text("Redirecting to "@ + location),
        },
        AuthorizationOutcomeView::Body(body) => HttpReplyView {
            status: 200,
            headers: seq![("Cache-Control"@, "no-store"@)],
            body: ReplyBodyView::Json(body_members(body)),
        },
    }
}

/// The reply that reports `error` to the client: `400` with the message in
/// plain text.
pub open spec fn error_reply_spec(error: ServerErrorView) -> HttpReplyView {
    match error {
        ServerErrorView::InputError(message) => HttpReplyView {
            status: 400,
            headers: seq![],
            body: ReplyBodyView::Text("Input error: "@ + message),
        },
    }
}

impl<'t> AuthResponse<'t> {
    /// Lists the members of the serialized body.
    pub fn members(&self) -> (members: Vec<Field>)
        ensures
            fields_text(members@) == body_members(self@),
    {
        let mut members: Vec<Field> = Vec::new();
        members.push(Field::new("token_type", self.token_type));
        members.push(Field::new("access_token", self.access_token));
        if let Some(refresh_token) = self.refresh_token {
            members.push(Field::new("refresh_token", refresh_token));
        }
        if let Some(scope) = self.scope {
            members.push(Field::new("scope", scope));
        }
        members
    }
}

impl<'t> AuthorizationOutcome<'t> {
    /// Plans the reply that presents this outcome.
    pub fn reply(&self) -> (reply: HttpReply)
        ensures
            reply@ == reply_spec(self@),
    {
        match self {
            AuthorizationOutcome::Redirect { location } => {
                let mut headers: Vec<Field> = Vec::new();
                headers.push(Field::new("Location", location.as_str()));
                let text = String::from_str("Redirecting to ").concat(location.as_str());
                assert(fields_text(headers@) =~= seq![("Location"@, location@)]);
                HttpReply { status: 302, headers, body: ReplyBody::Text(text) }
            },
            AuthorizationOutcome::Body(body) => {
                let mut headers: Vec<Field> = Vec::new();
                headers.push(Field::new("Cache-Control", "no-store"));
                assert(fields_text(headers@) =~= seq![("Cache-Control"@, "no-store"@)]);
                HttpReply { status: 200, headers, body: ReplyBody::Json(body.members()) }
            },
        }
    }
}

impl<'t> ServerError<'t> {
    /// Plans the reply that reports this failure.
    pub fn error_response(&self) -> (reply: HttpReply)
        ensures
            reply@ == error_reply_spec(self@),
    {
        match self {
            ServerError::InputError(message) => {
                let text = String::from_str("Input error: ").concat(message);
                let headers: Vec<Field> = Vec::new();
                assert(fields_text(headers@) =~= seq![]);
                HttpReply { status: 400, headers, body: ReplyBody::Text(text) }
            },
        }
    }
}

} // verus!
