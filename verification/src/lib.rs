//! Authorization endpoint core: the request model, the dispatcher that turns a
//! request and issued token material into a redirect or a token body, the plan
//! of the HTTP reply, and the bearer protection of resources.

pub mod bearer;
pub mod dispatch;
pub mod endpoint;
pub mod error;
pub mod location;
pub mod reply;
pub mod request;
pub mod text;
pub mod token;

pub use dispatch::dispatch;
pub use dispatch::AuthResponse;
pub use dispatch::AuthorizationOutcome;
pub use endpoint::login;
pub use error::ServerError;
pub use reply::HttpReply;
pub use request::AuthRequest;
pub use request::ResponseType;
pub use token::IssuedTokenMaterial;
