//! Turns temporary AWS credentials held in the environment into a signed-in
//! console session: the credentials are checked against the requested
//! profile, exchanged for a sign-in token at the federation endpoint, and the
//! token is built into the console login URL that a browser then opens.
//!
//! The library decides and computes; reading the process environment, sending
//! the request and starting the browser are left to the caller.

pub mod console;
pub mod credentials;
pub mod error;
pub mod exchange;
pub mod json;
pub mod pipeline;
pub mod text;

pub use console::get_console_url;
pub use credentials::get_aws_credentials;
pub use credentials::Credentials;
pub use credentials::CredentialsView;
pub use error::Error;
pub use error::ErrorView;
pub use exchange::signin_request;
pub use exchange::signin_token_from_response;
pub use exchange::SigninRequest;
