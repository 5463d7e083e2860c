//! A guard for request handlers that turns away requests whose declared
//! body length is missing or above a configured ceiling.
//!
//! The guard looks only at the `Content-Length` that a request declares,
//! never at the body itself, so a rejection costs the same whatever the
//! payload. A request that passes is handed to the wrapped handler as it
//! came, and that handler's answer is returned as it is.

pub mod error;
pub mod request;
pub mod endpoint;
pub mod middleware;

pub use endpoint::Endpoint;
pub use error::{Error, SizedLimitError};
pub use middleware::{Middleware, SizeLimit, SizeLimitEndpoint};
pub use request::Request;
