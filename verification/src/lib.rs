//! A typed client core for the Lemmy REST API: configuration, route
//! construction, header and token attachment, request preparation and
//! decoding of the success-or-error response envelope.

pub mod dispatch;
pub mod error;
pub mod headers;
pub mod request;
pub mod response;
pub mod route;
pub mod utils;

pub use dispatch::{build_query_route, prepare_request, resolve_token, Fetch};
pub use error::LemmyClientError;
pub use headers::Headers;
pub use request::{FormEncoding, HttpMethod, LemmyRequest, RequestBuilder};
pub use response::{decode_response, Envelope, LemmyResult};
pub use route::build_route;
pub use utils::ClientOptions;
