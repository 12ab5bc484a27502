//! A minimal HTTP server bridge: every accepted request is handed to a single
//! consumer loop, and every request receives exactly one response.

pub mod bridge;
pub mod error;
pub mod header;
pub mod reply;
pub mod request;
pub mod response;

pub use bridge::{path_and_query, received_body, reply_or_error, response_text, unavailable_response};
pub use error::into_io_error;
pub use header::{Header, HeaderParseError};
pub use reply::ReplySlot;
pub use request::{Request, RespondError};
pub use response::Response;
