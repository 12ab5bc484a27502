//! Errors handed to the caller that starts a server.

use vstd::prelude::*;

verus! {

#[verifier::external_type_specification]
#[verifier::external_body]
pub struct ExIoError(std::io::Error);

/// Relies on `std::io::Error::new`: an error of kind `Other` carrying the message.
#[verifier::external_body]
fn other_io_error(message: String) -> (r: std::io::Error) {
    std::io::Error::new(std::io::ErrorKind::Other, message)
}

/// An I/O error of kind `Other` that carries `message`, for start-up failures that
/// are not I/O errors themselves (an address that does not parse).
pub fn into_io_error(message: &str) -> std::io::Error {
    other_io_error(message.to_string())
}

} // verus!
