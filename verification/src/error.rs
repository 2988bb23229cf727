//! The application's error type.  A store failure or a bad argument is
//! carried unchanged to the request boundary; the HTTP layer maps each
//! variant to a response.

use vstd::prelude::*;

verus! {

/// Everything a request handler can fail with.
pub enum AppError {
    /// The addressed thing does not exist.
    NotFound(&'static str),
    /// Not signed in; the payload is the address to bounce to.
    InvalidLogin(String),
    /// A query failed in the store; not retried.
    Database(String),
    /// A malformed argument reached a handler.
    InvalidArg(String),
    /// An uploaded image was none of the accepted formats.
    InvalidFileFormat,
    /// A multipart request could not be read.
    MultipartError(String),
    /// Any other failure, described in text.
    Anyhow(String),
}

impl AppError {
    /// The error's display text.
    pub fn message(&self) -> (r: String)
        ensures
            self matches AppError::NotFound(s) ==> r@ == "Not Found: "@ + s@,
            self matches AppError::InvalidLogin(s) ==> r@ == " to `"@ + s@ + "` "@,
            self matches AppError::Database(s) ==> r@ == " database error `"@ + s@ + "` "@,
            self matches AppError::InvalidArg(s) ==> r@ == " arg error `"@ + s@ + "` "@,
            self is InvalidFileFormat ==> r@ == "Invalid file format"@,
            self matches AppError::MultipartError(s) ==> r@
                == "Error parsing `multipart/form-data` request.\n"@ + s@,
            self matches AppError::Anyhow(s) ==> r@ == s@,
    {
        let mut r = String::new();
        match self {
            AppError::NotFound(s) => {
                r.append("Not Found: ");
                r.append(s);
            },
            AppError::InvalidLogin(s) => {
                r.append(" to `");
                r.append(s.as_str());
                r.append("` ");
            },
            AppError::Database(s) => {
                r.append(" database error `");
                r.append(s.as_str());
                r.append("` ");
            },
            AppError::InvalidArg(s) => {
                r.append(" arg error `");
                r.append(s.as_str());
                r.append("` ");
            },
            AppError::InvalidFileFormat => {
                r.append("Invalid file format");
            },
            AppError::MultipartError(s) => {
                r.append("Error parsing `multipart/form-data` request.\n");
                r.append(s.as_str());
            },
            AppError::Anyhow(s) => {
                r.append(s.as_str());
            },
        }
        r
    }
}

} // verus!
