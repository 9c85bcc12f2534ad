//! The faults with which a request head is rejected.

use vstd::prelude::*;
use vstd::std_specs::convert::FromSpecImpl;

verus! {

/// `httparse::Error`, the scanner's error. Verus reads its variants from the
/// crate that defines it; nothing is claimed of it here.
#[verifier::external_type_specification]
pub struct ExError(httparse::Error);

/// Why a buffer was rejected as a request head.
#[derive(Copy, Clone, Debug, PartialEq, Eq, Structural)]
pub enum HttpFault {
    /// Held in reserve: no buffer is rejected with it.
    InvalidVersion,
    /// Held in reserve: no buffer is rejected with it.
    InvalidMethod,
    /// Held in reserve: no buffer is rejected with it.
    InvalidPath,
    /// A header name is empty or holds a byte that a name may not hold.
    HeaderName,
    /// A header value holds a control byte.
    HeaderValue,
    /// A line does not end as a line must.
    NewLine,
    /// The scanner reports a fault of this name, or its scan does not fit the
    /// buffer it was made of.
    Status,
    /// The method or the path is empty or holds a byte that a token may not
    /// hold.
    Token,
    /// The head has more header lines than the storage has slots.
    TooManyHeaders,
    /// The version is neither `HTTP/1.0` nor `HTTP/1.1`.
    Version,
}

impl From<httparse::Error> for HttpFault {
    /// The fault that bears the name of the scanner's error.
    fn from(x: httparse::Error) -> (r: Self) {
        match x {
            httparse::Error::HeaderName => HttpFault::HeaderName,
            httparse::Error::HeaderValue => HttpFault::HeaderValue,
            httparse::Error::NewLine => HttpFault::NewLine,
            httparse::Error::Status => HttpFault::Status,
            httparse::Error::Token => HttpFault::Token,
            httparse::Error::TooManyHeaders => HttpFault::TooManyHeaders,
            httparse::Error::Version => HttpFault::Version,
        }
    }
}

impl FromSpecImpl<httparse::Error> for HttpFault {
    open spec fn obeys_from_spec() -> bool {
        true
    }

    open spec fn from_spec(x: httparse::Error) -> Self {
        match x {
            httparse::Error::HeaderName => HttpFault::HeaderName,
            httparse::Error::HeaderValue => HttpFault::HeaderValue,
            httparse::Error::NewLine => HttpFault::NewLine,
            httparse::Error::Status => HttpFault::Status,
            httparse::Error::Token => HttpFault::Token,
            httparse::Error::TooManyHeaders => HttpFault::TooManyHeaders,
            httparse::Error::Version => HttpFault::Version,
        }
    }
}

} // verus!
