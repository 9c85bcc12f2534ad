//! The head of an HTTP/1.x request, parsed without copying.
//!
//! [`Http::new`] takes a buffer and a slice of header slots and tells whether
//! the buffer holds a whole request head, needs more bytes, or is malformed.
//! The bytes are scanned by `httparse`; what its scan amounts to, and which
//! method a token stands for, is decided here.

pub mod fault;
pub mod method;
pub mod request;
pub mod scan;

pub use fault::HttpFault;
pub use httparse::Header;
pub use method::Method;
pub use request::Http;
