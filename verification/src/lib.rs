//! A paginated-fetch engine: one logical lazy sequence of items over an
//! HTTP listing that returns a page of items plus an opaque continuation
//! token per request. The sequence is a verified state machine, driven
//! pull by pull; the transport that performs the fetches it asks for
//! stays outside the library.

pub mod analyze;
pub mod api;
pub mod page;
pub mod paginate;
pub mod request;
pub mod run;
