use vstd::prelude::*;

verus! {

/// One server response: zero or more items in server order, plus the
/// pagination metadata that came with them. Ownership of a page moves
/// entirely into the paginated sequence's buffer when the fetch resolves.
#[derive(Debug)]
pub struct Page<T> {
    /// The items of this page, in the order the server returned them.
    pub items: Vec<T>,
    /// The number of items the server reported for this page.
    pub result_count: usize,
    /// The opaque cursor for the logically-next page; its absence after a
    /// page signals the definitive end of the sequence.
    pub next_token: Option<String>,
    /// The opaque cursor for the logically-previous page, when the server
    /// supplies one. The engine never follows it.
    pub previous_token: Option<String>,
}

/// The abstract value of an optional token.
pub open spec fn opt_str_view(t: Option<String>) -> Option<Seq<char>> {
    match t {
        Some(s) => Some(s@),
        None => None,
    }
}

/// Why a fetch failed. Every variant is surfaced to the pull that
/// triggered the failing fetch; none is retried by the engine itself.
#[derive(Clone, Copy, Debug, PartialEq, Eq, Structural)]
pub enum ApiError {
    /// The request never produced a response: connection, DNS or TLS
    /// failure, timeout, or a reset.
    Transport,
    /// The server answered with the given non-success status code; the
    /// body is not inspected in that case.
    HttpStatus(u16),
    /// The response body did not decode into the expected page shape.
    Decode,
}

/// Classify a response's status code, before any look at the body: a
/// success status clears the way for decoding, any other status is an
/// error by itself.
pub fn classify_status(status: u16) -> (r: Option<ApiError>)
    ensures
        200 <= status < 300 ==> r is None,
        !(200 <= status < 300) ==> r == Some(ApiError::HttpStatus(status)),
{
    if 200 <= status && status < 300 {
        None
    } else {
        Some(ApiError::HttpStatus(status))
    }
}

} // verus!
