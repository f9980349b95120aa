use vstd::prelude::*;

verus! {

/// The failures a request chain can end in.
///
/// `AuthExchangeFailed` is the token-exchange endpoint rejecting the
/// long-lived credentials (HTTP 400); it is not recoverable by retrying.
/// `AuthenticationFailed` is a 401 that persisted after the one permitted
/// access-key refresh. `RequestFailed` carries any other non-success
/// status. `MalformedResponse` marks a success response whose body lacks
/// an expected field.
#[derive(Clone, Copy, PartialEq, Eq, Structural, Debug)]
pub enum ApiError {
    AuthExchangeFailed,
    AuthenticationFailed,
    RequestFailed(u16),
    MalformedResponse,
}

} // verus!
