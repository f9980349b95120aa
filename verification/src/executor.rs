use vstd::prelude::*;
use crate::errors::ApiError;

verus! {

/// A response as the transport reports it: status code and body text.
pub struct HttpResponse {
    pub status: u16,
    pub body: String,
}

pub open spec fn is_success(status: u16) -> bool {
    200 <= status < 300
}

pub open spec fn is_unauthorized(status: u16) -> bool {
    status == 401
}

/// Where an authenticated request chain stands: either no refresh has
/// been spent yet, or the one permitted refresh already happened.
#[derive(Clone, Copy, PartialEq, Eq, Structural, Debug)]
pub enum AttemptState {
    FirstAttempt,
    Refreshed,
}

/// What the retry policy asks for after seeing one response.
#[derive(Clone, Copy, PartialEq, Eq, Structural, Debug)]
pub enum RetryAction {
    Accept,
    RefreshAndRetry,
    FailAuthentication,
    FailRequest,
}

/// The single cross-cutting retry policy: accept success, spend the
/// one refresh on the first 401, fail terminally on a second 401, and
/// fail immediately on any other status.
pub fn classify_response(state: AttemptState, status: u16) -> (a: RetryAction)
    ensures
        is_success(status) ==> a == RetryAction::Accept,
        !is_success(status) && is_unauthorized(status) && state == AttemptState::FirstAttempt ==> a
            == RetryAction::RefreshAndRetry,
        !is_success(status) && is_unauthorized(status) && state == AttemptState::Refreshed ==> a
            == RetryAction::FailAuthentication,
        !is_success(status) && !is_unauthorized(status) ==> a == RetryAction::FailRequest,
{
    if 200 <= status && status < 300 {
        RetryAction::Accept
    } else if status == 401 {
        match state {
            AttemptState::FirstAttempt => RetryAction::RefreshAndRetry,
            AttemptState::Refreshed => RetryAction::FailAuthentication,
        }
    } else {
        RetryAction::FailRequest
    }
}

/// The body the policy delivers, or the error it ends in, over a
/// recorded sequence of responses to one logical request.
pub open spec fn chain_result(rs: Seq<HttpResponse>) -> Result<Seq<char>, ApiError> {
    if is_success(rs[0].status) {
        Ok(rs[0].body@)
    } else if is_unauthorized(rs[0].status) {
        if is_success(rs[1].status) {
            Ok(rs[1].body@)
        } else if is_unauthorized(rs[1].status) {
            Err(ApiError::AuthenticationFailed)
        } else {
            Err(ApiError::RequestFailed(rs[1].status))
        }
    } else {
        Err(ApiError::RequestFailed(rs[0].status))
    }
}

/// How many refreshes the policy spends on that sequence: one exactly
/// when the first response is a 401.
pub open spec fn chain_refreshes(rs: Seq<HttpResponse>) -> int {
    if !is_success(rs[0].status) && is_unauthorized(rs[0].status) {
        1
    } else {
        0
    }
}

/// The outcome of one request chain: what it delivered, how many
/// requests went out, and how many refreshes were spent.
pub struct ChainOutcome {
    pub result: Result<String, ApiError>,
    pub attempts: usize,
    pub refreshes: usize,
}

/// Runs the retry policy over a recorded transcript of responses, as
/// a test double or a replay would supply it: response `0` answers
/// the first attempt, and, only when that was a 401, response `1`
/// answers the retried attempt. No third attempt is ever made.
pub fn execute_transcript(responses: &Vec<HttpResponse>) -> (o: ChainOutcome)
    requires
        responses@.len() >= 1,
        is_unauthorized(responses@[0].status) ==> responses@.len() >= 2,
    ensures
        o.result is Ok <==> chain_result(responses@) is Ok,
        o.result matches Ok(b) ==> b@ == chain_result(responses@)->Ok_0,
        o.result matches Err(e) ==> e == chain_result(responses@)->Err_0,
        o.refreshes == chain_refreshes(responses@),
        o.attempts == chain_refreshes(responses@) + 1,
        o.attempts <= 2,
{
    let first = classify_response(AttemptState::FirstAttempt, responses[0].status);
    match first {
        RetryAction::Accept => ChainOutcome {
            result: Ok(responses[0].body.clone()),
            attempts: 1,
            refreshes: 0,
        },
        RetryAction::FailRequest => ChainOutcome {
            result: Err(ApiError::RequestFailed(responses[0].status)),
            attempts: 1,
            refreshes: 0,
        },
        RetryAction::FailAuthentication => ChainOutcome {
            result: Err(ApiError::AuthenticationFailed),
            attempts: 1,
            refreshes: 0,
        },
        RetryAction::RefreshAndRetry => {
            let second = classify_response(AttemptState::Refreshed, responses[1].status);
            let result = match second {
                RetryAction::Accept => Ok(responses[1].body.clone()),
                RetryAction::FailAuthentication => Err(ApiError::AuthenticationFailed),
                RetryAction::FailRequest => Err(ApiError::RequestFailed(responses[1].status)),
                RetryAction::RefreshAndRetry => Err(ApiError::AuthenticationFailed),
            };
            ChainOutcome { result, attempts: 2, refreshes: 1 }
        },
    }
}

/// A 401 answered by a success costs exactly one refresh and one
/// resubmission, and delivers the success body; a second 401 is
/// terminal after the same two attempts, so no third submission ever
/// happens.
pub proof fn lemma_retry_once(o: ChainOutcome, rs: Seq<HttpResponse>)
    requires
        rs.len() == 2,
        is_unauthorized(rs[0].status),
        o.result is Ok <==> chain_result(rs) is Ok,
        o.result matches Ok(b) ==> b@ == chain_result(rs)->Ok_0,
        o.result matches Err(e) ==> e == chain_result(rs)->Err_0,
        o.refreshes == chain_refreshes(rs),
        o.attempts == chain_refreshes(rs) + 1,
    ensures
        o.refreshes == 1,
        o.attempts == 2,
        is_success(rs[1].status) ==> (o.result matches Ok(b) && b@ == rs[1].body@),
        is_unauthorized(rs[1].status) ==> o.result == Err::<String, ApiError>(
            ApiError::AuthenticationFailed,
        ),
{
    if is_unauthorized(rs[1].status) {
        assert(o.result is Err);
        let e = o.result->Err_0;
        assert(e == ApiError::AuthenticationFailed);
    }
}

} // verus!
