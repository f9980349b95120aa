use vstd::prelude::*;
use crate::errors::ApiError;
use crate::credentials::Credentials;
use crate::executor::{HttpResponse, chain_result, is_success, execute_transcript};
use crate::jsonio::{
    json_field_str,
    json_nested_field_str,
    json_content_modules_of,
    json_items_count,
    lookup_string_field,
    lookup_nested_string_field,
    lookup_content_modules,
    lookup_items,
};
use crate::session::ContentModule;
use crate::strutil::str_eq;

verus! {

/// What a token exchange yields: the new access key on success, the
/// dedicated error on a 400 (the long-lived credentials were bad), a
/// malformed-response error when the success body lacks the key, and
/// the generic failure otherwise.
pub open spec fn token_exchange_result(status: u16, body: Seq<char>) -> Result<
    Seq<char>,
    ApiError,
> {
    if is_success(status) {
        match json_field_str(body, "access_token"@) {
            Some(k) => Ok(k),
            None => Err(ApiError::MalformedResponse),
        }
    } else if status == 400 {
        Err(ApiError::AuthExchangeFailed)
    } else {
        Err(ApiError::RequestFailed(status))
    }
}

/// Reads the token-exchange response.
pub fn interpret_token_response(status: u16, body: &str) -> (r: Result<String, ApiError>)
    ensures
        r is Ok <==> token_exchange_result(status, body@) is Ok,
        r matches Ok(k) ==> k@ == token_exchange_result(status, body@)->Ok_0,
        r matches Err(e) ==> e == token_exchange_result(status, body@)->Err_0,
{
    if 200 <= status && status < 300 {
        match lookup_string_field(body, "access_token") {
            Some(k) => Ok(k),
            None => Err(ApiError::MalformedResponse),
        }
    } else if status == 400 {
        Err(ApiError::AuthExchangeFailed)
    } else {
        Err(ApiError::RequestFailed(status))
    }
}

/// Applies one token exchange to the credential store: on success the
/// access key is replaced in place and nothing else changes; on
/// failure the store is left untouched and the error is reported.
pub fn refresh_access_key(creds: &mut Credentials, status: u16, body: &str) -> (r: Result<
    (),
    ApiError,
>)
    ensures
        r is Ok <==> token_exchange_result(status, body@) is Ok,
        r is Ok ==> final(creds).access_key@ == token_exchange_result(status, body@)->Ok_0,
        r matches Err(e) ==> e == token_exchange_result(status, body@)->Err_0 && *final(creds)
            == *old(creds),
        final(creds).api_key == old(creds).api_key,
        final(creds).refresh_token == old(creds).refresh_token,
        final(creds).user_id == old(creds).user_id,
        old(creds).wf() ==> final(creds).wf(),
{
    match interpret_token_response(status, body) {
        Ok(key) => {
            creds.apply_refresh(key);
            Ok(())
        },
        Err(e) => Err(e),
    }
}

/// A required string field of a delivered body: the field itself, or
/// the malformed-response error, or the chain's own failure.
pub open spec fn delivered_field_result(
    cr: Result<Seq<char>, ApiError>,
    key: Seq<char>,
) -> Result<Seq<char>, ApiError> {
    match cr {
        Ok(b) => match json_field_str(b, key) {
            Some(v) => Ok(v),
            None => Err(ApiError::MalformedResponse),
        },
        Err(e) => Err(e),
    }
}

/// Runs the retry policy over a transcript and reads the `userId`
/// field of the delivered body.
pub fn resolve_user_id(responses: &Vec<HttpResponse>) -> (r: Result<String, ApiError>)
    requires
        responses@.len() >= 1,
        responses@[0].status == 401 ==> responses@.len() >= 2,
    ensures
        r is Ok <==> delivered_field_result(chain_result(responses@), "userId"@) is Ok,
        r matches Ok(u) ==> u@ == delivered_field_result(chain_result(responses@), "userId"@)->Ok_0,
        r matches Err(e) ==> e == delivered_field_result(
            chain_result(responses@),
            "userId"@,
        )->Err_0,
{
    let outcome = execute_transcript(responses);
    match outcome.result {
        Ok(body) => match lookup_string_field(body.as_str(), "userId") {
            Some(u) => Ok(u),
            None => Err(ApiError::MalformedResponse),
        },
        Err(e) => Err(e),
    }
}

/// Resolves the user id once at startup: runs the retry policy over
/// the user-info transcript and, on success, writes the delivered id
/// into the credential store; nothing else in the store changes.
pub fn bootstrap_user_id(creds: &mut Credentials, responses: &Vec<HttpResponse>) -> (r: Result<
    (),
    ApiError,
>)
    requires
        responses@.len() >= 1,
        responses@[0].status == 401 ==> responses@.len() >= 2,
    ensures
        r is Ok <==> delivered_field_result(chain_result(responses@), "userId"@) is Ok,
        r is Ok ==> final(creds).user_id@ == delivered_field_result(
            chain_result(responses@),
            "userId"@,
        )->Ok_0,
        r matches Err(e) ==> e == delivered_field_result(chain_result(responses@), "userId"@)->Err_0
            && *final(creds) == *old(creds),
        final(creds).api_key == old(creds).api_key,
        final(creds).refresh_token == old(creds).refresh_token,
        final(creds).access_key == old(creds).access_key,
        old(creds).wf() ==> final(creds).wf(),
{
    match resolve_user_id(responses) {
        Ok(u) => {
            creds.apply_user_id(u);
            Ok(())
        },
        Err(e) => Err(e),
    }
}

/// Runs the retry policy over a transcript and reads the `url` field
/// of the delivered body: the signed content URL.
pub fn resolve_signed_url(responses: &Vec<HttpResponse>) -> (r: Result<String, ApiError>)
    requires
        responses@.len() >= 1,
        responses@[0].status == 401 ==> responses@.len() >= 2,
    ensures
        r is Ok <==> delivered_field_result(chain_result(responses@), "url"@) is Ok,
        r matches Ok(u) ==> u@ == delivered_field_result(chain_result(responses@), "url"@)->Ok_0,
        r matches Err(e) ==> e == delivered_field_result(chain_result(responses@), "url"@)->Err_0,
{
    let outcome = execute_transcript(responses);
    match outcome.result {
        Ok(body) => match lookup_string_field(body.as_str(), "url") {
            Some(u) => Ok(u),
            None => Err(ApiError::MalformedResponse),
        },
        Err(e) => Err(e),
    }
}

/// What a content document describes: the section's number and title
/// (empty when absent), the content identifier, whether it is the
/// hardest-questions variant, and the ordered module list.
pub struct ContentInfo {
    pub number: String,
    pub title: String,
    pub content_id: String,
    pub hardest_questions: bool,
    pub modules: Vec<ContentModule>,
}

/// Reads a delivered content document. The document is malformed when
/// it lacks the content identifier or the module listing; a missing
/// number or title merely defaults to the empty string.
pub fn interpret_content(body: &str) -> (r: Result<ContentInfo, ApiError>)
    ensures
        r is Ok <==> (json_nested_field_str(body@, "contents"@, "id"@) is Some
            && json_content_modules_of(body@) is Some),
        r is Err ==> r->Err_0 == ApiError::MalformedResponse,
        r matches Ok(ci) ==> ci.content_id@ == json_nested_field_str(
            body@,
            "contents"@,
            "id"@,
        )->0,
        r matches Ok(ci) ==> (json_field_str(body@, "number"@) matches Some(s) ==> ci.number@
            == s),
        r matches Ok(ci) ==> (json_field_str(body@, "number"@) is None ==> ci.number@
            == Seq::<char>::empty()),
        r matches Ok(ci) ==> (json_field_str(body@, "title"@) matches Some(s) ==> ci.title@ == s),
        r matches Ok(ci) ==> (json_field_str(body@, "title"@) is None ==> ci.title@
            == Seq::<char>::empty()),
        r matches Ok(ci) ==> (ci.hardest_questions <==> json_nested_field_str(
            body@,
            "contents"@,
            "contentType"@,
        ) == Some("hardestQuestions"@)),
        r matches Ok(ci) ==> ci.modules@.len() == json_content_modules_of(body@)->0.len(),
        r matches Ok(ci) ==> forall|i: int|
            0 <= i < ci.modules@.len() ==> (#[trigger] ci.modules@[i]).id@
                == json_content_modules_of(body@)->0[i].0 && ci.modules@[i].module_type@
                == json_content_modules_of(body@)->0[i].1,
{
    let content_id = match lookup_nested_string_field(body, "contents", "id") {
        Some(s) => s,
        None => {
            return Err(ApiError::MalformedResponse);
        },
    };
    let modules = match lookup_content_modules(body) {
        Some(v) => v,
        None => {
            return Err(ApiError::MalformedResponse);
        },
    };
    let number = match lookup_string_field(body, "number") {
        Some(s) => s,
        None => String::new(),
    };
    let title = match lookup_string_field(body, "title") {
        Some(s) => s,
        None => String::new(),
    };
    let hardest_questions = match lookup_nested_string_field(body, "contents", "contentType") {
        Some(t) => str_eq(t.as_str(), "hardestQuestions"),
        None => false,
    };
    Ok(ContentInfo { number, title, content_id, hardest_questions, modules })
}

/// Runs the retry policy over a transcript of a content fetch and
/// reads the delivered content document.
pub fn fetch_content(responses: &Vec<HttpResponse>) -> (r: Result<ContentInfo, ApiError>)
    requires
        responses@.len() >= 1,
        responses@[0].status == 401 ==> responses@.len() >= 2,
    ensures
        chain_result(responses@) matches Err(e) ==> r == Err::<ContentInfo, ApiError>(e),
        chain_result(responses@) matches Ok(b) ==> (r is Ok <==> (json_nested_field_str(
            b,
            "contents"@,
            "id"@,
        ) is Some && json_content_modules_of(b) is Some)),
        chain_result(responses@) matches Ok(b) ==> (r is Err ==> r->Err_0
            == ApiError::MalformedResponse),
        chain_result(responses@) matches Ok(b) ==> (r matches Ok(ci) ==> ci.content_id@
            == json_nested_field_str(b, "contents"@, "id"@)->0 && ci.modules@.len()
            == json_content_modules_of(b)->0.len()),
        chain_result(responses@) matches Ok(b) ==> (r matches Ok(ci) ==> (ci.hardest_questions
            <==> json_nested_field_str(b, "contents"@, "contentType"@) == Some(
            "hardestQuestions"@,
        ))),
        chain_result(responses@) matches Ok(b) ==> (r matches Ok(ci) ==> (json_field_str(
            b,
            "number"@,
        ) matches Some(s) ==> ci.number@ == s)),
        chain_result(responses@) matches Ok(b) ==> (r matches Ok(ci) ==> (json_field_str(
            b,
            "title"@,
        ) matches Some(s) ==> ci.title@ == s)),
{
    let outcome = execute_transcript(responses);
    match outcome.result {
        Ok(body) => interpret_content(body.as_str()),
        Err(e) => Err(e),
    }
}

/// Reads a delivered assignments document: the records of its `items`
/// array, kept as raw values.
pub fn interpret_assignments(body: &str) -> (r: Result<Vec<serde_json::Value>, ApiError>)
    ensures
        r is Ok <==> json_items_count(body@) is Some,
        r matches Ok(v) ==> v@.len() == json_items_count(body@)->0,
        r is Err ==> r->Err_0 == ApiError::MalformedResponse,
{
    match lookup_items(body) {
        Some(v) => Ok(v),
        None => Err(ApiError::MalformedResponse),
    }
}

/// Runs the retry policy over a transcript of an assignments fetch
/// and reads the delivered listing.
pub fn fetch_assignments(responses: &Vec<HttpResponse>) -> (r: Result<
    Vec<serde_json::Value>,
    ApiError,
>)
    requires
        responses@.len() >= 1,
        responses@[0].status == 401 ==> responses@.len() >= 2,
    ensures
        chain_result(responses@) matches Err(e) ==> (r matches Err(e2) && e2 == e),
        chain_result(responses@) matches Ok(b) ==> (r is Ok <==> json_items_count(b) is Some),
        chain_result(responses@) matches Ok(b) ==> (r matches Ok(v) ==> v@.len()
            == json_items_count(b)->0),
        chain_result(responses@) matches Ok(b) ==> (r is Err ==> r->Err_0
            == ApiError::MalformedResponse),
{
    let outcome = execute_transcript(responses);
    match outcome.result {
        Ok(body) => interpret_assignments(body.as_str()),
        Err(e) => Err(e),
    }
}

/// Runs the retry policy over a transcript of a session submission:
/// only success or failure is reported, the delivered body is
/// discarded.
pub fn submit_session_outcome(responses: &Vec<HttpResponse>) -> (r: Result<(), ApiError>)
    requires
        responses@.len() >= 1,
        responses@[0].status == 401 ==> responses@.len() >= 2,
    ensures
        r is Ok <==> chain_result(responses@) is Ok,
        r matches Err(e) ==> e == chain_result(responses@)->Err_0,
{
    let outcome = execute_transcript(responses);
    match outcome.result {
        Ok(_) => Ok(()),
        Err(e) => Err(e),
    }
}

} // verus!
