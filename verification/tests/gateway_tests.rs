use seneca_client::credentials::Credentials;
use seneca_client::errors::ApiError;
use seneca_client::executor::{execute_transcript, HttpResponse};
use seneca_client::gateway::{
    bootstrap_user_id, fetch_assignments, fetch_content, interpret_assignments,
    interpret_content, interpret_token_response, refresh_access_key, resolve_signed_url,
    resolve_user_id, submit_session_outcome,
};
use seneca_client::headers::{push_amz_date, standard_headers};
use seneca_client::jsonesc::{escape_json_string, token_request_body};
use seneca_client::urlenc::urlencode_ascii;
use seneca_client::urls::{
    assignments_url, signed_url_endpoint, stats_url, token_url, user_info_url,
};

fn resp(status: u16, body: &str) -> HttpResponse {
    HttpResponse { status, body: String::from(body) }
}

#[test]
fn success_on_first_attempt_spends_no_refresh() {
    let transcript = vec![resp(200, "payload")];
    let outcome = execute_transcript(&transcript);
    assert_eq!(outcome.result, Ok(String::from("payload")));
    assert_eq!(outcome.attempts, 1);
    assert_eq!(outcome.refreshes, 0);
}

#[test]
fn unauthorized_then_success_refreshes_exactly_once() {
    let transcript = vec![resp(401, "denied"), resp(200, "fresh payload")];
    let outcome = execute_transcript(&transcript);
    assert_eq!(outcome.result, Ok(String::from("fresh payload")));
    assert_eq!(outcome.attempts, 2);
    assert_eq!(outcome.refreshes, 1);
}

#[test]
fn unauthorized_twice_is_terminal() {
    let transcript = vec![resp(401, ""), resp(401, "")];
    let outcome = execute_transcript(&transcript);
    assert_eq!(outcome.result, Err(ApiError::AuthenticationFailed));
    assert_eq!(outcome.attempts, 2);
    assert_eq!(outcome.refreshes, 1);
}

#[test]
fn other_status_fails_without_retry() {
    let transcript = vec![resp(500, "boom")];
    let outcome = execute_transcript(&transcript);
    assert_eq!(outcome.result, Err(ApiError::RequestFailed(500)));
    assert_eq!(outcome.attempts, 1);
    assert_eq!(outcome.refreshes, 0);
}

#[test]
fn expired_key_on_user_info_recovers_after_one_refresh() {
    let transcript = vec![resp(401, ""), resp(200, "{\"userId\":\"user-77\"}")];
    let outcome = execute_transcript(&transcript);
    assert_eq!(outcome.refreshes, 1);
    let user = resolve_user_id(&transcript);
    assert_eq!(user, Ok(String::from("user-77")));
}

#[test]
fn user_info_without_field_is_malformed() {
    let transcript = vec![resp(200, "{\"other\":1}")];
    assert_eq!(resolve_user_id(&transcript), Err(ApiError::MalformedResponse));
}

#[test]
fn bootstrap_writes_only_the_user_id() {
    let mut creds = Credentials::new(String::from("api"), String::from("refresh"));
    let transcript = vec![resp(200, "{\"userId\":\"user-9\"}")];
    assert_eq!(bootstrap_user_id(&mut creds, &transcript), Ok(()));
    assert_eq!(creds.user_id, "user-9");
    assert_eq!(creds.api_key, "api");
    assert_eq!(creds.refresh_token, "refresh");
    assert_eq!(creds.access_key, "");
}

#[test]
fn token_exchange_reads_the_access_token() {
    let r = interpret_token_response(200, "{\"access_token\":\"key-1\"}");
    assert_eq!(r, Ok(String::from("key-1")));
}

#[test]
fn token_exchange_maps_each_failure() {
    assert_eq!(interpret_token_response(400, ""), Err(ApiError::AuthExchangeFailed));
    assert_eq!(interpret_token_response(503, ""), Err(ApiError::RequestFailed(503)));
    assert_eq!(interpret_token_response(200, "{}"), Err(ApiError::MalformedResponse));
}

#[test]
fn refresh_replaces_only_the_access_key() {
    let mut creds = Credentials::new(String::from("api"), String::from("refresh"));
    let r = refresh_access_key(&mut creds, 200, "{\"access_token\":\"key-2\"}");
    assert_eq!(r, Ok(()));
    assert_eq!(creds.access_key, "key-2");
    assert_eq!(creds.api_key, "api");
    assert_eq!(creds.refresh_token, "refresh");
    assert_eq!(creds.user_id, "");
    let bad = refresh_access_key(&mut creds, 400, "");
    assert_eq!(bad, Err(ApiError::AuthExchangeFailed));
    assert_eq!(creds.access_key, "key-2");
}

#[test]
fn signed_url_is_read_from_the_url_field() {
    let transcript = vec![resp(200, "{\"url\":\"https://signed.example/x\"}")];
    assert_eq!(resolve_signed_url(&transcript), Ok(String::from("https://signed.example/x")));
}

#[test]
fn content_document_is_read_with_defaults() {
    let body = "{\"number\":\"1.2\",\"title\":\"Cells\",\"contents\":{\"id\":\"c-9\",\
                 \"contentType\":\"hardestQuestions\",\"contentModules\":[\
                 {\"id\":\"m0\",\"moduleType\":\"video\"},\
                 {\"id\":\"m1\",\"moduleType\":\"toggles\"}]}}";
    let transcript = vec![resp(200, body)];
    let info = fetch_content(&transcript).unwrap();
    assert_eq!(info.number, "1.2");
    assert_eq!(info.title, "Cells");
    assert_eq!(info.content_id, "c-9");
    assert!(info.hardest_questions);
    assert_eq!(info.modules.len(), 2);
    assert_eq!(info.modules[0].id, "m0");
    assert_eq!(info.modules[0].module_type, "video");

    let bare = "{\"contents\":{\"id\":\"c-1\",\"contentModules\":[]}}";
    let info = interpret_content(bare).unwrap();
    assert_eq!(info.number, "");
    assert_eq!(info.title, "");
    assert!(!info.hardest_questions);
    assert!(info.modules.is_empty());
}

#[test]
fn content_without_id_is_malformed() {
    let body = "{\"contents\":{\"contentModules\":[]}}";
    assert!(matches!(interpret_content(body), Err(ApiError::MalformedResponse)));
}

#[test]
fn assignments_listing_is_counted() {
    let ok = interpret_assignments("{\"items\":[{\"a\":1},{\"a\":2},{\"a\":3}]}").unwrap();
    assert_eq!(ok.len(), 3);
    assert!(matches!(interpret_assignments("{}"), Err(ApiError::MalformedResponse)));
    let transcript = vec![resp(401, ""), resp(200, "{\"items\":[]}")];
    assert_eq!(fetch_assignments(&transcript).unwrap().len(), 0);
}

#[test]
fn submission_reports_only_success_or_failure() {
    let transcript = vec![resp(200, "ignored")];
    assert_eq!(submit_session_outcome(&transcript), Ok(()));
    let transcript = vec![resp(401, ""), resp(403, "")];
    assert_eq!(submit_session_outcome(&transcript), Err(ApiError::RequestFailed(403)));
}

#[test]
fn urls_are_assembled_exactly() {
    assert_eq!(token_url("KEY"), "https://securetoken.googleapis.com/v1/token?key=KEY");
    assert_eq!(user_info_url(), "https://user-info.app.senecalearning.com/api/user-info/me");
    assert_eq!(
        signed_url_endpoint("c1", "s1"),
        "https://course.app.senecalearning.com/api/courses/c1/signed-url?sectionId=s1\
         &contentTypes=standard,hardestQuestions"
    );
    assert_eq!(stats_url(), "https://stats.app.senecalearning.com/api/stats/sessions");
}

#[test]
fn assignments_url_encodes_the_cutoff_date() {
    let now: i64 = 30 * 86400 + 20;
    assert_eq!(
        assignments_url(now),
        "https://assignments.app.senecalearning.com/api/students/me/assignments?limit=500\
         &date=1970-01-01T00%3A00%3A20%2B00%3A00&archived=false"
    );
}

#[test]
fn form_urlencoding_matches_the_serializer() {
    assert_eq!(urlencode_ascii("a b:+*-._"), "a+b%3A%2B*-._");
    assert_eq!(urlencode_ascii(""), "");
    let date = "2024-01-01T00:00:00+00:00";
    let expect: String = url::form_urlencoded::byte_serialize(date.as_bytes()).collect();
    assert_eq!(urlencode_ascii(date), expect);
}

#[test]
fn json_escaping_is_exact() {
    assert_eq!(escape_json_string("plain"), "plain");
    assert_eq!(escape_json_string("he\"llo\\"), "he\\\"llo\\\\");
    assert_eq!(escape_json_string("a\nb\u{1f}"), "a\\u000ab\\u001f");
    let body = token_request_body("tok\"en");
    assert_eq!(body, "{\"grant_type\":\"refresh_token\",\"refresh_token\":\"tok\\\"en\"}");
    let parsed: serde_json::Value = serde_json::from_str(&body).unwrap();
    assert_eq!(parsed["refresh_token"], "tok\"en");
    assert_eq!(parsed["grant_type"], "refresh_token");
}

#[test]
fn header_profile_carries_the_key_only_when_required() {
    let with_key = standard_headers("stats.app.senecalearning.com", Some("KEY"));
    assert_eq!(with_key.len(), 18);
    assert_eq!(with_key[0].0, "Host");
    assert_eq!(with_key[0].1, "stats.app.senecalearning.com");
    assert_eq!(with_key[6].0, "access-key");
    assert_eq!(with_key[6].1, "KEY");
    assert_eq!(with_key[17].0, "host");
    let without = standard_headers("course.app.senecalearning.com", None);
    assert_eq!(without.len(), 17);
    assert!(without.iter().all(|(name, _)| name != "access-key"));
    let mut dated = standard_headers("assignments.app.senecalearning.com", Some("K"));
    push_amz_date(&mut dated);
    assert_eq!(dated[18].0, "X-Amz-Date");
    assert_eq!(dated[18].1, "20250122T190413Z");
}
