use vstd::prelude::*;
use vstd::string::StringExecFns;
use crate::timefmt::{rfc3339_secs_of, rfc3339_utc_secs};
use crate::urlenc::{form_urlencoded, urlencode_ascii};

verus! {

/// The token-exchange endpoint, keyed by the caller's API key.
pub fn token_url(api_key: &str) -> (r: String)
    ensures
        r@ == "https://securetoken.googleapis.com/v1/token?key="@ + api_key@,
{
    let mut s = String::from_str("https://securetoken.googleapis.com/v1/token?key=");
    s.append(api_key);
    s
}

/// The user-info endpoint.
pub fn user_info_url() -> (r: &'static str)
    ensures
        r@ == "https://user-info.app.senecalearning.com/api/user-info/me"@,
{
    "https://user-info.app.senecalearning.com/api/user-info/me"
}

/// The signed-content-URL endpoint for one section of one course.
pub fn signed_url_endpoint(course_id: &str, section_id: &str) -> (r: String)
    ensures
        r@ == "https://course.app.senecalearning.com/api/courses/"@ + course_id@
            + "/signed-url?sectionId="@ + section_id@
            + "&contentTypes=standard,hardestQuestions"@,
{
    let mut s = String::from_str("https://course.app.senecalearning.com/api/courses/");
    s.append(course_id);
    s.append("/signed-url?sectionId=");
    s.append(section_id);
    s.append("&contentTypes=standard,hardestQuestions");
    s
}

/// The session-submission endpoint.
pub fn stats_url() -> (r: &'static str)
    ensures
        r@ == "https://stats.app.senecalearning.com/api/stats/sessions"@,
{
    "https://stats.app.senecalearning.com/api/stats/sessions"
}

/// The assignments listing, filtered to the thirty days before `now`:
/// the date bound is rendered in RFC 3339 form and form-urlencoded
/// into the query string.
pub fn assignments_url(now: i64) -> (r: String)
    requires
        30 * 86400 <= now <= 4102444800,
    ensures
        r@ == "https://assignments.app.senecalearning.com/api/students/me/assignments?limit=500&date="@
            + form_urlencoded(rfc3339_secs_of((now - 30 * 86400) as i64)) + "&archived=false"@,
{
    let cutoff: i64 = now - 30 * 86400;
    let date = match rfc3339_utc_secs(cutoff) {
        Some(s) => s,
        None => {
            proof {
                assert(false);
            }
            String::new()
        },
    };
    let encoded = urlencode_ascii(date.as_str());
    let mut s = String::from_str(
        "https://assignments.app.senecalearning.com/api/students/me/assignments?limit=500&date=",
    );
    s.append(encoded.as_str());
    s.append("&archived=false");
    s
}

} // verus!
