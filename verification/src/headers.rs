use vstd::prelude::*;
use vstd::string::StringExecFns;

verus! {

/// The fixed browser-like profile pinned to the platform's web
/// client, in order; the bearer-style `access-key` entry stands after
/// the referer exactly when a key is supplied.
pub open spec fn standard_header_profile(
    host: Seq<char>,
    access_key: Option<Seq<char>>,
) -> Seq<(Seq<char>, Seq<char>)> {
    let lead = seq![
        ("Host"@, host),
        ("User-Agent"@, "Mozilla/5.0 (X11; Linux x86_64; rv:134.0) Gecko/20100101 Firefox/134.0"@),
        ("Accept"@, "*/*"@),
        ("Accept-Language"@, "en-GB,en;q=0.5"@),
        ("Accept-Encoding"@, "gzip, deflate, br, zstd"@),
        ("Referer"@, "https://app.senecalearning.com/"@),
    ];
    let tail = seq![
        ("Content-Type"@, "application/json"@),
        ("correlationId"@, "1737330516472::76115c42-02c9-4d56-0000-000000000000"@),
        ("user-region"@, "GB"@),
        ("Origin"@, "https://app.senecalearning.com"@),
        ("DNT"@, "1"@),
        ("Sec-GPC"@, "1"@),
        ("Sec-Fetch-Dest"@, "empty"@),
        ("Sec-Fetch-Mode"@, "cors"@),
        ("Sec-Fetch-Site"@, "same-site"@),
        ("Connection"@, "keep-alive"@),
        ("host"@, host),
    ];
    match access_key {
        Some(k) => lead + seq![("access-key"@, k)] + tail,
        None => lead + tail,
    }
}

/// Assembles the standard header set for a request to `host`,
/// carrying the access key exactly when the endpoint requires the
/// auth header.
#[verifier::rlimit(60)]
pub fn standard_headers(host: &str, access_key: Option<&str>) -> (r: Vec<(String, String)>)
    ensures
        r.deep_view() =~~= standard_header_profile(
            host@,
            match access_key {
                Some(k) => Some(k@),
                None => None,
            },
        ),
{
    let mut r: Vec<(String, String)> = Vec::new();
    r.push((String::from_str("Host"), host.to_owned()));
    r.push(
        (
            String::from_str("User-Agent"),
            String::from_str(
                "Mozilla/5.0 (X11; Linux x86_64; rv:134.0) Gecko/20100101 Firefox/134.0",
            ),
        ),
    );
    r.push((String::from_str("Accept"), String::from_str("*/*")));
    r.push((String::from_str("Accept-Language"), String::from_str("en-GB,en;q=0.5")));
    r.push((String::from_str("Accept-Encoding"), String::from_str("gzip, deflate, br, zstd")));
    r.push((String::from_str("Referer"), String::from_str("https://app.senecalearning.com/")));
    match access_key {
        Some(k) => {
            r.push((String::from_str("access-key"), k.to_owned()));
        },
        None => {},
    }
    r.push((String::from_str("Content-Type"), String::from_str("application/json")));
    r.push(
        (
            String::from_str("correlationId"),
            String::from_str("1737330516472::76115c42-02c9-4d56-0000-000000000000"),
        ),
    );
    r.push((String::from_str("user-region"), String::from_str("GB")));
    r.push((String::from_str("Origin"), String::from_str("https://app.senecalearning.com")));
    r.push((String::from_str("DNT"), String::from_str("1")));
    r.push((String::from_str("Sec-GPC"), String::from_str("1")));
    r.push((String::from_str("Sec-Fetch-Dest"), String::from_str("empty")));
    r.push((String::from_str("Sec-Fetch-Mode"), String::from_str("cors")));
    r.push((String::from_str("Sec-Fetch-Site"), String::from_str("same-site")));
    r.push((String::from_str("Connection"), String::from_str("keep-alive")));
    r.push((String::from_str("host"), host.to_owned()));
    r
}

/// Appends the extra dated header the assignments endpoint carries.
pub fn push_amz_date(headers: &mut Vec<(String, String)>)
    ensures
        final(headers).deep_view() =~~= old(headers).deep_view().push(
            ("X-Amz-Date"@, "20250122T190413Z"@),
        ),
{
    headers.push((String::from_str("X-Amz-Date"), String::from_str("20250122T190413Z")));
}

} // verus!
