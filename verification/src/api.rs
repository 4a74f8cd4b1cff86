//! The pure parts of the here.now HTTP client: credentials, request paths
//! and the messages of failed requests.
use vstd::prelude::*;
use crate::messages::{join2, join3, number_then};
use crate::model::text_of;
use crate::text::{decimal, strip_trailing, trim, trimmed, without_trailing};
use vstd::utf8::encode_utf8;

verus! {

/// The API origin and key that every request uses.
#[derive(Clone, Debug)]
pub struct Credentials {
    pub base_url: String,
    pub api_key: String,
}

/// Where the API key is read from.
#[derive(Clone, Copy, Debug, PartialEq, Eq, Structural)]
pub enum KeySource {
    /// The `HERENOW_API_KEY` environment variable.
    Environment,
    /// The file passed with `--credentials`.
    GivenFile,
    /// `~/.herenow/credentials`.
    HomeFile,
    /// Nowhere: no variable, no file passed and no home directory.
    Missing,
}

/// Where the key comes from: `HERENOW_API_KEY` when it is set, else the
/// file passed with `--credentials`, which overrides the file in the home
/// directory, else that file when there is a home directory.
pub fn key_source(variable_set: bool, file_given: bool, home_known: bool) -> (r: KeySource)
    ensures
        r == (if variable_set {
            KeySource::Environment
        } else if file_given {
            KeySource::GivenFile
        } else if home_known {
            KeySource::HomeFile
        } else {
            KeySource::Missing
        }),
{
    if variable_set {
        KeySource::Environment
    } else if file_given {
        KeySource::GivenFile
    } else if home_known {
        KeySource::HomeFile
    } else {
        KeySource::Missing
    }
}

/// Why credentials were refused.
#[derive(Clone, Copy, Debug, PartialEq, Eq, Structural)]
pub enum CredentialError {
    /// The key is empty once whitespace is trimmed.
    EmptyKey,
}

impl CredentialError {
    /// The message shown for the error.
    pub fn message(&self) -> (r: &'static str)
        ensures
            r@ == "here.now API key is empty"@,
    {
        "here.now API key is empty"
    }
}

/// The credentials made of a raw key and an API origin: the key trimmed of
/// whitespace, which must not be empty, and the origin without trailing `/`.
pub fn normalize_credentials(raw_key: &str, base_url: &str) -> (r: Result<Credentials, CredentialError>)
    ensures
        trim(raw_key@).len() == 0 <==> r is Err,
        r matches Ok(c) ==> c.api_key@ == trim(raw_key@) && c.base_url@ == strip_trailing(base_url@, '/'),
{
    let api_key = trimmed(raw_key);
    if api_key.unicode_len() == 0 {
        return Err(CredentialError::EmptyKey);
    }
    Ok(Credentials { base_url: without_trailing(base_url, '/'), api_key })
}

/// The URL of `path` under the API origin.
pub fn endpoint(credentials: &Credentials, path: &str) -> (r: String)
    ensures
        r@ == credentials.base_url@ + path@,
{
    join2(credentials.base_url.as_str(), path)
}

/// The path that lists the sites.
pub fn sites_path() -> (r: &'static str)
    ensures
        r@ == "/api/v1/publishes"@,
{
    "/api/v1/publishes"
}

/// The path of one site; also the path that deletes it.
pub fn site_path(slug: &str) -> (r: String)
    ensures
        r@ == "/api/v1/publish/"@ + slug@,
{
    join2("/api/v1/publish/", slug)
}

/// The path that renames a site.
pub fn metadata_path(slug: &str) -> (r: String)
    ensures
        r@ == "/api/v1/publish/"@ + slug@ + "/metadata"@,
{
    join3("/api/v1/publish/", slug, "/metadata")
}

/// The path that duplicates a site.
pub fn duplicate_path(slug: &str) -> (r: String)
    ensures
        r@ == "/api/v1/publish/"@ + slug@ + "/duplicate"@,
{
    join3("/api/v1/publish/", slug, "/duplicate")
}

/// The path of a site's analytics over `range`.
pub fn analytics_path(slug: &str, range: &str) -> (r: String)
    ensures
        r@ == "/api/v1/publishes/"@ + slug@ + "/analytics?range="@ + range@,
{
    let mut r = join3("/api/v1/publishes/", slug, "/analytics?range=");
    r.append(range);
    r
}

/// The path that lists the Drives.
pub fn drives_path() -> (r: &'static str)
    ensures
        r@ == "/api/v1/drives"@,
{
    "/api/v1/drives"
}

/// The path that lists the files of a Drive.
pub fn drive_files_path(drive_id: &str) -> (r: String)
    ensures
        r@ == "/api/v1/drives/"@ + drive_id@ + "/files?prefix="@,
{
    join3("/api/v1/drives/", drive_id, "/files?prefix=")
}

/// The path of the profile.
pub fn profile_path() -> (r: &'static str)
    ensures
        r@ == "/api/v1/profile"@,
{
    "/api/v1/profile"
}

/// Whether percent-encoding keeps a byte as it is: an ASCII letter or
/// digit, or one of `-`, `.`, `_`, `~`.
pub open spec fn kept_byte(b: u8) -> bool {
    ||| 0x30 <= b <= 0x39  // 0-9
    ||| 0x41 <= b <= 0x5A  // A-Z
    ||| 0x61 <= b <= 0x7A  // a-z
    ||| b == 0x2D || b == 0x2E || b == 0x5F || b == 0x7E  // - . _ ~
}

/// The upper-case hexadecimal digit of a value under 16.
pub open spec fn hex_digit(d: int) -> char {
    if d < 10 {
        (0x30 + d) as char
    } else {
        (0x41 + d - 10) as char
    }
}

/// Percent-encoding of bytes: a kept byte stands for itself, every other
/// byte becomes `%` and its two upper-case hexadecimal digits.
pub open spec fn percent_encoded(bytes: Seq<u8>) -> Seq<char>
    decreases bytes.len(),
{
    if bytes.len() == 0 {
        Seq::empty()
    } else {
        let b = bytes[0];
        let head = if kept_byte(b) {
            seq![b as char]
        } else {
            seq!['%', hex_digit((b / 16) as int), hex_digit((b % 16) as int)]
        };
        head + percent_encoded(bytes.drop_first())
    }
}

/// Percent-encodes a text with `urlencoding::encode`, which escapes every
/// byte of the text's UTF-8 encoding but ASCII letters, digits and `-._~`.
#[verifier::external_body]
fn url_encode(text: &str) -> (r: String)
    ensures
        r@ == percent_encoded(encode_utf8(text@)),
{
    urlencoding::encode(text).into_owned()
}

/// The search path for an already encoded query, with at most 100 hits.
pub fn search_path_for(encoded: &str) -> (r: String)
    ensures
        r@ == "/api/v1/publishes/search?q="@ + encoded@ + "&limit=100"@,
{
    join3("/api/v1/publishes/search?q=", encoded, "&limit=100")
}

/// The path that searches the sites' content for `query`.
pub fn search_path(query: &str) -> (r: String)
    ensures
        r@ == "/api/v1/publishes/search?q="@ + percent_encoded(encode_utf8(query@)) + "&limit=100"@,
{
    let encoded = url_encode(query);
    search_path_for(encoded.as_str())
}

/// Whether an HTTP status is a success (200 to 299).
pub fn is_success(status: u16) -> (r: bool)
    ensures
        r == (200 <= status && status <= 299),
{
    200 <= status && status <= 299
}

/// The reason phrase that the `http` crate gives to a status code.
pub uninterp spec fn reason_phrase(code: u16) -> Option<Seq<char>>;

/// The canonical reason phrase of a status code
/// (`reqwest::StatusCode::from_u16` then `canonical_reason`). Claims that the
/// result is named `reason_phrase` and that codes outside 100 to 999, which
/// `from_u16` refuses, have none.
#[verifier::external_body]
fn canonical_reason(code: u16) -> (r: Option<String>)
    ensures
        text_of(r) == reason_phrase(code),
        code < 100 || code > 999 ==> r is None,
{
    match reqwest::StatusCode::from_u16(code) {
        Ok(status) => match status.canonical_reason() {
            Some(reason) => Some(reason.to_string()),
            None => None,
        },
        Err(_) => None,
    }
}

/// What a JSON body holds under `key`: `None` when the body is not JSON or
/// has no such member, `Some(None)` when the member is not a string, else
/// the string.
pub uninterp spec fn json_member_text(body: Seq<char>, key: Seq<char>) -> Option<Option<Seq<char>>>;

/// Reads the member `key` of a JSON body (`serde_json::from_str` into a
/// `Value`, then `Value::get` and `Value::as_str`). The result is named
/// `json_member_text`; JSON's grammar is not stated here.
#[verifier::external_body]
fn json_member(body: &str, key: &str) -> (r: Option<Option<String>>)
    ensures
        r is None <==> json_member_text(body@, key@) is None,
        r matches Some(m) ==> json_member_text(body@, key@) == Some(text_of(m)),
{
    match serde_json::from_str::<serde_json::Value>(body) {
        Ok(json) => match json.get(key) {
            Some(member) => match member.as_str() {
                Some(text) => Some(Some(text.to_string())),
                None => Some(None),
            },
            None => None,
        },
        Err(_) => None,
    }
}

/// The status as `http` prints it: the code and its reason phrase.
pub open spec fn status_line(code: u16, reason: Option<Seq<char>>) -> Seq<char> {
    decimal(code as nat) + " "@ + match reason {
        Some(r) => r,
        None => "<unknown status code>"@,
    }
}

/// The message of a failed request: a fixed hint for 401, otherwise the
/// status and the body's message, or the reason phrase, or "request failed".
pub open spec fn failure_message(code: u16, reason: Option<Seq<char>>, body_message: Option<Seq<char>>) -> Seq<char> {
    if code == 401 {
        "authentication failed; check ~/.herenow/credentials"@
    } else {
        "here.now returned "@ + status_line(code, reason) + ": "@ + match body_message {
            Some(m) => m,
            None => match reason {
                Some(r) => r,
                None => "request failed"@,
            },
        }
    }
}

/// The message of a JSON error body: its `message` member if there is one,
/// else its `error` member; a member that is not a string gives none.
pub open spec fn body_message(body: Seq<char>) -> Option<Seq<char>> {
    match json_member_text(body, "message"@) {
        Some(m) => m,
        None => match json_member_text(body, "error"@) {
            Some(m) => m,
            None => None,
        },
    }
}

/// The message of a failed request, from its status, reason phrase and the
/// message found in its body.
pub fn failure_text(code: u16, reason: Option<&str>, body_message: Option<&str>) -> (r: String)
    ensures
        r@ == failure_message(
            code,
            match reason { Some(s) => Some(s@), None => None },
            match body_message { Some(s) => Some(s@), None => None },
        ),
{
    if code == 401 {
        return String::from_str("authentication failed; check ~/.herenow/credentials");
    }
    let mut r = number_then(code as u64, " ");
    match reason {
        Some(s) => r.append(s),
        None => r.append("<unknown status code>"),
    }
    r.append(": ");
    match body_message {
        Some(m) => r.append(m),
        None => match reason {
            Some(s) => r.append(s),
            None => r.append("request failed"),
        },
    }
    let mut full = String::from_str("here.now returned ");
    full.append(r.as_str());
    full
}

/// The message of a failed request with status `code` and body `body`.
pub fn response_error_message(code: u16, body: &str) -> (r: String)
    ensures
        r@ == failure_message(code, reason_phrase(code), body_message(body@)),
{
    let reason = canonical_reason(code);
    let found = match json_member(body, "message") {
        Some(m) => m,
        None => match json_member(body, "error") {
            Some(m) => m,
            None => None,
        },
    };
    let reason_text = match &reason {
        Some(s) => Some(s.as_str()),
        None => None,
    };
    let found_text = match &found {
        Some(s) => Some(s.as_str()),
        None => None,
    };
    failure_text(code, reason_text, found_text)
}

} // verus!
