//! Jira Cloud addresses and bounds on Jira Cloud responses.

use vstd::prelude::*;

use crate::error::CliError;
use crate::text::{literal, push_str};

verus! {

/// The largest Jira response body that is read, in bytes.
pub const MAX_RESPONSE_BYTES: usize = 65536;

/// The message of an oversized response.
pub open spec fn response_too_large_message() -> Seq<char> {
    "response exceeded the 65536-byte limit"@
}

/// How many more bytes a body of `length` bytes may take.
pub open spec fn room_left(length: nat) -> nat {
    if length >= MAX_RESPONSE_BYTES {
        0
    } else {
        (MAX_RESPONSE_BYTES - length) as nat
    }
}

/// The error for a response body that would exceed the limit.
pub fn response_too_large() -> (error: CliError)
    ensures
        error matches CliError::JiraResponse(message) && message@ == response_too_large_message(),
{
    CliError::JiraResponse(literal("response exceeded the 65536-byte limit"))
}

/// Appends `chunk` to `body` unless the body would then exceed the limit, in which case
/// `body` is left as it was.
pub fn append_bounded(body: &mut Vec<u8>, chunk: &[u8]) -> (result: Result<(), CliError>)
    ensures
        result is Ok <==> chunk@.len() <= room_left(old(body)@.len()),
        result is Ok ==> final(body)@ == old(body)@ + chunk@,
        result is Err ==> final(body)@ == old(body)@,
        result matches Err(error) ==> error matches CliError::JiraResponse(message) && message@
            == response_too_large_message(),
{
    let room = MAX_RESPONSE_BYTES.saturating_sub(body.len());
    if chunk.len() > room {
        return Err(response_too_large());
    }
    let ghost start = body@;
    let mut i: usize = 0;
    while i < chunk.len()
        invariant
            i <= chunk.len(),
            body@ == start + chunk@.subrange(0, i as int),
        decreases chunk.len() - i,
    {
        body.push(chunk[i]);
        i = i + 1;
        proof {
            assert(body@ =~= start + chunk@.subrange(0, i as int));
        }
    }
    proof {
        assert(chunk@.subrange(0, chunk@.len() as int) =~= chunk@);
    }
    Ok(())
}

/// A response body never grows past the limit: whatever `append_bounded` accepts keeps
/// the body within `MAX_RESPONSE_BYTES`.
pub proof fn lemma_bounded_body(before: Seq<u8>, chunk: Seq<u8>, after: Seq<u8>)
    requires
        before.len() <= MAX_RESPONSE_BYTES,
        chunk.len() <= room_left(before.len()) ==> after == before + chunk,
        chunk.len() > room_left(before.len()) ==> after == before,
    ensures
        after.len() <= MAX_RESPONSE_BYTES,
{
}

/// The error for a Jira response status: rejected credentials for 401 and 403, the
/// status itself for anything else outside 2xx, none for success.
pub fn status_error(status: u16) -> (error: Option<CliError>)
    ensures
        (status == 401 || status == 403) ==> error == Some(CliError::Authentication),
        !(status == 401 || status == 403) && !(200 <= status <= 299) ==> error == Some(
            CliError::JiraStatus(status),
        ),
        200 <= status <= 299 ==> error is None,
{
    if status == 401 || status == 403 {
        return Some(CliError::Authentication);
    }
    if status < 200 || status > 299 {
        return Some(CliError::JiraStatus(status));
    }
    None
}

/// The buffer to reserve for a body of the declared length, which may not exceed the
/// limit; without a declared length nothing is reserved.
pub fn declared_capacity(length: Option<u64>) -> (capacity: Result<usize, CliError>)
    ensures
        match length {
            Some(l) => if l > MAX_RESPONSE_BYTES {
                capacity matches Err(CliError::JiraResponse(message)) && message@
                    == response_too_large_message()
            } else {
                capacity == Ok::<usize, CliError>(l as usize)
            },
            None => capacity == Ok::<usize, CliError>(0),
        },
{
    match length {
        Some(l) => {
            if l > MAX_RESPONSE_BYTES as u64 {
                Err(response_too_large())
            } else {
                Ok(l as usize)
            }
        },
        None => Ok(0),
    }
}

/// The fields of a Jira issue that promotion reads, as the issue endpoint returns them.
#[derive(Clone, Debug)]
pub struct IssueResponse {
    /// The issue's REST address (`self`).
    pub api_url: String,
    pub summary: String,
    /// The name of the issue's status.
    pub status: String,
    /// The display name of the assignee, if any.
    pub assignee: Option<String>,
    /// The names of the fix versions.
    pub fix_versions: Vec<String>,
}

/// A Jira issue as promotion shows it.
#[derive(Clone, Debug)]
pub struct JiraIssueSummary {
    pub url: String,
    pub key: String,
    pub api_url: String,
    pub summary: String,
    pub status: String,
    pub assignee: Option<String>,
    pub fix_versions: Vec<String>,
}

/// The browser address of issue `key` on `site`.
pub open spec fn browse_url(site: Seq<char>, key: Seq<char>) -> Seq<char> {
    "https://"@ + site + "/browse/"@ + key
}

/// The summary of issue `key` on `site` from the issue endpoint's response.
pub fn issue_summary(site: &str, key: &str, issue: IssueResponse) -> (summary: JiraIssueSummary)
    ensures
        summary.url@ == browse_url(site@, key@),
        summary.key@ == key@,
        summary.api_url == issue.api_url,
        summary.summary == issue.summary,
        summary.status == issue.status,
        summary.assignee == issue.assignee,
        summary.fix_versions == issue.fix_versions,
{
    let mut url = literal("https://");
    push_str(&mut url, site);
    push_str(&mut url, "/browse/");
    push_str(&mut url, key);
    JiraIssueSummary {
        url,
        key: literal(key),
        api_url: issue.api_url,
        summary: issue.summary,
        status: issue.status,
        assignee: issue.assignee,
        fix_versions: issue.fix_versions,
    }
}


/// What `url::Url::parse` gives for a text: the serialized URL, or the text of the error.
pub uninterp spec fn url_parsed(text: Seq<char>) -> Result<Seq<char>, Seq<char>>;

/// What `url::Url::join` gives for the URL that `base` serializes and a reference `path`:
/// the serialized URL, or the text of the error.
pub uninterp spec fn url_joined(base: Seq<char>, path: Seq<char>) -> Result<Seq<char>, Seq<char>>;

/// `url::Url::parse`: the serialization of the parsed URL, or the error's text. The rules
/// of URL parsing are named, not restated.
#[verifier::external_body]
fn parse_url(text: &str) -> (result: Result<String, String>)
    ensures
        match url_parsed(text@) {
            Ok(serialized) => result matches Ok(u) && u@ == serialized,
            Err(message) => result matches Err(e) && e@ == message,
        },
{
    url::Url::parse(text).map(|url| url.to_string()).map_err(|error| error.to_string())
}

/// `url::Url::join` on the URL that `base` serializes: the serialization of `path`
/// resolved against it, or the error's text. The rules of URL resolution are named, not
/// restated.
#[verifier::external_body]
fn join_url(base: &str, path: &str) -> (result: Result<String, String>)
    ensures
        match url_joined(base@, path@) {
            Ok(serialized) => result matches Ok(u) && u@ == serialized,
            Err(message) => result matches Err(e) && e@ == message,
        },
{
    url::Url::parse(base).and_then(|url| url.join(path)).map(|url| url.to_string()).map_err(|error| error.to_string())
}

/// The address of the REST API of a Jira Cloud site.
pub open spec fn api_base_text(site: Seq<char>) -> Seq<char> {
    "https://"@ + site + "/rest/api/3/"@
}

/// The address of `path` under the REST API of `site`, or why it cannot be formed.
pub open spec fn api_url_result(site: Seq<char>, path: Seq<char>) -> Result<Seq<char>, Seq<char>> {
    match url_parsed(api_base_text(site)) {
        Err(message) => Err("invalid Jira site "@ + site + ": "@ + message),
        Ok(base) => match url_joined(base, path) {
            Ok(address) => Ok(address),
            Err(message) => Err("invalid Jira address: "@ + message),
        },
    }
}

/// The address of `path` under `https://<site>/rest/api/3/`, resolved as a URL reference.
pub fn api_url(site: &str, path: &str) -> (result: Result<String, CliError>)
    ensures
        match api_url_result(site@, path@) {
            Ok(address) => result matches Ok(u) && u@ == address,
            Err(message) => result matches Err(CliError::InvalidInput(m)) && m@ == message,
        },
{
    let mut base_text = literal("https://");
    push_str(&mut base_text, site);
    push_str(&mut base_text, "/rest/api/3/");
    match parse_url(&base_text) {
        Err(error) => {
            let mut message = literal("invalid Jira site ");
            push_str(&mut message, site);
            push_str(&mut message, ": ");
            push_str(&mut message, &error);
            Err(CliError::InvalidInput(message))
        },
        Ok(base) => match join_url(&base, path) {
            Ok(address) => Ok(address),
            Err(error) => {
                let mut message = literal("invalid Jira address: ");
                push_str(&mut message, &error);
                Err(CliError::InvalidInput(message))
            },
        },
    }
}

/// The issue fields that a promotion reads, as the `fields` query of an issue request.
pub const ISSUE_FIELDS: &'static str = "summary,status,assignee,fixVersions";

/// The API path of issue `key`.
pub open spec fn issue_path_text(key: Seq<char>) -> Seq<char> {
    "issue/"@ + key
}

/// `issue/<key>`, the API path of an issue.
pub fn issue_path(key: &str) -> (path: String)
    ensures
        path@ == issue_path_text(key@),
{
    let mut path = literal("issue/");
    push_str(&mut path, key);
    path
}

} // verus!
