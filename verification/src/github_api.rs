//! What the live data source asks of the repository-hosting API: the
//! address of each question and the headers that go with it.
//!
//! Sending the request is the program's; which request is sent is decided
//! here.

use vstd::prelude::*;

use crate::failure::{fails_with, Failure, FailureKind};
use crate::text::{join2, join3};

verus! {

/// `url::ParseError`, held as it is. What is known of an error is its
/// message, [`url_error_message`].
#[verifier::external_type_specification]
#[verifier::external_body]
pub struct ExParseError(url::ParseError);

/// The address that `url` makes of a text: the text as `Url::parse` reads and
/// writes it, and nothing where it reads no absolute address.
pub uninterp spec fn parsed_url(text: Seq<char>) -> Option<Seq<char>>;

/// `Url::parse`, written back as a string: the address that the text holds,
/// or why it holds none.
#[verifier::external_body]
pub(crate) fn parse_url(text: &str) -> (r: Result<String, url::ParseError>)
    ensures
        r is Ok <==> parsed_url(text@) is Some,
        r matches Ok(address) ==> parsed_url(text@) == Some(address@),
{
    url::Url::parse(text).map(String::from)
}

/// The message that `url` shows for one of its errors.
pub uninterp spec fn url_error_message(error: url::ParseError) -> Seq<char>;

/// `ParseError::to_string`: the message of a `url` error.
#[verifier::external_body]
pub(crate) fn url_error_text(error: &url::ParseError) -> (message: String)
    ensures
        message@ == url_error_message(*error),
{
    error.to_string()
}

/// The value of the `Accept` header of a question with a structured answer.
pub const ACCEPT_JSON: &'static str = "application/vnd.github.v3+json";

/// The value of the `Accept` header of a question for a file's text.
pub const ACCEPT_RAW: &'static str = "application/vnd.github.raw";

/// The value of the `User-Agent` header.
pub const USER_AGENT: &'static str = "mytool-github-client";

/// Whether `r` is the address that the text holds, or an upstream failure
/// where it holds none.
pub open spec fn is_address_of(text: Seq<char>, r: Result<String, Failure>) -> bool {
    match parsed_url(text) {
        Some(address) => r matches Ok(found) && found@ == address,
        None => r matches Err(failure) && failure.kind == FailureKind::Upstream,
    }
}

/// What the reading of an address comes to: the address, or an upstream
/// failure that carries the message of `url`.
pub fn read_address(parsed: Result<String, url::ParseError>) -> (r: Result<String, Failure>)
    ensures
        match parsed {
            Ok(address) => r == Ok::<String, Failure>(address),
            Err(error) => fails_with(r, FailureKind::Upstream, url_error_message(error)),
        },
{
    match parsed {
        Ok(address) => Ok(address),
        Err(error) => Err(Failure { kind: FailureKind::Upstream, message: url_error_text(&error) }),
    }
}

/// The address that a text holds: see [`read_address`].
pub fn address(text: &str) -> (r: Result<String, Failure>)
    ensures
        is_address_of(text@, r),
{
    read_address(parse_url(text))
}

/// The value of the `Authorization` header: `Bearer <token>`.
pub fn authorization(github_token: &str) -> (value: String)
    ensures
        value@ == "Bearer "@ + github_token@,
{
    join2("Bearer ", github_token)
}

/// The address of an organization's repositories.
pub fn org_repos_url(org: &str) -> (r: Result<String, Failure>)
    ensures
        is_address_of("https://api.github.com/orgs/"@ + org@ + "/repos"@, r),
{
    address(join3("https://api.github.com/orgs/", org, "/repos").as_str())
}

/// The address of a user's profile.
pub fn user_url(user: &str) -> (r: Result<String, Failure>)
    ensures
        is_address_of("https://api.github.com/users/"@ + user@, r),
{
    address(join2("https://api.github.com/users/", user).as_str())
}

/// The address of a repository.
pub fn repo_url(owner: &str, repo: &str) -> (r: Result<String, Failure>)
    ensures
        is_address_of("https://api.github.com/repos/"@ + owner@ + "/"@ + repo@, r),
{
    let mut text = join3("https://api.github.com/repos/", owner, "/");
    text.append(repo);
    address(text.as_str())
}

/// The address of a search for repositories.
pub fn search_url(query: &str) -> (r: Result<String, Failure>)
    ensures
        is_address_of("https://api.github.com/search/repositories?q="@ + query@, r),
{
    address(join2("https://api.github.com/search/repositories?q=", query).as_str())
}

/// The address of the repositories that a user has starred.
pub fn starred_url(user: &str) -> (r: Result<String, Failure>)
    ensures
        is_address_of("https://api.github.com/users/"@ + user@ + "/starred"@, r),
{
    address(join3("https://api.github.com/users/", user, "/starred").as_str())
}

/// The search that finds the repositories that a user has forked:
/// `user:<user> fork:true`.
pub fn forked_repos_query(user: &str) -> (query: String)
    ensures
        query@ == "user:"@ + user@ + " fork:true"@,
{
    join3("user:", user, " fork:true")
}

/// The address of a file of a repository.
pub fn contents_url(owner: &str, repo: &str, path: &str) -> (r: Result<String, Failure>)
    ensures
        is_address_of(
            "https://api.github.com/repos/"@ + owner@ + "/"@ + repo@ + "/contents/"@ + path@,
            r,
        ),
{
    let mut text = join3("https://api.github.com/repos/", owner, "/");
    text.append(repo);
    text.append("/contents/");
    text.append(path);
    address(text.as_str())
}

} // verus!
