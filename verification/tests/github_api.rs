use mytool::failure::FailureKind;
use mytool::github_api::{
    address, authorization, read_address, contents_url, forked_repos_query, org_repos_url, repo_url,
    search_url, starred_url, user_url, ACCEPT_JSON, ACCEPT_RAW, USER_AGENT,
};

#[test]
fn addresses_of_the_questions() {
    assert_eq!(org_repos_url("rust-lang").unwrap(), "https://api.github.com/orgs/rust-lang/repos");
    assert_eq!(user_url("octocat").unwrap(), "https://api.github.com/users/octocat");
    assert_eq!(repo_url("rust-lang", "rust").unwrap(), "https://api.github.com/repos/rust-lang/rust");
    assert_eq!(
        search_url("rust+mcp").unwrap(),
        "https://api.github.com/search/repositories?q=rust+mcp"
    );
    assert_eq!(starred_url("octocat").unwrap(), "https://api.github.com/users/octocat/starred");
    assert_eq!(
        contents_url("rust-lang", "rust", "src/lib.rs").unwrap(),
        "https://api.github.com/repos/rust-lang/rust/contents/src/lib.rs"
    );
}

#[test]
fn addresses_are_written_as_the_url_crate_writes_them() {
    assert_eq!(
        search_url("user:octocat fork:true").unwrap(),
        "https://api.github.com/search/repositories?q=user:octocat%20fork:true"
    );
    assert_eq!(address("HTTPS://API.GitHub.com").unwrap(), "https://api.github.com/");
}

#[test]
fn a_text_that_is_no_address_is_an_upstream_failure() {
    let failure = address("not an address").unwrap_err();
    assert_eq!(failure.kind, FailureKind::Upstream);
    assert_eq!(failure.message, "relative URL without a base");
}

#[test]
fn headers_and_the_query_for_forks() {
    assert_eq!(authorization("SECRET"), "Bearer SECRET");
    assert_eq!(forked_repos_query("octocat"), "user:octocat fork:true");
    assert_eq!(ACCEPT_JSON, "application/vnd.github.v3+json");
    assert_eq!(ACCEPT_RAW, "application/vnd.github.raw");
    assert_eq!(USER_AGENT, "mytool-github-client");
}

#[test]
fn read_address_hands_addresses_on_and_reports_errors() {
    assert_eq!(read_address(Ok("https://a.example/".to_string())), Ok("https://a.example/".to_string()));
    let error = url::Url::parse("https://").unwrap_err();
    let failure = read_address(Err(error)).unwrap_err();
    assert_eq!(failure.kind, FailureKind::Upstream);
    assert_eq!(failure.message, "empty host");
}
