//! The data source: what is asked of a repository-hosting API, and the
//! filter that picks repositories by keyword.

use vstd::prelude::*;

use crate::failure::{Failure, FailureModel};
use crate::json::{json_model, Json};
use crate::text::{contains, lowercase, occurs_in, to_lowercase};

verus! {

/// What is known of a repository.
#[derive(Debug, Clone, PartialEq, Eq)]
pub struct RepoMetadata {
    pub id: i64,
    /// The login of the account that owns the repository.
    pub owner: String,
    pub name: String,
    /// The address of the repository's page.
    pub html_url: String,
    pub description: Option<String>,
    pub stargazers_count: i32,
    pub forks_count: i32,
    /// When the repository was created, as ISO 8601 text.
    pub created_at: String,
    /// When the repository was changed last, as ISO 8601 text.
    pub updated_at: String,
    /// When the repository was pushed to last, as ISO 8601 text.
    pub pushed_at: String,
    pub language: Option<String>,
    /// The licence's SPDX identifier.
    pub license: Option<String>,
    pub topics: Vec<String>,
    /// The trust score, a 64-bit IEEE 754 number, as its bits.
    pub trust_score_bits: u64,
}

/// One question to a data source.
pub enum Request {
    /// The repositories of an organization.
    OrgRepos { org: Seq<char> },
    /// The profile of a user.
    UserInfo { user: Seq<char> },
    /// One repository.
    RepoInfo { owner: Seq<char>, repo: Seq<char> },
    /// The repositories that match a search.
    SearchRepositories { query: Seq<char> },
    /// The repositories that a user has starred.
    StarredRepos { user: Seq<char> },
    /// The repositories that a user has forked.
    UserForkedRepos { user: Seq<char> },
    /// The text of one file of a repository.
    RepoContent { owner: Seq<char>, repo: Seq<char>, path: Seq<char> },
}

/// One answer of a data source, as a mathematical value.
pub enum Reply {
    /// A structured answer.
    Document(Json),
    /// The text of a file.
    Text(Seq<char>),
    /// The source failed.
    Failed(FailureModel),
}

/// The answer that a structured result stands for.
pub open spec fn document_reply(result: Result<serde_json::Value, Failure>) -> Reply {
    match result {
        Ok(value) => Reply::Document(json_model(value)),
        Err(failure) => Reply::Failed(failure@),
    }
}

/// The answer that a text result stands for.
pub open spec fn text_reply(result: Result<String, Failure>) -> Reply {
    match result {
        Ok(text) => Reply::Text(text@),
        Err(failure) => Reply::Failed(failure@),
    }
}

/// A source of data on repositories and users: the live API, a cache in
/// front of it, or a stand-in for tests.
///
/// A structured answer is handed out as the JSON document that the API gives;
/// the text of a file as a string. A source that fails says so with a failure,
/// which a cache in front of it hands on as it is.
pub trait GitHubClient {
    /// Whether the source, as it stands, may give `reply` to `request` and
    /// then stand as `after`. As it stands here it promises nothing; a source
    /// that knows more says so by giving it a body of its own.
    open spec fn answers(&self, request: Request, reply: Reply, after: &Self) -> bool {
        true
    }

    /// The repositories of an organization.
    fn list_org_repos(&mut self, org: &str) -> (r: Result<serde_json::Value, Failure>)
        ensures
            old(self).answers(Request::OrgRepos { org: org@ }, document_reply(r), final(self)),
    ;

    /// The profile of a user.
    fn get_user_info(&mut self, user: &str) -> (r: Result<serde_json::Value, Failure>)
        ensures
            old(self).answers(Request::UserInfo { user: user@ }, document_reply(r), final(self)),
    ;

    /// One repository.
    fn get_repo_info(&mut self, owner: &str, repo: &str) -> (r: Result<
        serde_json::Value,
        Failure,
    >)
        ensures
            old(self).answers(
                Request::RepoInfo { owner: owner@, repo: repo@ },
                document_reply(r),
                final(self),
            ),
    ;

    /// The repositories that match a search.
    fn search_repositories(&mut self, query: &str) -> (r: Result<serde_json::Value, Failure>)
        ensures
            old(self).answers(
                Request::SearchRepositories { query: query@ },
                document_reply(r),
                final(self),
            ),
    ;

    /// The repositories that a user has starred.
    fn list_starred_repos(&mut self, user: &str) -> (r: Result<serde_json::Value, Failure>)
        ensures
            old(self).answers(Request::StarredRepos { user: user@ }, document_reply(r), final(self)),
    ;

    /// The repositories that a user has forked.
    fn list_user_forked_repos(&mut self, user: &str) -> (r: Result<serde_json::Value, Failure>)
        ensures
            old(self).answers(
                Request::UserForkedRepos { user: user@ },
                document_reply(r),
                final(self),
            ),
    ;

    /// The text of one file of a repository.
    fn get_repo_content(&mut self, owner: &str, repo: &str, path: &str) -> (r: Result<
        String,
        Failure,
    >)
        ensures
            old(self).answers(
                Request::RepoContent { owner: owner@, repo: repo@, path: path@ },
                text_reply(r),
                final(self),
            ),
    ;
}

/// The views of a list of string slices.
pub open spec fn slice_texts(list: Seq<&str>) -> Seq<Seq<char>> {
    Seq::new(list.len(), |i: int| list[i]@)
}

/// Whether one of the keywords occurs in the text.
pub open spec fn any_occurs(hay: Seq<char>, keywords: Seq<Seq<char>>) -> bool {
    exists|i: int| 0 <= i < keywords.len() && occurs_in(hay, #[trigger] keywords[i])
}

/// Whether one of the keywords occurs in one of the texts.
pub open spec fn any_occurs_in_any(hays: Seq<String>, keywords: Seq<Seq<char>>) -> bool {
    exists|i: int| 0 <= i < hays.len() && any_occurs(#[trigger] hays[i]@, keywords)
}

/// Whether a repository passes the filter: a keyword occurs in its name, in
/// its description, in one of its topics, or in its language put into lower
/// case.
pub open spec fn repo_matches(repo: RepoMetadata, keywords: Seq<Seq<char>>) -> bool {
    ||| any_occurs(repo.name@, keywords)
    ||| (repo.description matches Some(description) && any_occurs(description@, keywords))
    ||| any_occurs_in_any(repo.topics@, keywords)
    ||| (repo.language matches Some(language) && any_occurs(lowercase(language@), keywords))
}

/// The repositories that a filter lets through, in their order: all of them
/// where there is no keyword.
pub open spec fn filtered(repos: Seq<RepoMetadata>, keywords: Seq<Seq<char>>) -> Seq<RepoMetadata> {
    if keywords.len() == 0 {
        repos
    } else {
        repos.filter(|repo: RepoMetadata| repo_matches(repo, keywords))
    }
}

/// Whether one of the keywords occurs in the text.
fn matches_any(hay: &str, filters: &[&str]) -> (found: bool)
    ensures
        found == any_occurs(hay@, slice_texts(filters@)),
{
    let ghost keywords = slice_texts(filters@);
    let mut i: usize = 0;
    while i < filters.len()
        invariant
            i <= filters.len(),
            keywords == slice_texts(filters@),
            forall|k: int| 0 <= k < i ==> !occurs_in(hay@, #[trigger] keywords[k]),
        decreases filters.len() - i,
    {
        if contains(hay, filters[i]) {
            assert(occurs_in(hay@, keywords[i as int]));
            return true;
        }
        i = i + 1;
    }
    false
}

/// Whether one of the keywords occurs in one of the texts.
fn any_matches_any(hays: &Vec<String>, filters: &[&str]) -> (found: bool)
    ensures
        found == any_occurs_in_any(hays@, slice_texts(filters@)),
{
    let mut i: usize = 0;
    while i < hays.len()
        invariant
            i <= hays.len(),
            forall|k: int| 0 <= k < i ==> !any_occurs(#[trigger] hays@[k]@, slice_texts(filters@)),
        decreases hays.len() - i,
    {
        if matches_any(hays[i].as_str(), filters) {
            return true;
        }
        i = i + 1;
    }
    false
}

/// Whether a repository passes the filter.
fn passes(repo: &RepoMetadata, filters: &[&str]) -> (found: bool)
    ensures
        found == repo_matches(*repo, slice_texts(filters@)),
{
    if matches_any(repo.name.as_str(), filters) {
        return true;
    }
    let in_description = match &repo.description {
        Some(description) => matches_any(description.as_str(), filters),
        None => false,
    };
    if in_description {
        return true;
    }
    if any_matches_any(&repo.topics, filters) {
        return true;
    }
    match &repo.language {
        Some(language) => {
            let lower = to_lowercase(language.as_str());
            matches_any(lower.as_str(), filters)
        },
        None => false,
    }
}

/// Keeps the repositories in which a keyword occurs, in their order; with no
/// keyword it keeps them all.
pub fn filter_repos(repos: Vec<RepoMetadata>, filters: &[&str]) -> (kept: Vec<RepoMetadata>)
    ensures
        kept@ == filtered(repos@, slice_texts(filters@)),
{
    if filters.len() == 0 {
        return repos;
    }
    let ghost keywords = slice_texts(filters@);
    let ghost passing = |repo: RepoMetadata| repo_matches(repo, keywords);
    let ghost all = repos@;
    let mut kept: Vec<RepoMetadata> = Vec::new();
    for repo in it: repos
        invariant
            keywords == slice_texts(filters@),
            passing == |repo: RepoMetadata| repo_matches(repo, keywords),
            it.seq() == all,
            kept@ == all.take(it.index()).filter(passing),
    {
        proof {
            assert(all.take(it.index() + 1) =~= all.take(it.index()).push(repo));
            all.take(it.index()).lemma_filter_push(repo, passing);
        }
        if passes(&repo, filters) {
            kept.push(repo);
        }
    }
    assert(all.take(all.len() as int) =~= all);
    kept
}

} // verus!
