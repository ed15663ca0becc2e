//! A data source that answers from tables in memory, for tests.

use vstd::prelude::*;

use crate::failure::{Failure, FailureKind, FailureModel};
use crate::github::{document_reply, GitHubClient, Reply, Request};
use crate::json::{json_model, member_text, text_member};
use crate::text::{join2, join3};

verus! {

/// What the last entry under a key holds, if there is an entry under it.
pub open spec fn found_by_one<V>(entries: Seq<(String, V)>, key: Seq<char>) -> Option<V>
    decreases entries.len(),
{
    if entries.len() == 0 {
        None
    } else if entries.last().0@ == key {
        Some(entries.last().1)
    } else {
        found_by_one(entries.drop_last(), key)
    }
}

/// What the last entry under a key of two parts holds, if there is one.
pub open spec fn found_by_two<V>(
    entries: Seq<((String, String), V)>,
    key: (Seq<char>, Seq<char>),
) -> Option<V>
    decreases entries.len(),
{
    if entries.len() == 0 {
        None
    } else if entries.last().0.0@ == key.0 && entries.last().0.1@ == key.1 {
        Some(entries.last().1)
    } else {
        found_by_two(entries.drop_last(), key)
    }
}

/// What the last entry under a key of three parts holds, if there is one.
pub open spec fn found_by_three<V>(
    entries: Seq<((String, String, String), V)>,
    key: (Seq<char>, Seq<char>, Seq<char>),
) -> Option<V>
    decreases entries.len(),
{
    if entries.len() == 0 {
        None
    } else if entries.last().0.0@ == key.0 && entries.last().0.1@ == key.1 && entries.last().0.2@
        == key.2 {
        Some(entries.last().1)
    } else {
        found_by_three(entries.drop_last(), key)
    }
}

/// Whether `after` is `before` with one more entry at its end, which holds
/// `value` under `key`; a lookup of `key` then finds `value`.
pub open spec fn added_under_one<V>(
    before: Seq<(String, V)>,
    after: Seq<(String, V)>,
    key: Seq<char>,
    value: V,
) -> bool {
    &&& after.len() == before.len() + 1
    &&& after.drop_last() == before
    &&& after.last().0@ == key
    &&& after.last().1 == value
    &&& found_by_one(after, key) == Some(value)
}

/// Whether `after` is `before` with one more entry at its end, which holds
/// `value` under the key of two parts; a lookup of the key then finds `value`.
pub open spec fn added_under_two<V>(
    before: Seq<((String, String), V)>,
    after: Seq<((String, String), V)>,
    key: (Seq<char>, Seq<char>),
    value: V,
) -> bool {
    &&& after.len() == before.len() + 1
    &&& after.drop_last() == before
    &&& after.last().0.0@ == key.0
    &&& after.last().0.1@ == key.1
    &&& after.last().1 == value
    &&& found_by_two(after, key) == Some(value)
}

/// The answer for a document that was looked up: the document, or the
/// failure with the given message where there is none.
pub open spec fn document_or(found: Option<serde_json::Value>, message: Seq<char>) -> Reply {
    match found {
        Some(value) => Reply::Document(json_model(value)),
        None => Reply::Failed(FailureModel { kind: FailureKind::Upstream, message }),
    }
}

/// The answer for a text that was looked up: the text, or the failure with
/// the given message where there is none.
pub open spec fn text_or(found: Option<String>, message: Seq<char>) -> Reply {
    match found {
        Some(text) => Reply::Text(text@),
        None => Reply::Failed(FailureModel { kind: FailureKind::Upstream, message }),
    }
}

/// A data source made of tables. An entry that is added under a key that is
/// taken replaces the older one.
#[derive(Debug, Clone, PartialEq)]
pub struct MockGitHubClient {
    /// Profiles, by login.
    pub users: Vec<(String, serde_json::Value)>,
    /// Repositories, by owner and name.
    pub repos: Vec<((String, String), serde_json::Value)>,
    /// Repository lists, by organization.
    pub org_repos: Vec<(String, serde_json::Value)>,
    /// Search results, by query.
    pub search_results: Vec<(String, serde_json::Value)>,
    /// Starred repositories, by user.
    pub starred_repos: Vec<(String, serde_json::Value)>,
    /// Forked repositories, by user.
    pub user_forked_repos: Vec<(String, serde_json::Value)>,
    /// File texts, by owner, repository and path.
    pub repo_contents: Vec<((String, String, String), String)>,
}

impl MockGitHubClient {
    /// The answer that the tables give to a question.
    pub open spec fn reply_to(&self, request: Request) -> Reply {
        match request {
            Request::OrgRepos { org } => document_or(
                found_by_one(self.org_repos@, org),
                "Mock org repos not found: "@ + org,
            ),
            Request::UserInfo { user } => document_or(
                found_by_one(self.users@, user),
                "Mock user not found: "@ + user,
            ),
            Request::RepoInfo { owner, repo } => document_or(
                found_by_two(self.repos@, (owner, repo)),
                "Mock repo not found: "@ + owner + "/"@ + repo,
            ),
            Request::SearchRepositories { query } => document_or(
                found_by_one(self.search_results@, query),
                "Mock search results not found for query: "@ + query,
            ),
            Request::StarredRepos { user } => document_or(
                found_by_one(self.starred_repos@, user),
                "Mock starred repos not found for user: "@ + user,
            ),
            Request::UserForkedRepos { user } => document_or(
                found_by_one(self.user_forked_repos@, user),
                "Mock forked repos not found for user: "@ + user,
            ),
            Request::RepoContent { owner, repo, path } => text_or(
                found_by_three(self.repo_contents@, (owner, repo, path)),
                "Mock repo content not found for "@ + owner + "/"@ + repo + "/"@ + path,
            ),
        }
    }

    /// A source with empty tables.
    pub fn new() -> (mock: MockGitHubClient)
        ensures
            mock.users@.len() == 0,
            mock.repos@.len() == 0,
            mock.org_repos@.len() == 0,
            mock.search_results@.len() == 0,
            mock.starred_repos@.len() == 0,
            mock.user_forked_repos@.len() == 0,
            mock.repo_contents@.len() == 0,
    {
        MockGitHubClient {
            users: Vec::new(),
            repos: Vec::new(),
            org_repos: Vec::new(),
            search_results: Vec::new(),
            starred_repos: Vec::new(),
            user_forked_repos: Vec::new(),
            repo_contents: Vec::new(),
        }
    }

    /// Adds a profile under its login, the `login` member of the document. A
    /// document without such a member is not added.
    pub fn add_user(&mut self, user: serde_json::Value)
        ensures
            match member_text(json_model(user), "login"@) {
                Some(login) => added_under_one(old(self).users@, final(self).users@, login, user),
                None => final(self).users == old(self).users,
            },
            final(self).repos == old(self).repos,
            final(self).org_repos == old(self).org_repos,
            final(self).search_results == old(self).search_results,
            final(self).starred_repos == old(self).starred_repos,
            final(self).user_forked_repos == old(self).user_forked_repos,
            final(self).repo_contents == old(self).repo_contents,
    {
        match text_member(&user, "login") {
            Some(login) => {
                self.users.push((login, user));
                assert(self.users@.drop_last() =~= old(self).users@);
            },
            None => {},
        }
    }

    /// Adds a repository under its owner and name, the `owner` and `name`
    /// members of the document. A document without them is not added.
    pub fn add_repo(&mut self, repo: serde_json::Value)
        ensures
            match (
                member_text(json_model(repo), "owner"@),
                member_text(json_model(repo), "name"@),
            ) {
                (Some(owner), Some(name)) => added_under_two(
                    old(self).repos@,
                    final(self).repos@,
                    (owner, name),
                    repo,
                ),
                _ => final(self).repos == old(self).repos,
            },
            final(self).users == old(self).users,
            final(self).org_repos == old(self).org_repos,
            final(self).search_results == old(self).search_results,
            final(self).starred_repos == old(self).starred_repos,
            final(self).user_forked_repos == old(self).user_forked_repos,
            final(self).repo_contents == old(self).repo_contents,
    {
        match (text_member(&repo, "owner"), text_member(&repo, "name")) {
            (Some(owner), Some(name)) => {
                self.repos.push(((owner, name), repo));
                assert(self.repos@.drop_last() =~= old(self).repos@);
            },
            _ => {},
        }
    }

    /// Adds the repositories of an organization.
    pub fn add_org_repos(&mut self, org: String, repos: serde_json::Value)
        ensures
            final(self).org_repos@ == old(self).org_repos@.push((org, repos)),
            final(self).users == old(self).users,
            final(self).repos == old(self).repos,
            final(self).search_results == old(self).search_results,
            final(self).starred_repos == old(self).starred_repos,
            final(self).user_forked_repos == old(self).user_forked_repos,
            final(self).repo_contents == old(self).repo_contents,
            found_by_one(final(self).org_repos@, org@) == Some(repos),
    {
        self.org_repos.push((org, repos));
    }

    /// Adds the results of a search.
    pub fn add_search_results(&mut self, query: String, results: serde_json::Value)
        ensures
            final(self).search_results@ == old(self).search_results@.push((query, results)),
            final(self).users == old(self).users,
            final(self).repos == old(self).repos,
            final(self).org_repos == old(self).org_repos,
            final(self).starred_repos == old(self).starred_repos,
            final(self).user_forked_repos == old(self).user_forked_repos,
            final(self).repo_contents == old(self).repo_contents,
            found_by_one(final(self).search_results@, query@) == Some(results),
    {
        self.search_results.push((query, results));
    }

    /// Adds the repositories that a user has starred.
    pub fn add_starred_repos(&mut self, user: String, repos: serde_json::Value)
        ensures
            final(self).starred_repos@ == old(self).starred_repos@.push((user, repos)),
            final(self).users == old(self).users,
            final(self).repos == old(self).repos,
            final(self).org_repos == old(self).org_repos,
            final(self).search_results == old(self).search_results,
            final(self).user_forked_repos == old(self).user_forked_repos,
            final(self).repo_contents == old(self).repo_contents,
            found_by_one(final(self).starred_repos@, user@) == Some(repos),
    {
        self.starred_repos.push((user, repos));
    }

    /// Adds the repositories that a user has forked.
    pub fn add_user_forked_repos(&mut self, user: String, repos: serde_json::Value)
        ensures
            final(self).user_forked_repos@ == old(self).user_forked_repos@.push((user, repos)),
            final(self).users == old(self).users,
            final(self).repos == old(self).repos,
            final(self).org_repos == old(self).org_repos,
            final(self).search_results == old(self).search_results,
            final(self).starred_repos == old(self).starred_repos,
            final(self).repo_contents == old(self).repo_contents,
            found_by_one(final(self).user_forked_repos@, user@) == Some(repos),
    {
        self.user_forked_repos.push((user, repos));
    }

    /// Adds the text of a file.
    pub fn add_repo_content(&mut self, owner: String, repo: String, path: String, content: String)
        ensures
            final(self).repo_contents@ == old(self).repo_contents@.push(
                ((owner, repo, path), content),
            ),
            final(self).users == old(self).users,
            final(self).repos == old(self).repos,
            final(self).org_repos == old(self).org_repos,
            final(self).search_results == old(self).search_results,
            final(self).starred_repos == old(self).starred_repos,
            final(self).user_forked_repos == old(self).user_forked_repos,
            found_by_three(final(self).repo_contents@, (owner@, repo@, path@)) == Some(content),
    {
        self.repo_contents.push(((owner, repo, path), content));
    }
}

/// Looks a document up under a key.
fn find_by_one(entries: &Vec<(String, serde_json::Value)>, key: &str) -> (found: Option<
    serde_json::Value,
>)
    ensures
        found == found_by_one(entries@, key@),
{
    let wanted = String::from_str(key);
    let mut i: usize = entries.len();
    assert(entries@.take(i as int) =~= entries@);
    while i > 0
        invariant
            i <= entries.len(),
            wanted@ == key@,
            found_by_one(entries@, key@) == found_by_one(entries@.take(i as int), key@),
        decreases i,
    {
        i = i - 1;
        proof {
            assert(entries@.take(i + 1).drop_last() =~= entries@.take(i as int));
        }
        if entries[i].0 == wanted {
            return Some(entries[i].1.clone());
        }
    }
    None
}

/// Looks a document up under a key of two parts.
fn find_by_two(entries: &Vec<((String, String), serde_json::Value)>, first: &str, second: &str) -> (found:
    Option<serde_json::Value>)
    ensures
        found == found_by_two(entries@, (first@, second@)),
{
    let wanted = (String::from_str(first), String::from_str(second));
    let mut i: usize = entries.len();
    assert(entries@.take(i as int) =~= entries@);
    while i > 0
        invariant
            i <= entries.len(),
            wanted.0@ == first@,
            wanted.1@ == second@,
            found_by_two(entries@, (first@, second@)) == found_by_two(
                entries@.take(i as int),
                (first@, second@),
            ),
        decreases i,
    {
        i = i - 1;
        proof {
            assert(entries@.take(i + 1).drop_last() =~= entries@.take(i as int));
        }
        if entries[i].0.0 == wanted.0 && entries[i].0.1 == wanted.1 {
            return Some(entries[i].1.clone());
        }
    }
    None
}

/// Looks a text up under a key of three parts.
fn find_by_three(
    entries: &Vec<((String, String, String), String)>,
    first: &str,
    second: &str,
    third: &str,
) -> (found: Option<String>)
    ensures
        found == found_by_three(entries@, (first@, second@, third@)),
{
    let wanted = (String::from_str(first), String::from_str(second), String::from_str(third));
    let mut i: usize = entries.len();
    assert(entries@.take(i as int) =~= entries@);
    while i > 0
        invariant
            i <= entries.len(),
            wanted.0@ == first@,
            wanted.1@ == second@,
            wanted.2@ == third@,
            found_by_three(entries@, (first@, second@, third@)) == found_by_three(
                entries@.take(i as int),
                (first@, second@, third@),
            ),
        decreases i,
    {
        i = i - 1;
        proof {
            assert(entries@.take(i + 1).drop_last() =~= entries@.take(i as int));
        }
        if entries[i].0.0 == wanted.0 && entries[i].0.1 == wanted.1 && entries[i].0.2
            == wanted.2 {
            return Some(entries[i].1.clone());
        }
    }
    None
}

/// The answer for a document that was looked up.
fn document_found(found: Option<serde_json::Value>, message: String) -> (r: Result<
    serde_json::Value,
    Failure,
>)
    ensures
        document_reply(r) == document_or(found, message@),
{
    match found {
        Some(value) => Ok(value),
        None => Err(Failure { kind: FailureKind::Upstream, message }),
    }
}

impl GitHubClient for MockGitHubClient {
    /// The tables give the answer, and asking leaves them as they are.
    open spec fn answers(&self, request: Request, reply: Reply, after: &Self) -> bool {
        &&& *after == *self
        &&& reply == self.reply_to(request)
    }

    fn list_org_repos(&mut self, org: &str) -> (r: Result<serde_json::Value, Failure>) {
        document_found(find_by_one(&self.org_repos, org), join2("Mock org repos not found: ", org))
    }

    fn get_user_info(&mut self, user: &str) -> (r: Result<serde_json::Value, Failure>) {
        document_found(find_by_one(&self.users, user), join2("Mock user not found: ", user))
    }

    fn get_repo_info(&mut self, owner: &str, repo: &str) -> (r: Result<
        serde_json::Value,
        Failure,
    >) {
        let mut message = join3("Mock repo not found: ", owner, "/");
        message.append(repo);
        document_found(find_by_two(&self.repos, owner, repo), message)
    }

    fn search_repositories(&mut self, query: &str) -> (r: Result<serde_json::Value, Failure>) {
        document_found(
            find_by_one(&self.search_results, query),
            join2("Mock search results not found for query: ", query),
        )
    }

    fn list_starred_repos(&mut self, user: &str) -> (r: Result<serde_json::Value, Failure>) {
        document_found(
            find_by_one(&self.starred_repos, user),
            join2("Mock starred repos not found for user: ", user),
        )
    }

    fn list_user_forked_repos(&mut self, user: &str) -> (r: Result<serde_json::Value, Failure>) {
        document_found(
            find_by_one(&self.user_forked_repos, user),
            join2("Mock forked repos not found for user: ", user),
        )
    }

    fn get_repo_content(&mut self, owner: &str, repo: &str, path: &str) -> (r: Result<
        String,
        Failure,
    >) {
        match find_by_three(&self.repo_contents, owner, repo, path) {
            Some(text) => Ok(text),
            None => {
                let mut message = join3("Mock repo content not found for ", owner, "/");
                message.append(repo);
                message.append("/");
                message.append(path);
                Err(Failure { kind: FailureKind::Upstream, message })
            },
        }
    }
}

} // verus!
