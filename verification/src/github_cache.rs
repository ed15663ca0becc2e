//! The read-through cache in front of a data source.
//!
//! Each question has a key in the cache. Where the key holds a value, that
//! value is the answer and the source is not asked. Where it holds none, the
//! source is asked once; its answer is handed on, and with it the write that
//! puts it under the key. A failure of the source is handed on as it is, and
//! nothing is written for it. There is no expiry: what was put under a key
//! stays the answer.

use vstd::prelude::*;

use crate::cache::{cache_put, cache_read, cache_slot, read_back, Cache};
use crate::failure::{fails_with, Failure, FailureKind, FailureModel};
use crate::github::{document_reply, text_reply, GitHubClient, Reply, Request};
use crate::json::{json_model, json_round_trip, json_string, Json};
use crate::store::{
    after_put, read_of, Contents, OpenReply, Put, ReadModel, ReadReply, WriteReply,
};
use crate::text::{join2, join3};

verus! {

/// The key under which the answer to a question is cached.
pub open spec fn cache_key(request: Request) -> Seq<char> {
    match request {
        Request::OrgRepos { org } => "org_repos:"@ + org,
        Request::UserInfo { user } => "user:"@ + user,
        Request::RepoInfo { owner, repo } => "repo:"@ + owner + "/"@ + repo,
        Request::SearchRepositories { query } => "search_repos:"@ + query,
        Request::StarredRepos { user } => "starred_repos:"@ + user,
        Request::UserForkedRepos { user } => "user_forked_repos:"@ + user,
        Request::RepoContent { owner, repo, path } => "repo_content:"@ + owner + "/"@ + repo
            + "/"@ + path,
    }
}

/// An answer, and the write that caches it. There is a write exactly where
/// the answer came from the source.
#[derive(Debug, Clone, PartialEq)]
pub struct Fetched<T> {
    pub value: T,
    pub put: Option<Put>,
}

impl<T> Fetched<T> {
    /// The answer for the caller, once the engine has answered to the write
    /// that came with it; `written` is that answer, and nothing where no
    /// write came with the answer. A write that failed fails the read with a
    /// storage failure, though the source had answered.
    pub fn settle(self, written: Option<WriteReply>) -> (r: Result<T, Failure>)
        ensures
            match written {
                Some(reply) => if reply is Done {
                    r == Ok::<T, Failure>(self.value)
                } else {
                    fails_with(
                        r,
                        FailureKind::StorageUnavailable,
                        "Failed to put value into RocksDB"@,
                    )
                },
                None => r == Ok::<T, Failure>(self.value),
            },
    {
        match written {
            Some(reply) => match Cache::written(reply) {
                Ok(_) => Ok(self.value),
                Err(failure) => Err(failure),
            },
            None => Ok(self.value),
        }
    }
}

/// Whether `r` is what a structured answer of the source comes to: a failure
/// handed on as it is, or the answer with the write that puts it under the
/// question's key.
pub open spec fn hands_on_document(
    request: Request,
    reply: Result<serde_json::Value, Failure>,
    r: Result<Fetched<serde_json::Value>, Failure>,
) -> bool {
    match reply {
        Ok(value) => {
            &&& r matches Ok(fetched) && fetched.value == value
            &&& r matches Ok(fetched) && (fetched.put matches Some(put) && put@ == cache_put(
                cache_key(request),
                json_model(value),
            ))
        },
        Err(failure) => r == Err::<Fetched<serde_json::Value>, Failure>(failure),
    }
}

/// Whether `r` is what a text answer of the source comes to: as
/// [`hands_on_document`], the text being cached as a string document.
pub open spec fn hands_on_text(
    request: Request,
    reply: Result<String, Failure>,
    r: Result<Fetched<String>, Failure>,
) -> bool {
    match reply {
        Ok(text) => {
            &&& r matches Ok(fetched) && fetched.value == text
            &&& r matches Ok(fetched) && (fetched.put matches Some(put) && put@ == cache_put(
                cache_key(request),
                Json::String(text@),
            ))
        },
        Err(failure) => r == Err::<Fetched<String>, Failure>(failure),
    }
}

/// Whether a read of a structured answer went through the cache as it must:
/// `before` and `after` are the source before and after, `cached` is what the
/// engine answered to the read of the question's key.
pub open spec fn document_read_through<C: GitHubClient>(
    before: C,
    request: Request,
    cached: ReadModel,
    r: Result<Fetched<serde_json::Value>, Failure>,
    after: C,
) -> bool {
    match cache_read(cached) {
        Ok(Some(document)) => {
            &&& after == before
            &&& r matches Ok(fetched) && json_model(fetched.value) == document && fetched.put is None
        },
        Ok(None) => exists|reply: Result<serde_json::Value, Failure>|
            before.answers(request, document_reply(reply), &after) && #[trigger] hands_on_document(
                request,
                reply,
                r,
            ),
        Err(expected) => {
            &&& after == before
            &&& r matches Err(failure) && failure@ == expected
        },
    }
}

/// What a cached document comes to where a text was asked for: the text of a
/// string document, and a decoding failure for any other document.
pub open spec fn cached_text(document: Json) -> Result<Seq<char>, FailureModel> {
    match document {
        Json::String(text) => Ok(text),
        _ => Err(
            FailureModel {
                kind: FailureKind::Decoding,
                message: "Failed to deserialize value from cache"@,
            },
        ),
    }
}

/// Whether a read of a text answer went through the cache as it must: as
/// [`document_read_through`].
pub open spec fn text_read_through<C: GitHubClient>(
    before: C,
    request: Request,
    cached: ReadModel,
    r: Result<Fetched<String>, Failure>,
    after: C,
) -> bool {
    match cache_read(cached) {
        Ok(Some(document)) => {
            &&& after == before
            &&& match cached_text(document) {
                Ok(text) => r matches Ok(fetched) && fetched.value@ == text && fetched.put is None,
                Err(expected) => r matches Err(failure) && failure@ == expected,
            }
        },
        Ok(None) => exists|reply: Result<String, Failure>|
            before.answers(request, text_reply(reply), &after) && #[trigger] hands_on_text(
                request,
                reply,
                r,
            ),
        Err(expected) => {
            &&& after == before
            &&& r matches Err(failure) && failure@ == expected
        },
    }
}

/// Hands on a structured answer of the source, with the write that caches it.
pub fn fresh_document(key: &str, reply: Result<serde_json::Value, Failure>) -> (r: Result<
    Fetched<serde_json::Value>,
    Failure,
>)
    ensures
        forall|request: Request|
            cache_key(request) == key@ ==> #[trigger] hands_on_document(request, reply, r),
{
    match reply {
        Ok(value) => {
            let cache = Cache {  };
            match cache.put(key, &value) {
                Ok(put) => Ok(Fetched { value, put: Some(put) }),
                Err(failure) => Err(failure),
            }
        },
        Err(failure) => Err(failure),
    }
}

/// Hands on a text answer of the source, with the write that caches it.
pub fn fresh_text(key: &str, reply: Result<String, Failure>) -> (r: Result<
    Fetched<String>,
    Failure,
>)
    ensures
        forall|request: Request|
            cache_key(request) == key@ ==> #[trigger] hands_on_text(request, reply, r),
{
    match reply {
        Ok(text) => {
            let cache = Cache {  };
            let document = json_string(text.as_str());
            match cache.put(key, &document) {
                Ok(put) => Ok(Fetched { value: text, put: Some(put) }),
                Err(failure) => Err(failure),
            }
        },
        Err(failure) => Err(failure),
    }
}

/// A data source with a cache in front of it.
#[derive(Debug)]
pub struct CachedGitHubClient<C: GitHubClient> {
    /// The source that is asked where the cache holds no answer.
    pub live_client: C,
}

impl<C: GitHubClient> CachedGitHubClient<C> {
    /// A cache in front of `live_client`, over an engine that was asked to
    /// open: there is one where the engine opened, and a storage failure
    /// where it did not.
    pub fn new(live_client: C, opened: OpenReply) -> (r: Result<Self, Failure>)
        ensures
            opened is Opened ==> (r matches Ok(client) && client.live_client == live_client),
            opened is Failed ==> fails_with(
                r,
                FailureKind::StorageUnavailable,
                "Failed to initialize GitHub cache"@,
            ),
    {
        match Cache::new(opened) {
            Ok(_) => Ok(CachedGitHubClient { live_client }),
            Err(_) => Err(
                Failure::new(FailureKind::StorageUnavailable, "Failed to initialize GitHub cache"),
            ),
        }
    }

    /// The key of a user's profile: `user:<login>`.
    pub fn user_cache_key(user: &str) -> (key: String)
        ensures
            key@ == cache_key(Request::UserInfo { user: user@ }),
    {
        join2("user:", user)
    }

    /// The key of a repository: `repo:<owner>/<repo>`.
    pub fn repo_cache_key(owner: &str, repo: &str) -> (key: String)
        ensures
            key@ == cache_key(Request::RepoInfo { owner: owner@, repo: repo@ }),
    {
        let mut key = join3("repo:", owner, "/");
        key.append(repo);
        key
    }

    /// The key of an organization's repositories: `org_repos:<org>`.
    pub fn org_repos_cache_key(org: &str) -> (key: String)
        ensures
            key@ == cache_key(Request::OrgRepos { org: org@ }),
    {
        join2("org_repos:", org)
    }

    /// The key of a search: `search_repos:<query>`.
    pub fn search_repos_cache_key(query: &str) -> (key: String)
        ensures
            key@ == cache_key(Request::SearchRepositories { query: query@ }),
    {
        join2("search_repos:", query)
    }

    /// The key of a user's starred repositories: `starred_repos:<user>`.
    pub fn starred_repos_cache_key(user: &str) -> (key: String)
        ensures
            key@ == cache_key(Request::StarredRepos { user: user@ }),
    {
        join2("starred_repos:", user)
    }

    /// The key of a user's forked repositories: `user_forked_repos:<user>`.
    pub fn user_forked_repos_cache_key(user: &str) -> (key: String)
        ensures
            key@ == cache_key(Request::UserForkedRepos { user: user@ }),
    {
        join2("user_forked_repos:", user)
    }

    /// The key of a file's text: `repo_content:<owner>/<repo>/<path>`.
    pub fn get_repo_content_cache_key(owner: &str, repo: &str, path: &str) -> (key: String)
        ensures
            key@ == cache_key(Request::RepoContent { owner: owner@, repo: repo@, path: path@ }),
    {
        let mut key = join3("repo_content:", owner, "/");
        key.append(repo);
        key.append("/");
        key.append(path);
        key
    }

    /// The repositories of an organization; `cached` is what the engine
    /// answered to a read of [`Self::org_repos_cache_key`].
    pub fn list_org_repos(&mut self, org: &str, cached: ReadReply) -> (r: Result<
        Fetched<serde_json::Value>,
        Failure,
    >)
        ensures
            document_read_through(
                old(self).live_client,
                Request::OrgRepos { org: org@ },
                cached@,
                r,
                final(self).live_client,
            ),
    {
        let cache = Cache {  };
        match cache.get(cached) {
            Ok(Some(value)) => Ok(Fetched { value, put: None }),
            Ok(None) => {
                let key = Self::org_repos_cache_key(org);
                let reply = self.live_client.list_org_repos(org);
                let r = fresh_document(key.as_str(), reply);
                assert(hands_on_document(Request::OrgRepos { org: org@ }, reply, r));
                r
            },
            Err(failure) => Err(failure),
        }
    }

    /// The profile of a user; `cached` is what the engine answered to a read
    /// of [`Self::user_cache_key`].
    pub fn get_user_info(&mut self, user: &str, cached: ReadReply) -> (r: Result<
        Fetched<serde_json::Value>,
        Failure,
    >)
        ensures
            document_read_through(
                old(self).live_client,
                Request::UserInfo { user: user@ },
                cached@,
                r,
                final(self).live_client,
            ),
    {
        let cache = Cache {  };
        match cache.get(cached) {
            Ok(Some(value)) => Ok(Fetched { value, put: None }),
            Ok(None) => {
                let key = Self::user_cache_key(user);
                let reply = self.live_client.get_user_info(user);
                let r = fresh_document(key.as_str(), reply);
                assert(hands_on_document(Request::UserInfo { user: user@ }, reply, r));
                r
            },
            Err(failure) => Err(failure),
        }
    }

    /// One repository; `cached` is what the engine answered to a read of
    /// [`Self::repo_cache_key`].
    pub fn get_repo_info(&mut self, owner: &str, repo: &str, cached: ReadReply) -> (r: Result<
        Fetched<serde_json::Value>,
        Failure,
    >)
        ensures
            document_read_through(
                old(self).live_client,
                Request::RepoInfo { owner: owner@, repo: repo@ },
                cached@,
                r,
                final(self).live_client,
            ),
    {
        let cache = Cache {  };
        match cache.get(cached) {
            Ok(Some(value)) => Ok(Fetched { value, put: None }),
            Ok(None) => {
                let key = Self::repo_cache_key(owner, repo);
                let reply = self.live_client.get_repo_info(owner, repo);
                let r = fresh_document(key.as_str(), reply);
                assert(hands_on_document(
                    Request::RepoInfo { owner: owner@, repo: repo@ },
                    reply,
                    r,
                ));
                r
            },
            Err(failure) => Err(failure),
        }
    }

    /// The repositories that match a search; `cached` is what the engine
    /// answered to a read of [`Self::search_repos_cache_key`].
    pub fn search_repositories(&mut self, query: &str, cached: ReadReply) -> (r: Result<
        Fetched<serde_json::Value>,
        Failure,
    >)
        ensures
            document_read_through(
                old(self).live_client,
                Request::SearchRepositories { query: query@ },
                cached@,
                r,
                final(self).live_client,
            ),
    {
        let cache = Cache {  };
        match cache.get(cached) {
            Ok(Some(value)) => Ok(Fetched { value, put: None }),
            Ok(None) => {
                let key = Self::search_repos_cache_key(query);
                let reply = self.live_client.search_repositories(query);
                let r = fresh_document(key.as_str(), reply);
                assert(hands_on_document(Request::SearchRepositories { query: query@ }, reply, r));
                r
            },
            Err(failure) => Err(failure),
        }
    }

    /// The repositories that a user has starred; `cached` is what the engine
    /// answered to a read of [`Self::starred_repos_cache_key`].
    pub fn list_starred_repos(&mut self, user: &str, cached: ReadReply) -> (r: Result<
        Fetched<serde_json::Value>,
        Failure,
    >)
        ensures
            document_read_through(
                old(self).live_client,
                Request::StarredRepos { user: user@ },
                cached@,
                r,
                final(self).live_client,
            ),
    {
        let cache = Cache {  };
        match cache.get(cached) {
            Ok(Some(value)) => Ok(Fetched { value, put: None }),
            Ok(None) => {
                let key = Self::starred_repos_cache_key(user);
                let reply = self.live_client.list_starred_repos(user);
                let r = fresh_document(key.as_str(), reply);
                assert(hands_on_document(Request::StarredRepos { user: user@ }, reply, r));
                r
            },
            Err(failure) => Err(failure),
        }
    }

    /// The repositories that a user has forked; `cached` is what the engine
    /// answered to a read of [`Self::user_forked_repos_cache_key`].
    pub fn list_user_forked_repos(&mut self, user: &str, cached: ReadReply) -> (r: Result<
        Fetched<serde_json::Value>,
        Failure,
    >)
        ensures
            document_read_through(
                old(self).live_client,
                Request::UserForkedRepos { user: user@ },
                cached@,
                r,
                final(self).live_client,
            ),
    {
        let cache = Cache {  };
        match cache.get(cached) {
            Ok(Some(value)) => Ok(Fetched { value, put: None }),
            Ok(None) => {
                let key = Self::user_forked_repos_cache_key(user);
                let reply = self.live_client.list_user_forked_repos(user);
                let r = fresh_document(key.as_str(), reply);
                assert(hands_on_document(Request::UserForkedRepos { user: user@ }, reply, r));
                r
            },
            Err(failure) => Err(failure),
        }
    }

    /// The text of one file of a repository; `cached` is what the engine
    /// answered to a read of [`Self::get_repo_content_cache_key`].
    pub fn get_repo_content(&mut self, owner: &str, repo: &str, path: &str, cached: ReadReply) -> (r:
        Result<Fetched<String>, Failure>)
        ensures
            text_read_through(
                old(self).live_client,
                Request::RepoContent { owner: owner@, repo: repo@, path: path@ },
                cached@,
                r,
                final(self).live_client,
            ),
    {
        let cache = Cache {  };
        match cache.get(cached) {
            Ok(Some(value)) => match value.as_str() {
                Some(text) => Ok(Fetched { value: String::from_str(text), put: None }),
                None => Err(
                    Failure::new(FailureKind::Decoding, "Failed to deserialize value from cache"),
                ),
            },
            Ok(None) => {
                let key = Self::get_repo_content_cache_key(owner, repo, path);
                let reply = self.live_client.get_repo_content(owner, repo, path);
                let r = fresh_text(key.as_str(), reply);
                assert(hands_on_text(
                    Request::RepoContent { owner: owner@, repo: repo@, path: path@ },
                    reply,
                    r,
                ));
                r
            },
            Err(failure) => Err(failure),
        }
    }
}

/// Whether two questions are of one kind.
pub open spec fn same_kind(a: Request, b: Request) -> bool {
    match (a, b) {
        (Request::OrgRepos { .. }, Request::OrgRepos { .. }) => true,
        (Request::UserInfo { .. }, Request::UserInfo { .. }) => true,
        (Request::RepoInfo { .. }, Request::RepoInfo { .. }) => true,
        (Request::SearchRepositories { .. }, Request::SearchRepositories { .. }) => true,
        (Request::StarredRepos { .. }, Request::StarredRepos { .. }) => true,
        (Request::UserForkedRepos { .. }, Request::UserForkedRepos { .. }) => true,
        (Request::RepoContent { .. }, Request::RepoContent { .. }) => true,
        _ => false,
    }
}

/// Whether a question has one argument only.
pub open spec fn has_one_argument(request: Request) -> bool {
    !(request is RepoInfo) && !(request is RepoContent)
}

/// Two texts that follow one prefix are the same where the whole is the same.
proof fn same_after_prefix(prefix: Seq<char>, a: Seq<char>, b: Seq<char>)
    requires
        prefix + a == prefix + b,
    ensures
        a == b,
{
    assert((prefix + a).subrange(prefix.len() as int, (prefix + a).len() as int) =~= a);
    assert((prefix + b).subrange(prefix.len() as int, (prefix + b).len() as int) =~= b);
}

/// The keys of questions of different kinds differ, and so do the keys of
/// two different questions of one kind that has one argument. Answers to
/// such questions never stand in for one another.
pub proof fn keys_tell_questions_apart(a: Request, b: Request)
    requires
        cache_key(a) == cache_key(b),
    ensures
        same_kind(a, b),
        has_one_argument(a) ==> a == b,
{
    reveal_strlit("org_repos:");
    reveal_strlit("user:");
    reveal_strlit("repo:");
    reveal_strlit("search_repos:");
    reveal_strlit("starred_repos:");
    reveal_strlit("user_forked_repos:");
    reveal_strlit("repo_content:");
    reveal_strlit("/");
    let key = cache_key(a);
    assert(key.len() >= 5);
    assert(cache_key(b)[0] == key[0]);
    assert(cache_key(b)[1] == key[1]);
    assert(cache_key(b)[4] == key[4]);
    match a {
        Request::OrgRepos { org } => {
            assert(key[0] == 'o');
            same_after_prefix("org_repos:"@, org, b->OrgRepos_org);
        },
        Request::UserInfo { user } => {
            assert(key[0] == 'u' && key[4] == ':');
            same_after_prefix("user:"@, user, b->UserInfo_user);
        },
        Request::RepoInfo { owner, repo } => {
            assert(key[0] == 'r' && key[4] == ':');
        },
        Request::SearchRepositories { query } => {
            assert(key[0] == 's' && key[1] == 'e');
            same_after_prefix("search_repos:"@, query, b->SearchRepositories_query);
        },
        Request::StarredRepos { user } => {
            assert(key[0] == 's' && key[1] == 't');
            same_after_prefix("starred_repos:"@, user, b->StarredRepos_user);
        },
        Request::UserForkedRepos { user } => {
            assert(key[0] == 'u' && key[4] == '_');
            same_after_prefix("user_forked_repos:"@, user, b->UserForkedRepos_user);
        },
        Request::RepoContent { owner, repo, path } => {
            assert(key[0] == 'r' && key[4] == '_');
        },
    }
}

/// Two texts joined by a slash tell their parts apart where the first part
/// holds no slash: `a/b` and `c/d` are the same only where `a` is `c` and `b`
/// is `d`.
pub proof fn slash_tells_parts_apart(a: Seq<char>, b: Seq<char>, c: Seq<char>, d: Seq<char>)
    requires
        a + "/"@ + b == c + "/"@ + d,
        !a.contains('/'),
        !c.contains('/'),
    ensures
        a == c,
        b == d,
{
    reveal_strlit("/");
    let left = a + "/"@ + b;
    let right = c + "/"@ + d;
    assert(left[a.len() as int] == '/');
    assert(right[c.len() as int] == '/');
    if a.len() < c.len() {
        assert(right[a.len() as int] == c[a.len() as int]);
        assert(c.contains('/'));
    }
    if c.len() < a.len() {
        assert(left[c.len() as int] == a[c.len() as int]);
        assert(a.contains('/'));
    }
    assert(a =~= c) by {
        assert forall|i: int| 0 <= i < a.len() implies a[i] == c[i] by {
            assert(left[i] == a[i]);
            assert(right[i] == c[i]);
        }
    }
    assert(left.subrange(a.len() as int + 1, left.len() as int) =~= b);
    assert(right.subrange(c.len() as int + 1, right.len() as int) =~= d);
}

/// The key of a repository tells repositories apart as long as no owner's
/// login holds a slash. With a slash in the login it does not: the owner
/// `a/b` with the repository `c` has the key of the owner `a` with the
/// repository `b/c`.
pub proof fn repo_keys_tell_repositories_apart(
    owner: Seq<char>,
    repo: Seq<char>,
    other_owner: Seq<char>,
    other_repo: Seq<char>,
)
    requires
        cache_key(Request::RepoInfo { owner, repo }) == cache_key(
            Request::RepoInfo { owner: other_owner, repo: other_repo },
        ),
        !owner.contains('/'),
        !other_owner.contains('/'),
    ensures
        owner == other_owner,
        repo == other_repo,
{
    let rest = owner + "/"@ + repo;
    let other_rest = other_owner + "/"@ + other_repo;
    assert("repo:"@ + owner + "/"@ + repo =~= "repo:"@ + rest);
    assert("repo:"@ + other_owner + "/"@ + other_repo =~= "repo:"@ + other_rest);
    same_after_prefix("repo:"@, rest, other_rest);
    slash_tells_parts_apart(owner, repo, other_owner, other_repo);
}

/// Once an answer is cached it stays the answer: after the engine has
/// performed the write that came with an answer of the source, a read of the
/// question's key finds the answer's document, as far as printing and reading
/// it back keeps it. The next read of the same question is then served from
/// the cache, and the source is not asked again.
pub proof fn cached_answer_is_served(contents: Contents, request: Request, document: Json)
    ensures
        cache_read(
            read_of(
                after_put(contents, cache_put(cache_key(request), document)),
                cache_slot(cache_key(request)),
            ),
        ) == read_back(document),
        json_round_trip(document) == Some(document) ==> cache_read(
            read_of(
                after_put(contents, cache_put(cache_key(request), document)),
                cache_slot(cache_key(request)),
            ),
        ) == Ok::<Option<Json>, FailureModel>(Some(document)),
{
}

/// The first read of a question asks the source once and fills the cache;
/// the same read again does not ask the source and gives the same document.
///
/// `first` is a read that found the question's key empty and got an answer
/// from the source, `between` being the source after it; `second` is the same
/// read after the engine has performed the write that came with the first
/// answer. It holds where the answer's document is read back from its printed
/// form as the same document.
pub proof fn second_read_is_served_from_the_cache<C: GitHubClient>(
    contents: Contents,
    request: Request,
    before: C,
    first: Result<Fetched<serde_json::Value>, Failure>,
    between: C,
    second: Result<Fetched<serde_json::Value>, Failure>,
    after: C,
)
    requires
        !contents.dom().contains(cache_slot(cache_key(request))),
        document_read_through(
            before,
            request,
            read_of(contents, cache_slot(cache_key(request))),
            first,
            between,
        ),
        first is Ok,
        json_round_trip(json_model(first->Ok_0.value)) == Some(json_model(first->Ok_0.value)),
        first->Ok_0.put is Some ==> document_read_through(
            between,
            request,
            read_of(
                after_put(contents, first->Ok_0.put->0@),
                cache_slot(cache_key(request)),
            ),
            second,
            after,
        ),
    ensures
        exists|reply: Reply| #[trigger] before.answers(request, reply, &between),
        first->Ok_0.put is Some,
        after == between,
        second is Ok,
        second->Ok_0.put is None,
        json_model(second->Ok_0.value) == json_model(first->Ok_0.value),
{
    let reply = choose|reply: Result<serde_json::Value, Failure>|
        before.answers(request, document_reply(reply), &between) && #[trigger] hands_on_document(
            request,
            reply,
            first,
        );
    assert(before.answers(request, document_reply(reply), &between));
    let fetched = first->Ok_0;
    let put = fetched.put->0;
    assert(put@ == cache_put(cache_key(request), json_model(fetched.value)));
    cached_answer_is_served(contents, request, json_model(fetched.value));
}

/// A read that the cache serves leaves the source alone and gives the cached
/// document; a read that it cannot serve asks the source exactly once.
pub proof fn source_is_asked_only_on_a_miss<C: GitHubClient>(
    before: C,
    request: Request,
    cached: ReadModel,
    r: Result<Fetched<serde_json::Value>, Failure>,
    after: C,
)
    requires
        document_read_through(before, request, cached, r, after),
    ensures
        cache_read(cached) matches Ok(Some(document)) ==> after == before && (r matches Ok(
            fetched,
        ) && json_model(fetched.value) == document && fetched.put is None),
        cache_read(cached) matches Ok(None) ==> exists|reply: Reply|
            #[trigger] before.answers(request, reply, &after),
        r matches Ok(fetched) ==> (fetched.put is Some <==> cache_read(cached) == Ok::<
            Option<Json>,
            FailureModel,
        >(None)),
{
    if cache_read(cached) == Ok::<Option<Json>, FailureModel>(None) {
        let reply = choose|reply: Result<serde_json::Value, Failure>|
            before.answers(request, document_reply(reply), &after) && #[trigger] hands_on_document(
                request,
                reply,
                r,
            );
        assert(before.answers(request, document_reply(reply), &after));
    }
}

} // verus!
