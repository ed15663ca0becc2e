use std::collections::HashMap;

use mytool::cache::Cache;
use mytool::failure::{Failure, FailureKind};
use mytool::github::GitHubClient;
use mytool::github_cache::{CachedGitHubClient, Fetched};
use mytool::mock_github_client::MockGitHubClient;
use mytool::store::{OpenReply, Put, ReadReply, Slot, WriteReply};
use serde_json::Value;

/// A storage engine in memory with the default namespace.
struct Engine {
    slots: HashMap<(String, String), Vec<u8>>,
}

impl Engine {
    fn new() -> Engine {
        Engine { slots: HashMap::new() }
    }

    fn read(&self, slot: &Slot) -> ReadReply {
        match self.slots.get(&(slot.namespace.clone(), slot.key.clone())) {
            Some(bytes) => ReadReply::Found(bytes.clone()),
            None => ReadReply::Missing,
        }
    }

    fn write(&mut self, put: Put) -> WriteReply {
        self.slots.insert((put.slot.namespace, put.slot.key), put.value);
        WriteReply::Done
    }
}

/// Performs the write that came with an answer, and hands the answer on.
fn settle<T>(engine: &mut Engine, fetched: Result<Fetched<T>, Failure>) -> Result<T, Failure> {
    let mut fetched = fetched?;
    let written = fetched.put.take().map(|put| engine.write(put));
    fetched.settle(written)
}

/// A data source that counts how often it is asked.
struct Counting {
    calls: u32,
    fail: bool,
}

impl Counting {
    fn answer(&mut self, question: String) -> Result<Value, Failure> {
        self.calls += 1;
        if self.fail {
            Err(Failure::new(FailureKind::Upstream, "upstream is down"))
        } else {
            Ok(Value::String(question))
        }
    }
}

impl GitHubClient for Counting {
    fn list_org_repos(&mut self, org: &str) -> Result<Value, Failure> {
        self.answer(format!("org {}", org))
    }

    fn get_user_info(&mut self, user: &str) -> Result<Value, Failure> {
        self.answer(format!("user {}", user))
    }

    fn get_repo_info(&mut self, owner: &str, repo: &str) -> Result<Value, Failure> {
        self.answer(format!("repo {} {}", owner, repo))
    }

    fn search_repositories(&mut self, query: &str) -> Result<Value, Failure> {
        self.answer(format!("search {}", query))
    }

    fn list_starred_repos(&mut self, user: &str) -> Result<Value, Failure> {
        self.answer(format!("starred {}", user))
    }

    fn list_user_forked_repos(&mut self, user: &str) -> Result<Value, Failure> {
        self.answer(format!("forked {}", user))
    }

    fn get_repo_content(&mut self, owner: &str, repo: &str, path: &str) -> Result<String, Failure> {
        self.calls += 1;
        if self.fail {
            Err(Failure::new(FailureKind::Upstream, "upstream is down"))
        } else {
            Ok(format!("content of {}/{}/{}", owner, repo, path))
        }
    }
}

fn member(fields: &mut serde_json::Map<String, Value>, name: &str, value: Value) {
    fields.insert(name.to_string(), value);
}

fn create_mock_user(login: &str) -> Value {
    let mut fields = serde_json::Map::new();
    member(&mut fields, "login", Value::from(login));
    member(&mut fields, "id", Value::from(1));
    member(&mut fields, "html_url", Value::from(format!("https://github.com/{}", login)));
    member(&mut fields, "type", Value::from("User"));
    member(&mut fields, "site_admin", Value::Bool(false));
    member(&mut fields, "name", Value::from(login));
    member(&mut fields, "company", Value::Null);
    member(&mut fields, "public_repos", Value::from(10));
    member(&mut fields, "followers", Value::from(20));
    member(&mut fields, "following", Value::from(5));
    member(&mut fields, "created_at", Value::from("2023-01-01T00:00:00Z"));
    member(&mut fields, "updated_at", Value::from("2023-01-01T00:00:00Z"));
    Value::Object(fields)
}

fn create_mock_repo(owner: &str, name: &str) -> Value {
    let mut fields = serde_json::Map::new();
    member(&mut fields, "id", Value::from(2));
    member(&mut fields, "owner", Value::from(owner));
    member(&mut fields, "name", Value::from(name));
    member(&mut fields, "html_url", Value::from(format!("https://github.com/{}/{}", owner, name)));
    member(&mut fields, "description", Value::from("A test repo"));
    member(&mut fields, "stargazers_count", Value::from(5));
    member(&mut fields, "forks_count", Value::from(1));
    member(&mut fields, "language", Value::from("Rust"));
    member(&mut fields, "license", Value::Null);
    member(&mut fields, "topics", Value::Array(vec![]));
    member(&mut fields, "trust_score", Value::from(0.0));
    Value::Object(fields)
}

#[test]
fn test_cached_get_user_info_caches() {
    let mut mock_client = MockGitHubClient::new();
    let user = "testuser";
    let mock_user_data = create_mock_user(user);
    mock_client.add_user(mock_user_data.clone());

    let mut engine = Engine::new();
    let mut cached_client = CachedGitHubClient::new(mock_client, OpenReply::Opened).unwrap();
    let slot = Cache::slot(&CachedGitHubClient::<MockGitHubClient>::user_cache_key(user));

    // First call - should hit the live client (mock) and cache
    let fetched = cached_client.get_user_info(user, engine.read(&slot));
    let fetched_user = settle(&mut engine, fetched).unwrap();
    assert_eq!(fetched_user, mock_user_data);

    // Remove user from mock client to ensure cache is used
    cached_client.live_client.users.clear();

    // Second call - should hit the cache
    let fetched = cached_client.get_user_info(user, engine.read(&slot));
    let fetched_user_from_cache = settle(&mut engine, fetched).unwrap();
    assert_eq!(fetched_user_from_cache, mock_user_data);
}

#[test]
fn test_cached_get_repo_info_caches() {
    let mut mock_client = MockGitHubClient::new();
    let owner = "testowner";
    let repo_name = "testrepo";
    let mock_repo_data = create_mock_repo(owner, repo_name);
    mock_client.add_repo(mock_repo_data.clone());

    let mut engine = Engine::new();
    let mut cached_client = CachedGitHubClient::new(mock_client, OpenReply::Opened).unwrap();
    let slot = Cache::slot(&CachedGitHubClient::<MockGitHubClient>::repo_cache_key(owner, repo_name));

    // First call - should hit the live client (mock) and cache
    let fetched = cached_client.get_repo_info(owner, repo_name, engine.read(&slot));
    let fetched_repo = settle(&mut engine, fetched).unwrap();
    assert_eq!(fetched_repo, mock_repo_data);

    // Remove repo from mock client to ensure cache is used
    cached_client.live_client.repos.clear();

    // Second call - should hit the cache
    let fetched = cached_client.get_repo_info(owner, repo_name, engine.read(&slot));
    let fetched_repo_from_cache = settle(&mut engine, fetched).unwrap();
    assert_eq!(fetched_repo_from_cache, mock_repo_data);
}

#[test]
fn cache_keys_have_the_exact_formats() {
    type Client = CachedGitHubClient<Counting>;
    assert_eq!(Client::user_cache_key("octocat"), "user:octocat");
    assert_eq!(Client::repo_cache_key("rust-lang", "rust"), "repo:rust-lang/rust");
    assert_eq!(Client::org_repos_cache_key("rust-lang"), "org_repos:rust-lang");
    assert_eq!(Client::search_repos_cache_key("rust+mcp"), "search_repos:rust+mcp");
    assert_eq!(Client::starred_repos_cache_key("octocat"), "starred_repos:octocat");
    assert_eq!(Client::user_forked_repos_cache_key("octocat"), "user_forked_repos:octocat");
    assert_eq!(
        Client::get_repo_content_cache_key("rust-lang", "rust", "src/lib.rs"),
        "repo_content:rust-lang/rust/src/lib.rs"
    );
    assert_eq!(Client::user_cache_key(""), "user:");
}

#[test]
fn first_read_asks_the_source_once_and_second_read_does_not() {
    type Client = CachedGitHubClient<Counting>;
    let mut engine = Engine::new();
    let mut client = Client::new(Counting { calls: 0, fail: false }, OpenReply::Opened).unwrap();

    let slot = Cache::slot(&Client::org_repos_cache_key("o"));
    let first = client.list_org_repos("o", engine.read(&slot));
    assert!(first.as_ref().unwrap().put.is_some());
    let first = settle(&mut engine, first).unwrap();
    assert_eq!(client.live_client.calls, 1);
    assert!(engine.slots.contains_key(&(String::from("default"), String::from("org_repos:o"))));
    let second = client.list_org_repos("o", engine.read(&slot));
    assert!(second.as_ref().unwrap().put.is_none());
    assert_eq!(settle(&mut engine, second).unwrap(), first);
    assert_eq!(client.live_client.calls, 1);

    let slot = Cache::slot(&Client::user_cache_key("u"));
    let first = settle(&mut engine, client.get_user_info("u", ReadReply::Missing)).unwrap();
    assert_eq!(client.live_client.calls, 2);
    let second = client.get_user_info("u", engine.read(&slot));
    assert_eq!(settle(&mut engine, second).unwrap(), first);
    assert_eq!(client.live_client.calls, 2);

    let slot = Cache::slot(&Client::repo_cache_key("o", "r"));
    let first = settle(&mut engine, client.get_repo_info("o", "r", ReadReply::Missing)).unwrap();
    assert_eq!(client.live_client.calls, 3);
    let second = client.get_repo_info("o", "r", engine.read(&slot));
    assert_eq!(settle(&mut engine, second).unwrap(), first);
    assert_eq!(client.live_client.calls, 3);

    let slot = Cache::slot(&Client::search_repos_cache_key("q"));
    let first = settle(&mut engine, client.search_repositories("q", ReadReply::Missing)).unwrap();
    assert_eq!(client.live_client.calls, 4);
    let second = client.search_repositories("q", engine.read(&slot));
    assert_eq!(settle(&mut engine, second).unwrap(), first);
    assert_eq!(client.live_client.calls, 4);

    let slot = Cache::slot(&Client::starred_repos_cache_key("u"));
    let first = settle(&mut engine, client.list_starred_repos("u", ReadReply::Missing)).unwrap();
    assert_eq!(client.live_client.calls, 5);
    let second = client.list_starred_repos("u", engine.read(&slot));
    assert_eq!(settle(&mut engine, second).unwrap(), first);
    assert_eq!(client.live_client.calls, 5);

    let slot = Cache::slot(&Client::user_forked_repos_cache_key("u"));
    let first = settle(&mut engine, client.list_user_forked_repos("u", ReadReply::Missing)).unwrap();
    assert_eq!(client.live_client.calls, 6);
    let second = client.list_user_forked_repos("u", engine.read(&slot));
    assert_eq!(settle(&mut engine, second).unwrap(), first);
    assert_eq!(client.live_client.calls, 6);

    let slot = Cache::slot(&Client::get_repo_content_cache_key("o", "r", "p"));
    let first = settle(&mut engine, client.get_repo_content("o", "r", "p", ReadReply::Missing)).unwrap();
    assert_eq!(first, "content of o/r/p");
    assert_eq!(client.live_client.calls, 7);
    let second = client.get_repo_content("o", "r", "p", engine.read(&slot));
    assert_eq!(settle(&mut engine, second).unwrap(), first);
    assert_eq!(client.live_client.calls, 7);
    assert_eq!(engine.slots.len(), 7);
}

#[test]
fn content_is_cached_as_a_json_string() {
    type Client = CachedGitHubClient<Counting>;
    let mut client = Client::new(Counting { calls: 0, fail: false }, OpenReply::Opened).unwrap();
    let fetched = client.get_repo_content("o", "r", "p", ReadReply::Missing).unwrap();
    let put = fetched.put.unwrap();
    assert_eq!(put.slot, Slot::new("default", "repo_content:o/r/p"));
    assert_eq!(put.value, b"\"content of o/r/p\"".to_vec());
}

#[test]
fn a_failure_of_the_source_is_handed_on_and_not_cached() {
    type Client = CachedGitHubClient<Counting>;
    let mut engine = Engine::new();
    let mut client = Client::new(Counting { calls: 0, fail: true }, OpenReply::Opened).unwrap();
    let slot = Cache::slot(&Client::user_cache_key("u"));

    let fetched = client.get_user_info("u", engine.read(&slot));
    let failure = settle(&mut engine, fetched).unwrap_err();
    assert_eq!(failure, Failure::new(FailureKind::Upstream, "upstream is down"));
    assert!(engine.slots.is_empty());
    assert_eq!(client.live_client.calls, 1);

    let fetched = client.get_user_info("u", engine.read(&slot));
    let failure = settle(&mut engine, fetched).unwrap_err();
    assert_eq!(failure.kind, FailureKind::Upstream);
    assert_eq!(client.live_client.calls, 2);

    let failure = client.get_repo_content("o", "r", "p", ReadReply::Missing).unwrap_err();
    assert_eq!(failure, Failure::new(FailureKind::Upstream, "upstream is down"));
}

#[test]
fn a_cache_that_cannot_be_read_fails_the_read_without_asking_the_source() {
    type Client = CachedGitHubClient<Counting>;
    let mut client = Client::new(Counting { calls: 0, fail: false }, OpenReply::Opened).unwrap();
    let failure = client.get_user_info("u", ReadReply::Failed("IO error".to_string())).unwrap_err();
    assert_eq!(failure.kind, FailureKind::StorageUnavailable);
    let failure = client.get_user_info("u", ReadReply::Found(b"]".to_vec())).unwrap_err();
    assert_eq!(failure.kind, FailureKind::Decoding);
    let failure = client
        .get_repo_content("o", "r", "p", ReadReply::Found(b"{\"no\":\"text\"}".to_vec()))
        .unwrap_err();
    assert_eq!(failure.kind, FailureKind::Decoding);
    assert_eq!(failure.message, "Failed to deserialize value from cache");
    assert_eq!(client.live_client.calls, 0);
}

#[test]
fn a_write_that_fails_is_reported_though_the_source_answered() {
    type Client = CachedGitHubClient<Counting>;
    let mut client = Client::new(Counting { calls: 0, fail: false }, OpenReply::Opened).unwrap();
    let fetched = client.get_user_info("u", ReadReply::Missing).unwrap();
    assert_eq!(fetched.value, Value::String("user u".to_string()));
    assert!(fetched.put.is_some());
    let failure = fetched.settle(Some(WriteReply::Failed("disk full".to_string()))).unwrap_err();
    assert_eq!(failure.kind, FailureKind::StorageUnavailable);
    assert_eq!(failure.message, "Failed to put value into RocksDB");

    let fetched = client.get_user_info("u", ReadReply::Missing).unwrap();
    assert_eq!(fetched.settle(Some(WriteReply::Done)), Ok(Value::String("user u".to_string())));
    let served = client.get_user_info("u", ReadReply::Found(b"\"cached\"".to_vec())).unwrap();
    assert_eq!(served.settle(None), Ok(Value::String("cached".to_string())));
}

#[test]
fn cached_client_new_reports_a_store_that_does_not_open() {
    let failure = CachedGitHubClient::new(MockGitHubClient::new(), OpenReply::Failed("x".to_string()))
        .unwrap_err();
    assert_eq!(failure.kind, FailureKind::StorageUnavailable);
    assert_eq!(failure.message, "Failed to initialize GitHub cache");
}

#[test]
fn mock_answers_from_its_tables() {
    let mut mock = MockGitHubClient::new();
    mock.add_org_repos("o".to_string(), Value::Array(vec![create_mock_repo("o", "a")]));
    mock.add_search_results("q".to_string(), Value::from("found"));
    mock.add_starred_repos("u".to_string(), Value::from("starred"));
    mock.add_user_forked_repos("u".to_string(), Value::from("forked"));
    mock.add_repo_content("o".to_string(), "r".to_string(), "p".to_string(), "text".to_string());
    mock.add_repo(create_mock_repo("o", "r"));
    mock.add_user(create_mock_user("u"));
    let mut newer = serde_json::Map::new();
    member(&mut newer, "login", Value::from("u"));
    member(&mut newer, "id", Value::from(7));
    mock.add_user(Value::Object(newer.clone()));

    assert_eq!(mock.list_org_repos("o"), Ok(Value::Array(vec![create_mock_repo("o", "a")])));
    assert_eq!(mock.search_repositories("q"), Ok(Value::from("found")));
    assert_eq!(mock.list_starred_repos("u"), Ok(Value::from("starred")));
    assert_eq!(mock.list_user_forked_repos("u"), Ok(Value::from("forked")));
    assert_eq!(mock.get_repo_content("o", "r", "p"), Ok("text".to_string()));
    assert_eq!(mock.get_repo_info("o", "r"), Ok(create_mock_repo("o", "r")));
    assert_eq!(mock.get_user_info("u"), Ok(Value::Object(newer)));
}

#[test]
fn mock_passes_over_documents_without_their_key() {
    let mut mock = MockGitHubClient::new();
    mock.add_user(Value::from("no login"));
    let mut nameless = serde_json::Map::new();
    member(&mut nameless, "owner", Value::from("o"));
    mock.add_repo(Value::Object(nameless));
    assert!(mock.users.is_empty());
    assert!(mock.repos.is_empty());
}

#[test]
fn mock_reports_what_it_does_not_hold() {
    let mut mock = MockGitHubClient::new();
    mock.add_repo(create_mock_repo("o", "r"));
    let upstream = |message: &str| Failure::new(FailureKind::Upstream, message);
    assert_eq!(mock.list_org_repos("o"), Err(upstream("Mock org repos not found: o")));
    assert_eq!(mock.get_user_info("u"), Err(upstream("Mock user not found: u")));
    assert_eq!(mock.get_repo_info("o", "x"), Err(upstream("Mock repo not found: o/x")));
    assert_eq!(mock.get_repo_info("x", "r"), Err(upstream("Mock repo not found: x/r")));
    assert_eq!(
        mock.search_repositories("q"),
        Err(upstream("Mock search results not found for query: q"))
    );
    assert_eq!(
        mock.list_starred_repos("u"),
        Err(upstream("Mock starred repos not found for user: u"))
    );
    assert_eq!(
        mock.list_user_forked_repos("u"),
        Err(upstream("Mock forked repos not found for user: u"))
    );
    assert_eq!(
        mock.get_repo_content("o", "r", "p"),
        Err(upstream("Mock repo content not found for o/r/p"))
    );
}

#[test]
fn keys_of_different_questions_differ() {
    type Client = CachedGitHubClient<Counting>;
    let keys = vec![
        Client::user_cache_key("x"),
        Client::repo_cache_key("x", "y"),
        Client::org_repos_cache_key("x"),
        Client::search_repos_cache_key("x"),
        Client::starred_repos_cache_key("x"),
        Client::user_forked_repos_cache_key("x"),
        Client::get_repo_content_cache_key("x", "y", "z"),
        Client::user_cache_key("y"),
        Client::user_cache_key("_forked_repos:x"),
    ];
    for (i, a) in keys.iter().enumerate() {
        for b in keys.iter().skip(i + 1) {
            assert_ne!(a, b);
        }
    }
}

#[test]
fn a_slash_in_a_login_makes_two_repositories_share_a_key() {
    type Client = CachedGitHubClient<Counting>;
    assert_eq!(Client::repo_cache_key("a/b", "c"), Client::repo_cache_key("a", "b/c"));
    assert_ne!(Client::repo_cache_key("a", "b"), Client::repo_cache_key("a", "c"));
    assert_ne!(Client::repo_cache_key("a", "c"), Client::repo_cache_key("b", "c"));
}
