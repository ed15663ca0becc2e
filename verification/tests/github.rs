use mytool::github::{filter_repos, RepoMetadata};

fn repo(name: &str) -> RepoMetadata {
    RepoMetadata {
        id: 2,
        owner: "testorg".to_string(),
        name: name.to_string(),
        html_url: format!("https://github.com/testorg/{}", name),
        description: Some("A test repo".to_string()),
        stargazers_count: 5,
        forks_count: 1,
        created_at: "2023-01-01T00:00:00Z".to_string(),
        updated_at: "2023-01-01T00:00:00Z".to_string(),
        pushed_at: "2023-01-01T00:00:00Z".to_string(),
        language: Some("Rust".to_string()),
        license: None,
        topics: vec![],
        trust_score_bits: 0,
    }
}

fn names(repos: &[RepoMetadata]) -> Vec<String> {
    repos.iter().map(|r| r.name.clone()).collect()
}

#[test]
fn filter_repos_without_keywords_keeps_all() {
    let repos = vec![repo("a"), repo("b")];
    assert_eq!(filter_repos(repos.clone(), &[]), repos);
}

#[test]
fn filter_repos_keeps_matches_by_name_in_order() {
    let repos = vec![repo("testrepo_mcp_1"), repo("another_repo"), repo("mcp_testrepo_2")];
    let kept = filter_repos(repos, &["mcp"]);
    assert_eq!(names(&kept), vec!["testrepo_mcp_1", "mcp_testrepo_2"]);
}

#[test]
fn filter_repos_looks_at_description_topics_and_language() {
    let mut by_description = repo("one");
    by_description.description = Some("uses terraform".to_string());
    by_description.language = None;
    let mut by_topic = repo("two");
    by_topic.description = None;
    by_topic.language = None;
    by_topic.topics = vec!["cli".to_string(), "nix-flake".to_string()];
    let mut by_language = repo("three");
    by_language.description = None;
    by_language.language = Some("Rust".to_string());
    let mut none = repo("four");
    none.description = None;
    none.language = Some("Go".to_string());

    let repos = vec![by_description, by_topic, by_language, none];
    assert_eq!(names(&filter_repos(repos.clone(), &["terraform"])), vec!["one"]);
    assert_eq!(names(&filter_repos(repos.clone(), &["nix"])), vec!["two"]);
    assert_eq!(names(&filter_repos(repos.clone(), &["rust"])), vec!["three"]);
    assert_eq!(names(&filter_repos(repos.clone(), &["Rust"])), Vec::<String>::new());
    assert_eq!(
        names(&filter_repos(repos.clone(), &["nix", "rust", "zig"])),
        vec!["two", "three"]
    );
    assert_eq!(names(&filter_repos(repos, &["o"])), vec!["one", "two", "four"]);
}

#[test]
fn filter_repos_matches_names_as_they_are_written() {
    let repos = vec![repo("MCP-server")];
    assert_eq!(names(&filter_repos(repos.clone(), &["mcp"])), Vec::<String>::new());
    assert_eq!(names(&filter_repos(repos, &["MCP"])), vec!["MCP-server"]);
}
