//! Parameters that the routes take from the request path.

use vstd::prelude::*;

verus! {

/// Names one indexed file to read back: `/code/{owner}/{repo}/{path}`.
#[derive(Debug, Clone)]
pub struct GetCodePath {
    /// Account that owns the repository.
    pub owner: String,
    /// Name of the repository.
    pub repo: String,
    /// Path of the file inside the repository; the route calls it `path`.
    pub file_path: String,
}

/// Names one file to fetch and index: `/index_code/{owner}/{repo}/{path}`.
#[derive(Debug, Clone)]
pub struct IndexCodePath {
    /// Account that owns the repository.
    pub owner: String,
    /// Name of the repository.
    pub repo: String,
    /// Path of the file inside the repository; the route calls it `path`.
    pub file_path: String,
}

/// Names an organization: `/orgs/{org}/repos`.
#[derive(Debug, Clone)]
pub struct OrgReposPath {
    /// Login of the organization.
    pub org: String,
}

/// Names a repository: `/repos/{owner}/{repo}`.
#[derive(Debug, Clone)]
pub struct RepoPath {
    /// Account that owns the repository.
    pub owner: String,
    /// Name of the repository.
    pub repo: String,
}

/// Names a user: `/users/{username}`.
#[derive(Debug, Clone)]
pub struct UserPath {
    /// Login of the user.
    pub username: String,
}

/// Names the user whose repositories a route lists.
#[derive(Debug, Clone)]
pub struct UserReposPath {
    /// Login of the user.
    pub username: String,
}

} // verus!
