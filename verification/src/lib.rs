//! Caches, indexes and audits what is read from a repository-hosting API.
//!
//! The library has four parts.
//!
//! - [`cache`] is a key-value store of JSON documents under string keys.
//! - [`code_indexer`] is an index of code files: for each file a record in
//!   one namespace and the file's text in another, under a key made of the
//!   repository's full name and the SHA-256 digest of the file's path.
//! - [`github_cache`] is a read-through cache in front of any data source
//!   that implements [`github::GitHubClient`]; [`mock_github_client`] is a
//!   source for tests.
//! - [`syscall_types`] and [`syscall_executor`] wrap an impure operation: they
//!   hash its inputs and outputs, time it, and record how it went;
//!   [`mock_syscall`] is an operation for tests.
//!
//! The storage engine is not part of the library. The parts that store
//! anything say which write the engine is to perform and take the engine's
//! answer to a read as an argument; [`store`] holds the words of that
//! conversation, and a picture of an engine's contents over which the laws of
//! the parts are stated and proved. The program around the library drives a
//! real engine with these words. In the same way [`server::handlers`] decides
//! what each route answers and leaves the transport to the program, and
//! [`github_api`] decides which request goes to the API and leaves the sending
//! to it.
//!
//! What the library has from other crates it has through a few declarations
//! whose contracts are taken on trust: [`json`] for `serde_json`, [`digest`]
//! for `sha2`, [`clock`] for `chrono`, [`github_api`] for `url`, and [`text`]
//! for some functions of the standard library. Each of them says in its
//! documentation which function it stands for and what it claims of it.

pub mod cache;
pub mod clock;
pub mod code_indexer;
pub mod digest;
pub mod failure;
pub mod github;
pub mod github_api;
pub mod github_cache;
pub mod json;
pub mod mock_github_client;
pub mod mock_syscall;
pub mod repo_index;
pub mod server;
pub mod store;
pub mod syscall_executor;
pub mod syscall_types;
pub mod text;
