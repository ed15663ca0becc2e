//! What each route answers, given what the library found.
//!
//! The transport hands a route its parameters and performs the reads and
//! writes; what is answered, with which status and which words, is decided
//! here.

use vstd::prelude::*;

use crate::clock::Instant;
use crate::code_indexer::{
    after_indexing, content_read, content_slot_of, indexed_file_is_read_back, indexed_record,
    metadata_read, metadata_slot_of, record_document, record_value, CodeFileMetadata,
    CodeFileRecord,
};
use crate::failure::{Failure, FailureModel};
use crate::github::{filter_repos, filtered, slice_texts, RepoMetadata};
use crate::json::{json_array, json_get, json_model, json_models, json_round_trip, Json};
use crate::store::{read_of, Contents};
use crate::server::paths::{GetCodePath, OrgReposPath, RepoPath, UserPath, UserReposPath};
use crate::server::queries::FilterQuery;
use crate::text::{contains, join2, join3, occurs_in, split_whitespace, texts, whitespace_words};

verus! {

/// The status of an answer that carries what was asked for.
pub const STATUS_OK: u16 = 200;

/// The status of an answer to a question about something that is not there.
pub const STATUS_NOT_FOUND: u16 = 404;

/// The status of an answer that reports a failure.
pub const STATUS_INTERNAL_SERVER_ERROR: u16 = 500;

/// The body of an answer.
#[derive(Debug, Clone, PartialEq)]
pub enum Body {
    /// Plain text.
    Text(String),
    /// A JSON document.
    Json(serde_json::Value),
}

/// An answer of a route: the status and the body.
#[derive(Debug, Clone, PartialEq)]
pub struct HttpReply {
    pub status: u16,
    pub body: Body,
}

/// Whether an answer has the given status and the given text as its body.
pub open spec fn says(reply: HttpReply, status: u16, text: Seq<char>) -> bool {
    &&& reply.status == status
    &&& reply.body matches Body::Text(body) && body@ == text
}

/// Whether an answer is a success that carries the given document.
pub open spec fn carries(reply: HttpReply, document: Json) -> bool {
    &&& reply.status == STATUS_OK
    &&& reply.body matches Body::Json(value) && json_model(value) == document
}

/// An answer with a text body.
fn text_reply(status: u16, text: String) -> (reply: HttpReply)
    ensures
        says(reply, status, text@),
{
    HttpReply { status, body: Body::Text(text) }
}

/// The answer that carries a document, or the failure report made of
/// `prefix` and the failure's message.
fn document_or_failure(outcome: Result<serde_json::Value, Failure>, prefix: &str) -> (reply:
    HttpReply)
    ensures
        match outcome {
            Ok(value) => carries(reply, json_model(value)),
            Err(failure) => says(reply, STATUS_INTERNAL_SERVER_ERROR, prefix@ + failure.message@),
        },
{
    match outcome {
        Ok(value) => HttpReply { status: STATUS_OK, body: Body::Json(value) },
        Err(failure) => text_reply(
            STATUS_INTERNAL_SERVER_ERROR,
            join2(prefix, failure.message.as_str()),
        ),
    }
}

/// The answer of the health check: `OK`.
pub fn health_check() -> (reply: HttpReply)
    ensures
        says(reply, STATUS_OK, "OK"@),
{
    text_reply(STATUS_OK, String::from_str("OK"))
}

/// The answer to a question about a user: the profile, or the report
/// `Failed to fetch user <username>: <message>`.
pub fn get_user(path: &UserPath, outcome: Result<serde_json::Value, Failure>) -> (reply: HttpReply)
    ensures
        match outcome {
            Ok(value) => carries(reply, json_model(value)),
            Err(failure) => says(
                reply,
                STATUS_INTERNAL_SERVER_ERROR,
                "Failed to fetch user "@ + path.username@ + ": "@ + failure.message@,
            ),
        },
{
    let prefix = join3("Failed to fetch user ", path.username.as_str(), ": ");
    document_or_failure(outcome, prefix.as_str())
}

/// The answer to a question about a repository: the repository, or the
/// report `Failed to fetch repo <owner>/<repo>: <message>`.
pub fn get_repo(path: &RepoPath, outcome: Result<serde_json::Value, Failure>) -> (reply: HttpReply)
    ensures
        match outcome {
            Ok(value) => carries(reply, json_model(value)),
            Err(failure) => says(
                reply,
                STATUS_INTERNAL_SERVER_ERROR,
                "Failed to fetch repo "@ + path.owner@ + "/"@ + path.repo@ + ": "@
                    + failure.message@,
            ),
        },
{
    let mut prefix = join3("Failed to fetch repo ", path.owner.as_str(), "/");
    prefix.append(path.repo.as_str());
    prefix.append(": ");
    document_or_failure(outcome, prefix.as_str())
}

/// The keywords of a filter query: its words, and none where there is no
/// query.
pub open spec fn query_keywords(query: FilterQuery) -> Seq<Seq<char>> {
    match query.query {
        Some(text) => whitespace_words(text@),
        None => Seq::empty(),
    }
}

/// The repositories of an organization that the query's filter lets
/// through: those in which one of the query's words occurs, and all of them
/// where there is no query or no word in it.
pub fn filter_org_repos(repos: Vec<RepoMetadata>, query: &FilterQuery) -> (kept: Vec<RepoMetadata>)
    ensures
        kept@ == filtered(repos@, query_keywords(*query)),
{
    match &query.query {
        Some(text) => {
            let words = split_whitespace(text.as_str());
            let mut filters: Vec<&str> = Vec::new();
            let mut i: usize = 0;
            while i < words.len()
                invariant
                    i <= words.len(),
                    filters@.len() == i,
                    forall|k: int| 0 <= k < i ==> (#[trigger] filters@[k])@ == words@[k]@,
                decreases words.len() - i,
            {
                filters.push(words[i].as_str());
                i = i + 1;
            }
            assert(slice_texts(filters@) =~= texts(words@));
            filter_repos(repos, filters.as_slice())
        },
        None => repos,
    }
}

/// The answer to a listing of an organization's repositories: the listing,
/// or the report `Failed to fetch org <org> repositories: <message>`.
pub fn get_org_repos_filtered(path: &OrgReposPath, outcome: Result<serde_json::Value, Failure>) -> (reply:
    HttpReply)
    ensures
        match outcome {
            Ok(value) => carries(reply, json_model(value)),
            Err(failure) => says(
                reply,
                STATUS_INTERNAL_SERVER_ERROR,
                "Failed to fetch org "@ + path.org@ + " repositories: "@ + failure.message@,
            ),
        },
{
    let prefix = join3("Failed to fetch org ", path.org.as_str(), " repositories: ");
    document_or_failure(outcome, prefix.as_str())
}

/// The repositories that a search found: the `items` member of its results,
/// where the results are an object that has one.
pub open spec fn search_items(results: Json) -> Option<Json> {
    match results {
        Json::Object(members) => if members.dom().contains("items"@) {
            Some(members["items"@])
        } else {
            None
        },
        _ => None,
    }
}

/// The answer to a search: the repositories found, or the report
/// `Failed to search repositories: <message>`; results without repositories
/// are reported as a missing field.
pub fn search_repositories_handler(outcome: Result<serde_json::Value, Failure>) -> (reply: HttpReply)
    ensures
        match outcome {
            Ok(results) => match search_items(json_model(results)) {
                Some(items) => carries(reply, items),
                None => says(
                    reply,
                    STATUS_INTERNAL_SERVER_ERROR,
                    "Failed to search repositories: missing field `items`"@,
                ),
            },
            Err(failure) => says(
                reply,
                STATUS_INTERNAL_SERVER_ERROR,
                "Failed to search repositories: "@ + failure.message@,
            ),
        },
{
    match outcome {
        Ok(results) => match json_get(&results, "items") {
            Some(items) => HttpReply { status: STATUS_OK, body: Body::Json(items.clone()) },
            None => text_reply(
                STATUS_INTERNAL_SERVER_ERROR,
                String::from_str("Failed to search repositories: missing field `items`"),
            ),
        },
        Err(failure) => text_reply(
            STATUS_INTERNAL_SERVER_ERROR,
            join2("Failed to search repositories: ", failure.message.as_str()),
        ),
    }
}

/// The answer to a listing of a user's starred repositories: the listing, or
/// the report `Failed to list starred repositories: <username>`.
pub fn list_starred_repos_handler(
    path: &UserReposPath,
    outcome: Result<serde_json::Value, Failure>,
) -> (reply: HttpReply)
    ensures
        match outcome {
            Ok(value) => carries(reply, json_model(value)),
            Err(_) => says(
                reply,
                STATUS_INTERNAL_SERVER_ERROR,
                "Failed to list starred repositories: "@ + path.username@,
            ),
        },
{
    match outcome {
        Ok(value) => HttpReply { status: STATUS_OK, body: Body::Json(value) },
        Err(_) => text_reply(
            STATUS_INTERNAL_SERVER_ERROR,
            join2("Failed to list starred repositories: ", path.username.as_str()),
        ),
    }
}

/// The answer to a listing of a user's forked repositories: the listing, or
/// the report `Failed to list forked repositories: <username>`.
pub fn list_user_forked_repos_handler(
    path: &UserReposPath,
    outcome: Result<serde_json::Value, Failure>,
) -> (reply: HttpReply)
    ensures
        match outcome {
            Ok(value) => carries(reply, json_model(value)),
            Err(_) => says(
                reply,
                STATUS_INTERNAL_SERVER_ERROR,
                "Failed to list forked repositories: "@ + path.username@,
            ),
        },
{
    match outcome {
        Ok(value) => HttpReply { status: STATUS_OK, body: Body::Json(value) },
        Err(_) => text_reply(
            STATUS_INTERNAL_SERVER_ERROR,
            join2("Failed to list forked repositories: ", path.username.as_str()),
        ),
    }
}

/// The keywords that are looked for in a file that is indexed.
pub open spec fn server_keyword_texts() -> Seq<Seq<char>> {
    seq![
        "server"@,
        "actix-web"@,
        "warp"@,
        "tokio::main"@,
        "mcp"@,
        "Router"@,
        "Handler"@,
        "Service"@,
        "App"@,
        "HttpServer"@,
    ]
}

/// The candidates that occur in a text, in their order.
pub open spec fn present_in(content: Seq<char>, candidates: Seq<Seq<char>>) -> Seq<Seq<char>> {
    candidates.filter(|keyword: Seq<char>| occurs_in(content, keyword))
}

/// The keywords that are looked for in a file that is indexed.
pub fn server_keywords() -> (keywords: Vec<String>)
    ensures
        texts(keywords@) == server_keyword_texts(),
{
    let mut keywords: Vec<String> = Vec::new();
    keywords.push(String::from_str("server"));
    keywords.push(String::from_str("actix-web"));
    keywords.push(String::from_str("warp"));
    keywords.push(String::from_str("tokio::main"));
    keywords.push(String::from_str("mcp"));
    keywords.push(String::from_str("Router"));
    keywords.push(String::from_str("Handler"));
    keywords.push(String::from_str("Service"));
    keywords.push(String::from_str("App"));
    keywords.push(String::from_str("HttpServer"));
    keywords
}

/// Keeps the candidates that occur in the text as substrings, in their
/// order.
pub fn find_keywords(content: &str, candidates: Vec<String>) -> (found: Vec<String>)
    ensures
        texts(found@) == present_in(content@, texts(candidates@)),
{
    let ghost all = texts(candidates@);
    let ghost present = |keyword: Seq<char>| occurs_in(content@, keyword);
    let mut found: Vec<String> = Vec::new();
    for candidate in it: candidates
        invariant
            all == texts(it.seq()),
            present == |keyword: Seq<char>| occurs_in(content@, keyword),
            texts(found@) == all.take(it.index()).filter(present),
    {
        proof {
            assert(all.take(it.index() + 1) =~= all.take(it.index()).push(candidate@));
            all.take(it.index()).lemma_filter_push(candidate@, present);
        }
        if contains(content, candidate.as_str()) {
            found.push(candidate);
        }
    }
    assert(all.take(all.len() as int) =~= all);
    found
}

/// The keywords that are found in a text are the candidates that occur in
/// it: none that does not occur, and none left out.
pub proof fn found_keywords_are_those_present(content: Seq<char>, candidates: Seq<Seq<char>>)
    ensures
        forall|keyword: Seq<char>| #[trigger]
            present_in(content, candidates).contains(keyword) <==> (candidates.contains(keyword)
                && occurs_in(content, keyword)),
{
    let present = |keyword: Seq<char>| occurs_in(content, keyword);
    let found = candidates.filter(present);
    assert forall|keyword: Seq<char>| #[trigger] found.contains(keyword) implies (
    candidates.contains(keyword) && occurs_in(content, keyword)) by {
        candidates.lemma_filter_contains_rev(present, keyword);
        let i = choose|i: int| 0 <= i < found.len() && found[i] == keyword;
        candidates.lemma_filter_pred(present, i);
    }
    assert forall|keyword: Seq<char>|
        candidates.contains(keyword) && occurs_in(content, keyword) implies #[trigger] found.contains(
        keyword,
    ) by {
        let i = choose|i: int| 0 <= i < candidates.len() && candidates[i] == keyword;
        candidates.lemma_filter_contains(present, i);
    }
}

/// A file that is indexed with the keywords that were found in its text is
/// read back with its text, its repository's full name, its path, and the
/// candidates that occur in its text as its keywords. The record is read back
/// where its document is read back from its printed form as the same document.
pub proof fn indexed_keywords_are_those_present(
    contents: Contents,
    owner: Seq<char>,
    repo: Seq<char>,
    file_path: Seq<char>,
    file_content: Seq<char>,
    candidates: Seq<Seq<char>>,
    at: Instant,
)
    requires
        at.valid(),
    ensures
        ({
            let keywords = present_in(file_content, candidates);
            let record = indexed_record(owner, repo, file_path, keywords, at);
            let document = record_document(record)->0;
            let after = after_indexing(contents, owner, repo, file_path, document, file_content);
            &&& content_read(read_of(after, content_slot_of(owner, repo, file_path))) == Ok::<
                Option<Seq<char>>,
                FailureModel,
            >(Some(file_content))
            &&& json_round_trip(document) == Some(document) ==> metadata_read(
                read_of(after, metadata_slot_of(owner, repo, file_path)),
            ) == Ok::<Option<CodeFileRecord>, FailureModel>(Some(record))
            &&& record.repo_full_name == owner + "/"@ + repo
            &&& record.file_path == file_path
            &&& forall|keyword: Seq<char>| #[trigger]
                record.keywords_found.contains(keyword) <==> (candidates.contains(keyword)
                    && occurs_in(file_content, keyword))
        }),
{
    let keywords = present_in(file_content, candidates);
    indexed_file_is_read_back(contents, owner, repo, file_path, file_content, keywords, at);
    found_keywords_are_those_present(file_content, candidates);
}

/// What the fetch of a file that is to be indexed comes to: the keywords that
/// occur in the file's text, or the report
/// `Failed to fetch code content: <message>`.
pub fn index_code_keywords(fetched: &Result<String, Failure>) -> (r: Result<Vec<String>, HttpReply>)
    ensures
        match *fetched {
            Ok(content) => r matches Ok(found) && texts(found@) == present_in(
                content@,
                server_keyword_texts(),
            ),
            Err(failure) => r matches Err(reply) && says(
                reply,
                STATUS_INTERNAL_SERVER_ERROR,
                "Failed to fetch code content: "@ + failure.message@,
            ),
        },
{
    match fetched {
        Ok(content) => Ok(find_keywords(content.as_str(), server_keywords())),
        Err(failure) => Err(
            text_reply(
                STATUS_INTERNAL_SERVER_ERROR,
                join2("Failed to fetch code content: ", failure.message.as_str()),
            ),
        ),
    }
}

/// The answer to a request to index a file: the file's record, or the report
/// `Failed to index code file: <message>`.
pub fn index_code_handler(outcome: Result<CodeFileMetadata, Failure>) -> (reply: HttpReply)
    ensures
        match outcome {
            Ok(metadata) => match record_document(metadata@) {
                Some(document) => carries(reply, document),
                None => says(
                    reply,
                    STATUS_INTERNAL_SERVER_ERROR,
                    "Failed to index code file: timestamp out of range"@,
                ),
            },
            Err(failure) => says(
                reply,
                STATUS_INTERNAL_SERVER_ERROR,
                "Failed to index code file: "@ + failure.message@,
            ),
        },
{
    match outcome {
        Ok(metadata) => match record_value(&metadata) {
            Some(value) => HttpReply { status: STATUS_OK, body: Body::Json(value) },
            None => text_reply(
                STATUS_INTERNAL_SERVER_ERROR,
                String::from_str("Failed to index code file: timestamp out of range"),
            ),
        },
        Err(failure) => text_reply(
            STATUS_INTERNAL_SERVER_ERROR,
            join2("Failed to index code file: ", failure.message.as_str()),
        ),
    }
}

/// The answer to a request for an indexed file's text: the text, or
/// `Code file <owner>/<repo>/<path> not found in index` with the status of
/// what is not there, or the report
/// `Failed to retrieve indexed code file: <message>`.
pub fn get_indexed_code_handler(path: &GetCodePath, outcome: Result<Option<String>, Failure>) -> (reply:
    HttpReply)
    ensures
        match outcome {
            Ok(Some(content)) => says(reply, STATUS_OK, content@),
            Ok(None) => says(
                reply,
                STATUS_NOT_FOUND,
                "Code file "@ + path.owner@ + "/"@ + path.repo@ + "/"@ + path.file_path@
                    + " not found in index"@,
            ),
            Err(failure) => says(
                reply,
                STATUS_INTERNAL_SERVER_ERROR,
                "Failed to retrieve indexed code file: "@ + failure.message@,
            ),
        },
{
    match outcome {
        Ok(Some(content)) => text_reply(STATUS_OK, content),
        Ok(None) => {
            let mut text = join3("Code file ", path.owner.as_str(), "/");
            text.append(path.repo.as_str());
            text.append("/");
            text.append(path.file_path.as_str());
            text.append(" not found in index");
            text_reply(STATUS_NOT_FOUND, text)
        },
        Err(failure) => text_reply(
            STATUS_INTERNAL_SERVER_ERROR,
            join2("Failed to retrieve indexed code file: ", failure.message.as_str()),
        ),
    }
}

/// Whether `documents` are the documents of the records, one for one.
pub open spec fn are_documents_of(documents: Seq<Json>, list: Seq<CodeFileMetadata>) -> bool {
    &&& documents.len() == list.len()
    &&& forall|i: int|
        0 <= i < list.len() ==> record_document(list[i]@) == Some(#[trigger] documents[i])
}

/// The answer to a request for the whole index: the array of the records, or
/// the report `Failed to list indexed code metadata: <message>`.
pub fn list_indexed_code_metadata_handler(outcome: Result<Vec<CodeFileMetadata>, Failure>) -> (reply:
    HttpReply)
    ensures
        match outcome {
            Ok(list) => if forall|i: int|
                0 <= i < list@.len() ==> record_document(#[trigger] list@[i]@) is Some {
                &&& reply.status == STATUS_OK
                &&& reply.body matches Body::Json(value) && (json_model(value) matches Json::Array(
                    documents,
                ) && are_documents_of(documents, list@))
            } else {
                says(
                    reply,
                    STATUS_INTERNAL_SERVER_ERROR,
                    "Failed to list indexed code metadata: timestamp out of range"@,
                )
            },
            Err(failure) => says(
                reply,
                STATUS_INTERNAL_SERVER_ERROR,
                "Failed to list indexed code metadata: "@ + failure.message@,
            ),
        },
{
    let list = match outcome {
        Ok(list) => list,
        Err(failure) => {
            return text_reply(
                STATUS_INTERNAL_SERVER_ERROR,
                join2("Failed to list indexed code metadata: ", failure.message.as_str()),
            );
        },
    };
    let mut values: Vec<serde_json::Value> = Vec::new();
    let mut i: usize = 0;
    while i < list.len()
        invariant
            outcome == Ok::<Vec<CodeFileMetadata>, Failure>(list),
            i <= list.len(),
            values@.len() == i,
            forall|k: int|
                0 <= k < i ==> record_document(list@[k]@) == Some(
                    #[trigger] json_model(values@[k]),
                ),
        decreases list.len() - i,
    {
        match record_value(&list[i]) {
            Some(value) => {
                values.push(value);
            },
            None => {
                return text_reply(
                    STATUS_INTERNAL_SERVER_ERROR,
                    String::from_str("Failed to list indexed code metadata: timestamp out of range"),
                );
            },
        }
        i = i + 1;
    }
    let ghost documents = json_models(values@);
    assert(are_documents_of(documents, list@));
    assert forall|k: int| 0 <= k < list@.len() implies record_document(
        #[trigger] list@[k]@,
    ) is Some by {
        assert(record_document(list@[k]@) == Some(json_model(values@[k])));
    }
    HttpReply { status: STATUS_OK, body: Body::Json(json_array(values)) }
}

} // verus!
