//! The closed set of storage failures.

use vstd::prelude::*;
use vstd::string::StringExecFns;

verus! {

/// `uuid::Error`: why a text was refused as an identifier. Its contents are
/// carried for diagnostics only; nothing is claimed of them.
#[verifier::external_type_specification]
#[verifier::external_body]
pub struct ExUuidError(uuid::Error);

/// A storage failure. Every variant carries the `stage` at which the
/// operation failed.
#[derive(Debug)]
pub enum StorageError {
    /// The entity is absent, or outside the session scope of the caller.
    NotFound { stage: &'static str, entity: &'static str, id: String },
    /// A write was refused by an application-level rule.
    Conflict { stage: &'static str, entity: &'static str, details: String },
    /// A text is not an identifier.
    InvalidId { stage: &'static str, id_type: &'static str, raw: String, source: uuid::Error },
    /// The stored state is one that should be impossible.
    InvariantViolation { stage: &'static str, details: String },
    CreateSqliteDirectory { stage: &'static str, path: String, source: String },
    SqliteConnectOptions { stage: &'static str, database_url: String, source: String },
    SqliteConnect { stage: &'static str, database_url: String, source: String },
    SqlitePragma { stage: &'static str, pragma: &'static str, source: String },
    SqliteMigrate { stage: &'static str, source: String },
    SqliteQuery { stage: &'static str, source: String },
    SqliteThreadSpawn { stage: &'static str, source: String },
    SqliteRuntimeInit { stage: &'static str, source: String },
    ReadLegacyConversationTsv { stage: &'static str, path: String, source: String },
}

/// The result of a storage operation.
pub type StorageResult<T> = Result<T, StorageError>;

/// What a [`StorageError`] says, with every text taken as its characters.
/// The diagnostics of an `InvalidId` are left out.
pub enum Fault {
    NotFound { stage: Seq<char>, entity: Seq<char>, id: Seq<char> },
    Conflict { stage: Seq<char>, entity: Seq<char>, details: Seq<char> },
    InvalidId { stage: Seq<char>, id_type: Seq<char>, raw: Seq<char> },
    InvariantViolation { stage: Seq<char>, details: Seq<char> },
    CreateSqliteDirectory { stage: Seq<char>, path: Seq<char>, source: Seq<char> },
    SqliteConnectOptions { stage: Seq<char>, database_url: Seq<char>, source: Seq<char> },
    SqliteConnect { stage: Seq<char>, database_url: Seq<char>, source: Seq<char> },
    SqlitePragma { stage: Seq<char>, pragma: Seq<char>, source: Seq<char> },
    SqliteMigrate { stage: Seq<char>, source: Seq<char> },
    SqliteQuery { stage: Seq<char>, source: Seq<char> },
    SqliteThreadSpawn { stage: Seq<char>, source: Seq<char> },
    SqliteRuntimeInit { stage: Seq<char>, source: Seq<char> },
    ReadLegacyConversationTsv { stage: Seq<char>, path: Seq<char>, source: Seq<char> },
}

impl View for StorageError {
    type V = Fault;

    open spec fn view(&self) -> Fault {
        match *self {
            StorageError::NotFound { stage, entity, id } => Fault::NotFound {
                stage: stage@,
                entity: entity@,
                id: id@,
            },
            StorageError::Conflict { stage, entity, details } => Fault::Conflict {
                stage: stage@,
                entity: entity@,
                details: details@,
            },
            StorageError::InvalidId { stage, id_type, raw, source } => Fault::InvalidId {
                stage: stage@,
                id_type: id_type@,
                raw: raw@,
            },
            StorageError::InvariantViolation { stage, details } => Fault::InvariantViolation {
                stage: stage@,
                details: details@,
            },
            StorageError::CreateSqliteDirectory { stage, path, source } => {
                Fault::CreateSqliteDirectory { stage: stage@, path: path@, source: source@ }
            },
            StorageError::SqliteConnectOptions { stage, database_url, source } => {
                Fault::SqliteConnectOptions {
                    stage: stage@,
                    database_url: database_url@,
                    source: source@,
                }
            },
            StorageError::SqliteConnect { stage, database_url, source } => Fault::SqliteConnect {
                stage: stage@,
                database_url: database_url@,
                source: source@,
            },
            StorageError::SqlitePragma { stage, pragma, source } => Fault::SqlitePragma {
                stage: stage@,
                pragma: pragma@,
                source: source@,
            },
            StorageError::SqliteMigrate { stage, source } => Fault::SqliteMigrate {
                stage: stage@,
                source: source@,
            },
            StorageError::SqliteQuery { stage, source } => Fault::SqliteQuery {
                stage: stage@,
                source: source@,
            },
            StorageError::SqliteThreadSpawn { stage, source } => Fault::SqliteThreadSpawn {
                stage: stage@,
                source: source@,
            },
            StorageError::SqliteRuntimeInit { stage, source } => Fault::SqliteRuntimeInit {
                stage: stage@,
                source: source@,
            },
            StorageError::ReadLegacyConversationTsv { stage, path, source } => {
                Fault::ReadLegacyConversationTsv { stage: stage@, path: path@, source: source@ }
            },
        }
    }
}

impl StorageError {
    /// The stage at which the operation failed.
    pub fn stage(&self) -> (tag: &'static str)
        ensures
            tag@ == stage_of(self@),
    {
        match self {
            StorageError::NotFound { stage, .. } => stage,
            StorageError::Conflict { stage, .. } => stage,
            StorageError::InvalidId { stage, .. } => stage,
            StorageError::InvariantViolation { stage, .. } => stage,
            StorageError::CreateSqliteDirectory { stage, .. } => stage,
            StorageError::SqliteConnectOptions { stage, .. } => stage,
            StorageError::SqliteConnect { stage, .. } => stage,
            StorageError::SqlitePragma { stage, .. } => stage,
            StorageError::SqliteMigrate { stage, .. } => stage,
            StorageError::SqliteQuery { stage, .. } => stage,
            StorageError::SqliteThreadSpawn { stage, .. } => stage,
            StorageError::SqliteRuntimeInit { stage, .. } => stage,
            StorageError::ReadLegacyConversationTsv { stage, .. } => stage,
        }
    }
}

/// The stage tag of a fault.
pub open spec fn stage_of(fault: Fault) -> Seq<char> {
    match fault {
        Fault::NotFound { stage, .. } => stage,
        Fault::Conflict { stage, .. } => stage,
        Fault::InvalidId { stage, .. } => stage,
        Fault::InvariantViolation { stage, .. } => stage,
        Fault::CreateSqliteDirectory { stage, .. } => stage,
        Fault::SqliteConnectOptions { stage, .. } => stage,
        Fault::SqliteConnect { stage, .. } => stage,
        Fault::SqlitePragma { stage, .. } => stage,
        Fault::SqliteMigrate { stage, .. } => stage,
        Fault::SqliteQuery { stage, .. } => stage,
        Fault::SqliteThreadSpawn { stage, .. } => stage,
        Fault::SqliteRuntimeInit { stage, .. } => stage,
        Fault::ReadLegacyConversationTsv { stage, .. } => stage,
    }
}


/// What a fault says in words.
pub open spec fn message_of(fault: Fault) -> Seq<char> {
    match fault {
        Fault::NotFound { entity, id, .. } => "storage entity '"@ + entity + "' with id '"@ + id
            + "' was not found"@,
        Fault::Conflict { entity, details, .. } => "storage conflict for '"@ + entity + "': "@
            + details,
        Fault::InvalidId { id_type, raw, .. } => "storage id '"@ + raw + "' is invalid for "@
            + id_type,
        Fault::InvariantViolation { details, .. } => "storage invariant violation: "@ + details,
        Fault::CreateSqliteDirectory { path, .. } => "failed to create sqlite directory at "@
            + path,
        Fault::SqliteConnectOptions { database_url, .. } => {
            "failed to parse sqlite connection URL '"@ + database_url + "'"@
        },
        Fault::SqliteConnect { database_url, .. } => "failed to connect sqlite database '"@
            + database_url + "'"@,
        Fault::SqlitePragma { pragma, .. } => "failed to configure sqlite pragma '"@ + pragma
            + "'"@,
        Fault::SqliteMigrate { .. } => "failed to run sqlite migrations"@,
        Fault::SqliteQuery { stage, source } => "sqlite query failed at "@ + stage + ": "@
            + source,
        Fault::SqliteThreadSpawn { .. } => "failed to spawn sqlite worker thread"@,
        Fault::SqliteRuntimeInit { .. } => "failed to initialize sqlite worker runtime"@,
        Fault::ReadLegacyConversationTsv { path, .. } => {
            "failed to read legacy conversation TSV from "@ + path
        },
    }
}

fn joined(before: &'static str, middle: &str, after: &'static str) -> (text: String)
    ensures
        text@ == before@ + middle@ + after@,
{
    let mut text = before.to_owned();
    text.append(middle);
    text.append(after);
    text
}

impl StorageError {
    /// What the error says in words.
    pub fn message(&self) -> (text: String)
        ensures
            text@ == message_of(self@),
    {
        match self {
            StorageError::NotFound { entity, id, .. } => {
                let mut text = joined("storage entity '", entity, "' with id '");
                text.append(id.as_str());
                text.append("' was not found");
                text
            },
            StorageError::Conflict { entity, details, .. } => {
                let mut text = joined("storage conflict for '", entity, "': ");
                text.append(details.as_str());
                text
            },
            StorageError::InvalidId { id_type, raw, .. } => {
                let mut text = joined("storage id '", raw.as_str(), "' is invalid for ");
                text.append(id_type);
                text
            },
            StorageError::InvariantViolation { details, .. } => {
                let mut text = "storage invariant violation: ".to_owned();
                text.append(details.as_str());
                text
            },
            StorageError::CreateSqliteDirectory { path, .. } => {
                let mut text = "failed to create sqlite directory at ".to_owned();
                text.append(path.as_str());
                text
            },
            StorageError::SqliteConnectOptions { database_url, .. } => joined(
                "failed to parse sqlite connection URL '",
                database_url.as_str(),
                "'",
            ),
            StorageError::SqliteConnect { database_url, .. } => joined(
                "failed to connect sqlite database '",
                database_url.as_str(),
                "'",
            ),
            StorageError::SqlitePragma { pragma, .. } => joined(
                "failed to configure sqlite pragma '",
                pragma,
                "'",
            ),
            StorageError::SqliteMigrate { .. } => "failed to run sqlite migrations".to_owned(),
            StorageError::SqliteQuery { stage, source } => {
                let mut text = joined("sqlite query failed at ", stage, ": ");
                text.append(source.as_str());
                text
            },
            StorageError::SqliteThreadSpawn { .. } => {
                "failed to spawn sqlite worker thread".to_owned()
            },
            StorageError::SqliteRuntimeInit { .. } => {
                "failed to initialize sqlite worker runtime".to_owned()
            },
            StorageError::ReadLegacyConversationTsv { path, .. } => {
                let mut text = "failed to read legacy conversation TSV from ".to_owned();
                text.append(path.as_str());
                text
            },
        }
    }
}

} // verus!
