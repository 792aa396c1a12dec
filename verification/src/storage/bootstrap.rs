//! Opening the database: where it lives, how a connection is prepared, and
//! the schema.

use vstd::prelude::*;
use vstd::string::StringExecFns;
use crate::storage::error::{Fault, StorageError, StorageResult};
use crate::storage::protocol::{
    expect_first_text, failure, failure_of, first_text_of, Action, ConnectOptions, Operation,
    Outcome, Reply, Step,
};
use crate::storage::rows::agrees;
use crate::storage::sql::{Query, Table};
use crate::text::{occurs_at, same_text, starts_with};

verus! {

/// Whether a location names the database by URL or in memory, rather than
/// by a path in the file system.
pub open spec fn is_url_or_memory(location: Seq<char>) -> bool {
    occurs_at(location, "sqlite:"@, 0) || location == ":memory:"@
}

/// Whether the directory of the database file has to exist before the
/// database is opened: it has for a path, not for a URL or for memory.
pub fn needs_directory(database_location: &str) -> (needed: bool)
    ensures
        needed == !is_url_or_memory(database_location@),
{
    !(starts_with(database_location, "sqlite:") || same_text(database_location, ":memory:"))
}

/// The URL of a location: a URL is kept, memory has its own URL, and a path
/// is put behind `sqlite://`.
pub open spec fn normalized_url(location: Seq<char>) -> Seq<char> {
    if occurs_at(location, "sqlite:"@, 0) {
        location
    } else if location == ":memory:"@ {
        "sqlite::memory:"@
    } else {
        "sqlite://"@ + location
    }
}

/// The URL under which the database at a location is opened.
pub fn normalize_database_url(database_location: &str) -> (url: String)
    ensures
        url@ == normalized_url(database_location@),
{
    if starts_with(database_location, "sqlite:") {
        database_location.to_owned()
    } else if same_text(database_location, ":memory:") {
        "sqlite::memory:".to_owned()
    } else {
        let mut url = "sqlite://".to_owned();
        url.append(database_location);
        url
    }
}

/// The options under which the pool is opened: the file is created where it
/// is missing, foreign keys are enforced, the journal is a write-ahead log,
/// a busy database is waited for 5000 ms, and one connection writes.
pub open spec fn pool_options() -> ConnectOptions {
    ConnectOptions {
        create_if_missing: true,
        foreign_keys: true,
        journal_mode_wal: true,
        busy_timeout_ms: 5000,
        max_connections: 1,
    }
}

/// The table that the schema creates after `table`.
pub open spec fn table_after(table: Table) -> Option<Table> {
    match table {
        Table::Sessions => Some(Table::Branches),
        Table::Branches => Some(Table::Messages),
        Table::Messages => Some(Table::MediaRefs),
        Table::MediaRefs => Some(Table::AgentEvents),
        Table::AgentEvents => None,
    }
}

fn following(table: Table) -> (next: Option<Table>)
    ensures
        next == table_after(table),
{
    match table {
        Table::Sessions => Some(Table::Branches),
        Table::Branches => Some(Table::Messages),
        Table::Messages => Some(Table::MediaRefs),
        Table::MediaRefs => Some(Table::AgentEvents),
        Table::AgentEvents => None,
    }
}

/// The fault of a pragma that could not be set.
pub open spec fn pragma_fault(stage: Seq<char>, pragma: Seq<char>, source: Seq<char>) -> Fault {
    Fault::SqlitePragma { stage, pragma, source }
}

/// The fault of a journal mode that could not be set or read back.
pub open spec fn journal_fault(source: Seq<char>) -> Fault {
    pragma_fault("sqlite-open-pragma-journal-mode"@, "journal_mode"@, source)
}

/// The journal mode that the database reports after it was set. The
/// statement must return a row that holds a text: a failure, a reply without
/// a row and a row that holds null are each the fault of the pragma, and a
/// reply of another kind is unexpected.
pub open spec fn journal_mode_of(reply: Reply) -> Result<String, Fault> {
    match failure_of(reply) {
        Some(source) => Err(journal_fault(source@)),
        None => match first_text_of(reply, "sqlite-open-pragma-journal-mode"@) {
            Err(fault) => Err(fault),
            Ok(None) => Err(
                journal_fault(
                    "the statement returned no row where one is required"@,
                ),
            ),
            Ok(Some(None)) => Err(
                journal_fault(
                    "the journal mode came back as null"@,
                ),
            ),
            Ok(Some(Some(mode))) => Ok(mode),
        },
    }
}

/// Reads the journal mode from the reply to `JournalModeWal`.
pub fn read_journal_mode(reply: Reply) -> (result: StorageResult<String>)
    ensures
        agrees(result, journal_mode_of(reply)),
{
    match reply {
        Reply::Failed(source) => Err(
            StorageError::SqlitePragma {
                stage: "sqlite-open-pragma-journal-mode",
                pragma: "journal_mode",
                source,
            },
        ),
        other => match expect_first_text(other, "sqlite-open-pragma-journal-mode") {
            Err(error) => Err(error),
            Ok(None) => Err(
                StorageError::SqlitePragma {
                    stage: "sqlite-open-pragma-journal-mode",
                    pragma: "journal_mode",
                    source: "the statement returned no row where one is required".to_owned(),
                },
            ),
            Ok(Some(None)) => Err(
                StorageError::SqlitePragma {
                    stage: "sqlite-open-pragma-journal-mode",
                    pragma: "journal_mode",
                    source: "the journal mode came back as null".to_owned(),
                },
            ),
            Ok(Some(Some(mode))) => Ok(mode),
        },
    }
}

/// Where the opening of the database stands.
#[derive(Debug, Clone, Copy, PartialEq, Eq, Structural)]
pub enum OpenPhase {
    ParseUrl,
    Pool,
    JournalMode,
    ForeignKeys,
    BusyTimeout,
    Migrate { table: Table },
}

/// Opens the database at a URL: the pool, then the three pragmas, then the
/// five tables. It reports the URL under which connections are opened.
#[derive(Debug)]
pub struct OpenStorage {
    pub database_url: String,
    pub phase: OpenPhase,
}

impl OpenStorage {
    /// The opening of the database at a location.
    pub fn new(database_location: &str) -> (op: Self)
        ensures
            op.database_url@ == normalized_url(database_location@),
            op.phase == OpenPhase::ParseUrl,
    {
        OpenStorage {
            database_url: normalize_database_url(database_location),
            phase: OpenPhase::ParseUrl,
        }
    }

    /// The step after `reply`. A failure is reported under the stage at
    /// which it came. The journal mode must be reported back by a row; at
    /// every other step each reply but a failure lets the opening go on.
    pub open spec fn next(self, reply: Reply) -> Outcome<Self, String> {
        match self.phase {
            OpenPhase::ParseUrl => match failure_of(reply) {
                Some(source) => Outcome::Fail(
                    Fault::SqliteConnectOptions {
                        stage: "sqlite-open-parse-url"@,
                        database_url: self.database_url@,
                        source: source@,
                    },
                ),
                None => Outcome::Run(
                    OpenStorage { phase: OpenPhase::Pool, ..self },
                    Action::OpenPool { database_url: self.database_url, options: pool_options() },
                ),
            },
            OpenPhase::Pool => match failure_of(reply) {
                Some(source) => Outcome::Fail(
                    Fault::SqliteConnect {
                        stage: "sqlite-open-connect"@,
                        database_url: self.database_url@,
                        source: source@,
                    },
                ),
                None => Outcome::Run(
                    OpenStorage { phase: OpenPhase::JournalMode, ..self },
                    Action::Fetch(Query::JournalModeWal),
                ),
            },
            OpenPhase::JournalMode => match journal_mode_of(reply) {
                Err(fault) => Outcome::Fail(fault),
                Ok(_) => Outcome::Run(
                    OpenStorage { phase: OpenPhase::ForeignKeys, ..self },
                    Action::Execute(Query::ForeignKeysOn),
                ),
            },
            OpenPhase::ForeignKeys => match failure_of(reply) {
                Some(source) => Outcome::Fail(
                    pragma_fault("sqlite-open-pragma-foreign-keys"@, "foreign_keys"@, source@),
                ),
                None => Outcome::Run(
                    OpenStorage { phase: OpenPhase::BusyTimeout, ..self },
                    Action::Execute(Query::BusyTimeout),
                ),
            },
            OpenPhase::BusyTimeout => match failure_of(reply) {
                Some(source) => Outcome::Fail(
                    pragma_fault("sqlite-open-pragma-busy-timeout"@, "busy_timeout"@, source@),
                ),
                None => Outcome::Run(
                    OpenStorage { phase: OpenPhase::Migrate { table: Table::Sessions }, ..self },
                    Action::Execute(Query::CreateTable { table: Table::Sessions }),
                ),
            },
            OpenPhase::Migrate { table } => match failure_of(reply) {
                Some(source) => Outcome::Fail(
                    Fault::SqliteMigrate { stage: "sqlite-open-migrate"@, source: source@ },
                ),
                None => match table_after(table) {
                    Some(next) => Outcome::Run(
                        OpenStorage { phase: OpenPhase::Migrate { table: next }, ..self },
                        Action::Execute(Query::CreateTable { table: next }),
                    ),
                    None => Outcome::Done(self.database_url),
                },
            },
        }
    }
}

impl Operation for OpenStorage {
    type Output = String;

    fn connect_stage(&self) -> (stage: &'static str)
        ensures
            stage@ == "sqlite-open-connect"@,
    {
        "sqlite-open-connect"
    }

    fn start(self) -> (step: Step<Self, String>)
        ensures
            step == Step::<Self, String>::Run(
                self,
                Action::ParseUrl { database_url: self.database_url },
            ),
    {
        let database_url = self.database_url.clone();
        Step::Run(self, Action::ParseUrl { database_url })
    }

    fn resume(self, reply: Reply) -> (step: Step<Self, String>)
        ensures
            step.outcome() == self.next(reply),
    {
        match self.phase {
            OpenPhase::ParseUrl => match failure(reply) {
                Some(source) => Step::Finish(
                    Err(
                        StorageError::SqliteConnectOptions {
                            stage: "sqlite-open-parse-url",
                            database_url: self.database_url,
                            source,
                        },
                    ),
                ),
                None => {
                    let database_url = self.database_url.clone();
                    Step::Run(
                        OpenStorage { phase: OpenPhase::Pool, ..self },
                        Action::OpenPool {
                            database_url,
                            options: ConnectOptions {
                                create_if_missing: true,
                                foreign_keys: true,
                                journal_mode_wal: true,
                                busy_timeout_ms: 5000,
                                max_connections: 1,
                            },
                        },
                    )
                },
            },
            OpenPhase::Pool => match failure(reply) {
                Some(source) => Step::Finish(
                    Err(
                        StorageError::SqliteConnect {
                            stage: "sqlite-open-connect",
                            database_url: self.database_url,
                            source,
                        },
                    ),
                ),
                None => Step::Run(
                    OpenStorage { phase: OpenPhase::JournalMode, ..self },
                    Action::Fetch(Query::JournalModeWal),
                ),
            },
            OpenPhase::JournalMode => match read_journal_mode(reply) {
                Err(error) => Step::Finish(Err(error)),
                Ok(_) => Step::Run(
                    OpenStorage { phase: OpenPhase::ForeignKeys, ..self },
                    Action::Execute(Query::ForeignKeysOn),
                ),
            },
            OpenPhase::ForeignKeys => match failure(reply) {
                Some(source) => Step::Finish(
                    Err(
                        StorageError::SqlitePragma {
                            stage: "sqlite-open-pragma-foreign-keys",
                            pragma: "foreign_keys",
                            source,
                        },
                    ),
                ),
                None => Step::Run(
                    OpenStorage { phase: OpenPhase::BusyTimeout, ..self },
                    Action::Execute(Query::BusyTimeout),
                ),
            },
            OpenPhase::BusyTimeout => match failure(reply) {
                Some(source) => Step::Finish(
                    Err(
                        StorageError::SqlitePragma {
                            stage: "sqlite-open-pragma-busy-timeout",
                            pragma: "busy_timeout",
                            source,
                        },
                    ),
                ),
                None => Step::Run(
                    OpenStorage { phase: OpenPhase::Migrate { table: Table::Sessions }, ..self },
                    Action::Execute(Query::CreateTable { table: Table::Sessions }),
                ),
            },
            OpenPhase::Migrate { table } => match failure(reply) {
                Some(source) => Step::Finish(
                    Err(StorageError::SqliteMigrate { stage: "sqlite-open-migrate", source }),
                ),
                None => match following(table) {
                    Some(next) => Step::Run(
                        OpenStorage { phase: OpenPhase::Migrate { table: next }, ..self },
                        Action::Execute(Query::CreateTable { table: next }),
                    ),
                    None => Step::Finish(Ok(self.database_url)),
                },
            },
        }
    }
}

/// Where the preparation of a connection stands.
#[derive(Debug, Clone, Copy, PartialEq, Eq, Structural)]
pub enum ConnectPhase {
    Connect,
    ForeignKeys,
    BusyTimeout,
}

/// Prepares the connection of one operation: it connects, enforces foreign
/// keys, and sets the busy timeout.
#[derive(Debug)]
pub struct ConnectStore {
    pub database_url: String,
    pub stage: &'static str,
    pub phase: ConnectPhase,
}

impl ConnectStore {
    /// The preparation of a connection for an operation whose failures to
    /// connect are reported under `stage`.
    pub fn new(database_url: String, stage: &'static str) -> (op: Self)
        ensures
            op.database_url == database_url,
            op.stage == stage,
            op.phase == ConnectPhase::Connect,
    {
        ConnectStore { database_url, stage, phase: ConnectPhase::Connect }
    }

    /// The step after `reply`.
    pub open spec fn next(self, reply: Reply) -> Outcome<Self, ()> {
        match self.phase {
            ConnectPhase::Connect => match failure_of(reply) {
                Some(source) => Outcome::Fail(
                    Fault::SqliteConnect {
                        stage: self.stage@,
                        database_url: self.database_url@,
                        source: source@,
                    },
                ),
                None => Outcome::Run(
                    ConnectStore { phase: ConnectPhase::ForeignKeys, ..self },
                    Action::Execute(Query::ForeignKeysOn),
                ),
            },
            ConnectPhase::ForeignKeys => match failure_of(reply) {
                Some(source) => Outcome::Fail(
                    pragma_fault("sqlite-store-pragma-foreign-keys"@, "foreign_keys"@, source@),
                ),
                None => Outcome::Run(
                    ConnectStore { phase: ConnectPhase::BusyTimeout, ..self },
                    Action::Execute(Query::BusyTimeout),
                ),
            },
            ConnectPhase::BusyTimeout => match failure_of(reply) {
                Some(source) => Outcome::Fail(
                    pragma_fault("sqlite-store-pragma-busy-timeout"@, "busy_timeout"@, source@),
                ),
                None => Outcome::Done(()),
            },
        }
    }
}

impl Operation for ConnectStore {
    type Output = ();

    fn connect_stage(&self) -> (stage: &'static str)
        ensures
            stage == self.stage,
    {
        self.stage
    }

    fn start(self) -> (step: Step<Self, ()>)
        ensures
            step == Step::<Self, ()>::Run(
                self,
                Action::Connect { database_url: self.database_url },
            ),
    {
        let database_url = self.database_url.clone();
        Step::Run(self, Action::Connect { database_url })
    }

    fn resume(self, reply: Reply) -> (step: Step<Self, ()>)
        ensures
            step.outcome() == self.next(reply),
    {
        match self.phase {
            ConnectPhase::Connect => match failure(reply) {
                Some(source) => Step::Finish(
                    Err(
                        StorageError::SqliteConnect {
                            stage: self.stage,
                            database_url: self.database_url,
                            source,
                        },
                    ),
                ),
                None => Step::Run(
                    ConnectStore { phase: ConnectPhase::ForeignKeys, ..self },
                    Action::Execute(Query::ForeignKeysOn),
                ),
            },
            ConnectPhase::ForeignKeys => match failure(reply) {
                Some(source) => Step::Finish(
                    Err(
                        StorageError::SqlitePragma {
                            stage: "sqlite-store-pragma-foreign-keys",
                            pragma: "foreign_keys",
                            source,
                        },
                    ),
                ),
                None => Step::Run(
                    ConnectStore { phase: ConnectPhase::BusyTimeout, ..self },
                    Action::Execute(Query::BusyTimeout),
                ),
            },
            ConnectPhase::BusyTimeout => match failure(reply) {
                Some(source) => Step::Finish(
                    Err(
                        StorageError::SqlitePragma {
                            stage: "sqlite-store-pragma-busy-timeout",
                            pragma: "busy_timeout",
                            source,
                        },
                    ),
                ),
                None => Step::Finish(Ok(())),
            },
        }
    }
}

} // verus!
