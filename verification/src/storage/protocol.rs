//! The exchange between the engine and the database driver.
//!
//! The engine decides and the driver acts: an operation hands out one
//! [`Action`] at a time, and is resumed with the [`Reply`] that the driver
//! got for it, until it finishes with its result.

use vstd::prelude::*;
use crate::storage::error::{Fault, StorageError, StorageResult};
use crate::storage::rows::{
    agrees, AgentEventRow, ForkPrefixRow, ForkSourceRow, MediaRefRow, MessageRow, SessionRow,
};
use crate::storage::sql::Query;

verus! {

/// How the pool of the database is opened.
#[derive(Debug, Clone, Copy, PartialEq, Eq, Structural)]
pub struct ConnectOptions {
    pub create_if_missing: bool,
    pub foreign_keys: bool,
    pub journal_mode_wal: bool,
    pub busy_timeout_ms: u64,
    pub max_connections: u32,
}

/// What the driver is asked to do next.
#[derive(Debug, Clone, PartialEq, Eq)]
pub enum Action {
    /// Read a URL as connection options.
    ParseUrl { database_url: String },
    /// Open the pool at a URL, creating the database where it is missing.
    OpenPool { database_url: String, options: ConnectOptions },
    /// Open one connection at a URL.
    Connect { database_url: String },
    /// Begin a transaction.
    Begin,
    /// Commit the transaction.
    Commit,
    /// Run a statement that returns no rows.
    Execute(Query),
    /// Run a statement and return all its rows.
    Fetch(Query),
}

/// Rows in the shape that the statement selects.
#[derive(Debug, Clone, PartialEq, Eq)]
pub enum Rows {
    Sessions(Vec<SessionRow>),
    Messages(Vec<MessageRow>),
    ForkSources(Vec<ForkSourceRow>),
    ForkPrefix(Vec<ForkPrefixRow>),
    MediaRefs(Vec<MediaRefRow>),
    AgentEvents(Vec<AgentEventRow>),
    Integers(Vec<i64>),
    Texts(Vec<Option<String>>),
}

/// What the driver got for an action.
#[derive(Debug, Clone, PartialEq, Eq)]
pub enum Reply {
    /// The action was carried out; it returns nothing.
    Done,
    /// The statement ran and changed this many rows.
    Affected(u64),
    /// The statement ran and returned these rows.
    Rows(Rows),
    /// The driver failed, with this message.
    Failed(String),
}

/// One step of an operation: the next action together with the state to
/// resume, or the result.
#[derive(Debug)]
pub enum Step<S, T> {
    Run(S, Action),
    Finish(StorageResult<T>),
}

/// A step with its error, if any, taken as a fault.
pub enum Outcome<S, T> {
    Run(S, Action),
    Done(T),
    Fail(Fault),
}

impl<S, T> Step<S, T> {
    /// The step as an outcome.
    pub open spec fn outcome(self) -> Outcome<S, T> {
        match self {
            Step::Run(state, action) => Outcome::Run(state, action),
            Step::Finish(Ok(value)) => Outcome::Done(value),
            Step::Finish(Err(error)) => Outcome::Fail(error@),
        }
    }
}

/// An operation of the engine, as the driver runs it: on a connection opened
/// under `connect_stage`, it performs the action of `start` and of every
/// `resume` until one of them finishes.
pub trait Operation: Sized {
    type Output;

    /// The stage tag under which a failure to connect is reported.
    fn connect_stage(&self) -> &'static str;

    /// The first step.
    fn start(self) -> Step<Self, Self::Output>;

    /// The step that follows the reply to the last action.
    fn resume(self, reply: Reply) -> Step<Self, Self::Output>;
}

/// The fault of a statement that the driver failed to run.
pub open spec fn query_fault(stage: Seq<char>, source: Seq<char>) -> Fault {
    Fault::SqliteQuery { stage, source }
}

/// The fault of a reply that does not answer the action.
pub open spec fn unexpected(stage: Seq<char>) -> Fault {
    Fault::InvariantViolation {
        stage,
        details: "database driver returned an unexpected reply"@,
    }
}

/// The fault of a statement that must return a row and returned none.
pub open spec fn no_row(stage: Seq<char>) -> Fault {
    Fault::SqliteQuery {
        stage,
        source: "the statement returned no row where one is required"@,
    }
}

fn unexpected_reply(stage: &'static str) -> (error: StorageError)
    ensures
        error@ == unexpected(stage@),
{
    StorageError::InvariantViolation {
        stage,
        details: "database driver returned an unexpected reply".to_owned(),
    }
}

fn missing_row(stage: &'static str) -> (error: StorageError)
    ensures
        error@ == no_row(stage@),
{
    StorageError::SqliteQuery {
        stage,
        source: "the statement returned no row where one is required".to_owned(),
    }
}

/// The reply to an action that returns nothing.
pub open spec fn done_of(reply: Reply, stage: Seq<char>) -> Result<(), Fault> {
    match reply {
        Reply::Done => Ok(()),
        Reply::Failed(source) => Err(query_fault(stage, source@)),
        _ => Err(unexpected(stage)),
    }
}

pub(crate) fn expect_done(reply: Reply, stage: &'static str) -> (result: StorageResult<()>)
    ensures
        agrees(result, done_of(reply, stage@)),
{
    match reply {
        Reply::Done => Ok(()),
        Reply::Failed(source) => Err(StorageError::SqliteQuery { stage, source }),
        _ => Err(unexpected_reply(stage)),
    }
}

/// The number of rows that a statement changed. A reply with rows, or with
/// nothing, is taken as a statement that ran.
pub open spec fn affected_of(reply: Reply, stage: Seq<char>) -> Result<u64, Fault> {
    match reply {
        Reply::Affected(count) => Ok(count),
        Reply::Failed(source) => Err(query_fault(stage, source@)),
        _ => Err(unexpected(stage)),
    }
}

pub(crate) fn expect_affected(reply: Reply, stage: &'static str) -> (result: StorageResult<u64>)
    ensures
        agrees(result, affected_of(reply, stage@)),
{
    match reply {
        Reply::Affected(count) => Ok(count),
        Reply::Failed(source) => Err(StorageError::SqliteQuery { stage, source }),
        _ => Err(unexpected_reply(stage)),
    }
}

/// The rows of a reply.
pub open spec fn rows_of(reply: Reply, stage: Seq<char>) -> Result<Rows, Fault> {
    match reply {
        Reply::Rows(rows) => Ok(rows),
        Reply::Failed(source) => Err(query_fault(stage, source@)),
        _ => Err(unexpected(stage)),
    }
}

pub(crate) fn expect_rows(reply: Reply, stage: &'static str) -> (result: StorageResult<Rows>)
    ensures
        agrees(result, rows_of(reply, stage@)),
{
    match reply {
        Reply::Rows(rows) => Ok(rows),
        Reply::Failed(source) => Err(StorageError::SqliteQuery { stage, source }),
        _ => Err(unexpected_reply(stage)),
    }
}

/// The session rows of a reply.
pub open spec fn sessions_of(reply: Reply, stage: Seq<char>) -> Result<Vec<SessionRow>, Fault> {
    match rows_of(reply, stage) {
        Ok(Rows::Sessions(rows)) => Ok(rows),
        Ok(_) => Err(unexpected(stage)),
        Err(fault) => Err(fault),
    }
}

pub(crate) fn expect_sessions(reply: Reply, stage: &'static str) -> (result: StorageResult<
    Vec<SessionRow>,
>)
    ensures
        agrees(result, sessions_of(reply, stage@)),
{
    match expect_rows(reply, stage) {
        Ok(Rows::Sessions(rows)) => Ok(rows),
        Ok(_) => Err(unexpected_reply(stage)),
        Err(error) => Err(error),
    }
}

/// The message rows of a reply.
pub open spec fn messages_of(reply: Reply, stage: Seq<char>) -> Result<Vec<MessageRow>, Fault> {
    match rows_of(reply, stage) {
        Ok(Rows::Messages(rows)) => Ok(rows),
        Ok(_) => Err(unexpected(stage)),
        Err(fault) => Err(fault),
    }
}

pub(crate) fn expect_messages(reply: Reply, stage: &'static str) -> (result: StorageResult<
    Vec<MessageRow>,
>)
    ensures
        agrees(result, messages_of(reply, stage@)),
{
    match expect_rows(reply, stage) {
        Ok(Rows::Messages(rows)) => Ok(rows),
        Ok(_) => Err(unexpected_reply(stage)),
        Err(error) => Err(error),
    }
}

/// The fork source rows of a reply.
pub open spec fn fork_sources_of(reply: Reply, stage: Seq<char>) -> Result<
    Vec<ForkSourceRow>,
    Fault,
> {
    match rows_of(reply, stage) {
        Ok(Rows::ForkSources(rows)) => Ok(rows),
        Ok(_) => Err(unexpected(stage)),
        Err(fault) => Err(fault),
    }
}

pub(crate) fn expect_fork_sources(reply: Reply, stage: &'static str) -> (result: StorageResult<
    Vec<ForkSourceRow>,
>)
    ensures
        agrees(result, fork_sources_of(reply, stage@)),
{
    match expect_rows(reply, stage) {
        Ok(Rows::ForkSources(rows)) => Ok(rows),
        Ok(_) => Err(unexpected_reply(stage)),
        Err(error) => Err(error),
    }
}

/// The fork prefix rows of a reply.
pub open spec fn fork_prefix_of(reply: Reply, stage: Seq<char>) -> Result<
    Vec<ForkPrefixRow>,
    Fault,
> {
    match rows_of(reply, stage) {
        Ok(Rows::ForkPrefix(rows)) => Ok(rows),
        Ok(_) => Err(unexpected(stage)),
        Err(fault) => Err(fault),
    }
}

pub(crate) fn expect_fork_prefix(reply: Reply, stage: &'static str) -> (result: StorageResult<
    Vec<ForkPrefixRow>,
>)
    ensures
        agrees(result, fork_prefix_of(reply, stage@)),
{
    match expect_rows(reply, stage) {
        Ok(Rows::ForkPrefix(rows)) => Ok(rows),
        Ok(_) => Err(unexpected_reply(stage)),
        Err(error) => Err(error),
    }
}

/// The media reference rows of a reply.
pub open spec fn media_refs_of(reply: Reply, stage: Seq<char>) -> Result<Vec<MediaRefRow>, Fault> {
    match rows_of(reply, stage) {
        Ok(Rows::MediaRefs(rows)) => Ok(rows),
        Ok(_) => Err(unexpected(stage)),
        Err(fault) => Err(fault),
    }
}

pub(crate) fn expect_media_refs(reply: Reply, stage: &'static str) -> (result: StorageResult<
    Vec<MediaRefRow>,
>)
    ensures
        agrees(result, media_refs_of(reply, stage@)),
{
    match expect_rows(reply, stage) {
        Ok(Rows::MediaRefs(rows)) => Ok(rows),
        Ok(_) => Err(unexpected_reply(stage)),
        Err(error) => Err(error),
    }
}

/// The agent event rows of a reply.
pub open spec fn agent_events_of(reply: Reply, stage: Seq<char>) -> Result<
    Vec<AgentEventRow>,
    Fault,
> {
    match rows_of(reply, stage) {
        Ok(Rows::AgentEvents(rows)) => Ok(rows),
        Ok(_) => Err(unexpected(stage)),
        Err(fault) => Err(fault),
    }
}

pub(crate) fn expect_agent_events(reply: Reply, stage: &'static str) -> (result: StorageResult<
    Vec<AgentEventRow>,
>)
    ensures
        agrees(result, agent_events_of(reply, stage@)),
{
    match expect_rows(reply, stage) {
        Ok(Rows::AgentEvents(rows)) => Ok(rows),
        Ok(_) => Err(unexpected_reply(stage)),
        Err(error) => Err(error),
    }
}

/// The first integer of a reply, if it has a row.
pub open spec fn first_integer_of(reply: Reply, stage: Seq<char>) -> Result<Option<i64>, Fault> {
    match rows_of(reply, stage) {
        Ok(Rows::Integers(rows)) => if rows@.len() == 0 {
            Ok(None)
        } else {
            Ok(Some(rows@[0]))
        },
        Ok(_) => Err(unexpected(stage)),
        Err(fault) => Err(fault),
    }
}

pub(crate) fn expect_first_integer(reply: Reply, stage: &'static str) -> (result: StorageResult<
    Option<i64>,
>)
    ensures
        agrees(result, first_integer_of(reply, stage@)),
{
    match expect_rows(reply, stage) {
        Ok(Rows::Integers(rows)) => if rows.len() == 0 {
            Ok(None)
        } else {
            Ok(Some(rows[0]))
        },
        Ok(_) => Err(unexpected_reply(stage)),
        Err(error) => Err(error),
    }
}

/// The integer of a reply that must have a row.
pub open spec fn one_integer_of(reply: Reply, stage: Seq<char>) -> Result<i64, Fault> {
    match first_integer_of(reply, stage) {
        Ok(Some(value)) => Ok(value),
        Ok(None) => Err(no_row(stage)),
        Err(fault) => Err(fault),
    }
}

pub(crate) fn expect_one_integer(reply: Reply, stage: &'static str) -> (result: StorageResult<i64>)
    ensures
        agrees(result, one_integer_of(reply, stage@)),
{
    match expect_first_integer(reply, stage) {
        Ok(Some(value)) => Ok(value),
        Ok(None) => Err(missing_row(stage)),
        Err(error) => Err(error),
    }
}

/// Whether a reply has a row: the answer of a query that asks whether
/// something exists.
pub open spec fn exists_of(reply: Reply, stage: Seq<char>) -> Result<bool, Fault> {
    match first_integer_of(reply, stage) {
        Ok(found) => Ok(found is Some),
        Err(fault) => Err(fault),
    }
}

pub(crate) fn expect_exists(reply: Reply, stage: &'static str) -> (result: StorageResult<bool>)
    ensures
        agrees(result, exists_of(reply, stage@)),
{
    match expect_first_integer(reply, stage) {
        Ok(found) => Ok(found.is_some()),
        Err(error) => Err(error),
    }
}

/// The first text of a reply, if it has a row; the text itself may be null.
pub open spec fn first_text_of(reply: Reply, stage: Seq<char>) -> Result<
    Option<Option<String>>,
    Fault,
> {
    match rows_of(reply, stage) {
        Ok(Rows::Texts(rows)) => if rows@.len() == 0 {
            Ok(None)
        } else {
            Ok(Some(rows@[0]))
        },
        Ok(_) => Err(unexpected(stage)),
        Err(fault) => Err(fault),
    }
}

pub(crate) fn expect_first_text(reply: Reply, stage: &'static str) -> (result: StorageResult<
    Option<Option<String>>,
>)
    ensures
        agrees(result, first_text_of(reply, stage@)),
{
    match expect_rows(reply, stage) {
        Ok(Rows::Texts(rows)) => {
            let mut rows = rows;
            if rows.len() == 0 {
                Ok(None)
            } else {
                Ok(Some(rows.remove(0)))
            }
        },
        Ok(_) => Err(unexpected_reply(stage)),
        Err(error) => Err(error),
    }
}


/// The message of a reply that reports a failure.
pub open spec fn failure_of(reply: Reply) -> Option<String> {
    match reply {
        Reply::Failed(source) => Some(source),
        _ => None,
    }
}

pub(crate) fn failure(reply: Reply) -> (source: Option<String>)
    ensures
        source == failure_of(reply),
{
    match reply {
        Reply::Failed(source) => Some(source),
        _ => None,
    }
}

} // verus!
