//! Media reference operations: attach, list, soft-delete.
//!
//! A media reference points at an attachment; the payload itself is never
//! stored, so a URI that carries one inline is refused.

use vstd::prelude::*;
use crate::storage::clock::unix_timestamp_seconds;
use crate::storage::error::{Fault, StorageError, StorageResult};
use crate::storage::ids::{is_version_7, MediaRefId, MessageId, SessionId};
use crate::storage::messages::{message_missing, message_not_found};
use crate::storage::protocol::{
    affected_of, exists_of, expect_affected, expect_exists, expect_media_refs, media_refs_of,
    Action, Operation, Outcome, Reply, Step,
};
use crate::storage::rows::{
    agrees, maps_all, media_ref_record_of, media_ref_rows_to_records, opt_to_i64, opt_u64_to_i64,
    to_i64, u64_to_i64, MediaRefRow,
};
use crate::storage::sql::Query;
use crate::storage::types::{MediaRefRecord, NewMediaRef};
use crate::text::{chars_of, found_at, found_in, lowered, lowered_chars, occurs, occurs_at};

verus! {

/// Whether a URI looks like an inline payload: it has the scheme `data:`, or
/// it holds the marker `;base64,`, in capitals or not.
pub open spec fn is_blob_like(uri: Seq<char>) -> bool {
    occurs_at(lowered(uri), "data:"@, 0) || occurs(lowered(uri), ";base64,"@)
}

/// The fault of a URI that carries a payload.
pub open spec fn blob_fault(stage: Seq<char>) -> Fault {
    Fault::Conflict {
        stage,
        entity: "media_ref"@,
        details: "blob payloads are not allowed; store URI/path references only"@,
    }
}

/// Accepts a URI that is a reference; refuses one that looks like an inline
/// payload with `Conflict`.
pub fn validate_media_uri(uri: &str, stage: &'static str) -> (result: StorageResult<()>)
    ensures
        agrees(
            result,
            if is_blob_like(uri@) {
                Err(blob_fault(stage@))
            } else {
                Ok(())
            },
        ),
{
    let lower = lowered_chars(uri);
    let scheme = chars_of("data:");
    let marker = chars_of(";base64,");
    if found_at(&lower, &scheme, 0) || found_in(&lower, &marker) {
        Err(
            StorageError::Conflict {
                stage,
                entity: "media_ref",
                details: "blob payloads are not allowed; store URI/path references only".to_owned(),
            },
        )
    } else {
        Ok(())
    }
}

/// What the reply to `MessageExists` says of a message: nothing where it is
/// a live message of the session, `NotFound` under `stage` where it is not.
pub open spec fn message_in_session_of(reply: Reply, message_id: MessageId, stage: Seq<char>) -> Result<
    (),
    Fault,
> {
    match exists_of(reply, "message-exists-in-scope-query"@) {
        Err(fault) => Err(fault),
        Ok(exists) => if exists {
            Ok(())
        } else {
            Err(message_not_found(stage, message_id))
        },
    }
}

/// Checks, from the reply to `MessageExists`, that a message is a live
/// message of the session.
pub fn ensure_message_in_session(reply: Reply, message_id: MessageId, stage: &'static str) -> (result:
    StorageResult<()>)
    ensures
        agrees(result, message_in_session_of(reply, message_id, stage@)),
{
    match expect_exists(reply, "message-exists-in-scope-query") {
        Err(error) => Err(error),
        Ok(exists) => if exists {
            Ok(())
        } else {
            Err(message_missing(stage, message_id))
        },
    }
}

/// The fault of a media reference that is not there.
pub open spec fn media_ref_not_found(stage: Seq<char>, id: MediaRefId) -> Fault {
    Fault::NotFound { stage, entity: "media_ref"@, id: id.text() }
}

/// Where an attachment stands.
#[derive(Debug, Clone, Copy, PartialEq, Eq, Structural)]
pub enum AttachPhase {
    Ensure,
    Insert,
}

/// Attaches a media reference to a live message of a session.
#[derive(Debug)]
pub struct AttachMedia {
    pub session_id: SessionId,
    pub message_id: MessageId,
    pub media_ref_id: MediaRefId,
    pub input: NewMediaRef,
    pub now: i64,
    pub phase: AttachPhase,
}

/// A width or height as a stored integer.
pub open spec fn opt_px(value: Option<u32>) -> Option<i64> {
    match value {
        Some(value) => Some(value as i64),
        None => None,
    }
}

fn px(value: Option<u32>) -> (stored: Option<i64>)
    ensures
        stored == opt_px(value),
{
    match value {
        Some(value) => Some(value as i64),
        None => None,
    }
}

impl AttachMedia {
    /// An attachment with a fresh identifier of version 7, at the current
    /// time.
    pub fn new(session_id: SessionId, message_id: MessageId, input: NewMediaRef) -> (op: Self)
        ensures
            op.session_id == session_id,
            is_version_7(op.media_ref_id.0),
            op.message_id == message_id,
            op.input == input,
            op.phase == AttachPhase::Ensure,
    {
        AttachMedia {
            session_id,
            message_id,
            media_ref_id: MediaRefId::new_v7(),
            input,
            now: unix_timestamp_seconds(),
            phase: AttachPhase::Ensure,
        }
    }

    /// The insert of the reference, or the fault that refuses it: a URI that
    /// carries a payload first, then a size or duration that cannot be
    /// stored.
    pub open spec fn insert(self) -> Result<Query, Fault> {
        if is_blob_like(self.input.uri@) {
            Err(blob_fault("media-attach-validate-uri"@))
        } else {
            match to_i64(self.input.size_bytes, "media-attach-size-bytes"@) {
                Err(fault) => Err(fault),
                Ok(size_bytes) => match opt_to_i64(
                    self.input.duration_ms,
                    "media-attach-duration-ms"@,
                ) {
                    Err(fault) => Err(fault),
                    Ok(duration_ms) => Ok(
                        Query::InsertMediaRef {
                            id: self.media_ref_id,
                            session_id: self.session_id,
                            message_id: self.message_id,
                            uri: self.input.uri,
                            mime_type: self.input.mime_type,
                            size_bytes,
                            duration_ms,
                            width_px: opt_px(self.input.width_px),
                            height_px: opt_px(self.input.height_px),
                            sha256_hex: self.input.sha256_hex,
                            at: self.now,
                        },
                    ),
                },
            }
        }
    }

    /// The reference that the attachment reports.
    pub open spec fn attached(self) -> MediaRefRecord {
        MediaRefRecord {
            id: self.media_ref_id,
            session_id: self.session_id,
            message_id: self.message_id,
            uri: self.input.uri,
            mime_type: self.input.mime_type,
            size_bytes: self.input.size_bytes,
            duration_ms: self.input.duration_ms,
            width_px: self.input.width_px,
            height_px: self.input.height_px,
            sha256_hex: self.input.sha256_hex,
            deleted_at_unix_seconds: None,
        }
    }

    /// The step after `reply`: the message must be a live message of the
    /// session, and the URI a reference, before anything is inserted.
    pub open spec fn next(self, reply: Reply) -> Outcome<Self, MediaRefRecord> {
        match self.phase {
            AttachPhase::Ensure => match message_in_session_of(
                reply,
                self.message_id,
                "media-attach-ensure-message"@,
            ) {
                Err(fault) => Outcome::Fail(fault),
                Ok(_) => match self.insert() {
                    Err(fault) => Outcome::Fail(fault),
                    Ok(query) => Outcome::Run(
                        AttachMedia { phase: AttachPhase::Insert, ..self },
                        Action::Execute(query),
                    ),
                },
            },
            AttachPhase::Insert => match affected_of(reply, "media-attach-insert"@) {
                Err(fault) => Outcome::Fail(fault),
                Ok(_) => Outcome::Done(self.attached()),
            },
        }
    }

    fn build_insert(&self) -> (result: StorageResult<Query>)
        ensures
            agrees(result, self.insert()),
    {
        validate_media_uri(self.input.uri.as_str(), "media-attach-validate-uri")?;
        let size_bytes = u64_to_i64(self.input.size_bytes, "media-attach-size-bytes")?;
        let duration_ms = opt_u64_to_i64(self.input.duration_ms, "media-attach-duration-ms")?;
        Ok(
            Query::InsertMediaRef {
                id: self.media_ref_id,
                session_id: self.session_id,
                message_id: self.message_id,
                uri: self.input.uri.clone(),
                mime_type: self.input.mime_type.clone(),
                size_bytes,
                duration_ms,
                width_px: px(self.input.width_px),
                height_px: px(self.input.height_px),
                sha256_hex: clone_opt_text(&self.input.sha256_hex),
                at: self.now,
            },
        )
    }
}

fn clone_opt_text(text: &Option<String>) -> (copy: Option<String>)
    ensures
        copy == *text,
{
    match text {
        Some(text) => Some(text.clone()),
        None => None,
    }
}

impl Operation for AttachMedia {
    type Output = MediaRefRecord;

    fn connect_stage(&self) -> (stage: &'static str)
        ensures
            stage@ == "media-attach-connect"@,
    {
        "media-attach-connect"
    }

    fn start(self) -> (step: Step<Self, MediaRefRecord>)
        ensures
            step == Step::<Self, MediaRefRecord>::Run(
                self,
                Action::Fetch(
                    Query::MessageExists { session_id: self.session_id, id: self.message_id },
                ),
            ),
    {
        let query = Query::MessageExists { session_id: self.session_id, id: self.message_id };
        Step::Run(self, Action::Fetch(query))
    }

    fn resume(self, reply: Reply) -> (step: Step<Self, MediaRefRecord>)
        ensures
            step.outcome() == self.next(reply),
    {
        match self.phase {
            AttachPhase::Ensure => match ensure_message_in_session(
                reply,
                self.message_id,
                "media-attach-ensure-message",
            ) {
                Err(error) => Step::Finish(Err(error)),
                Ok(_) => match self.build_insert() {
                    Err(error) => Step::Finish(Err(error)),
                    Ok(query) => Step::Run(
                        AttachMedia { phase: AttachPhase::Insert, ..self },
                        Action::Execute(query),
                    ),
                },
            },
            AttachPhase::Insert => match expect_affected(reply, "media-attach-insert") {
                Err(error) => Step::Finish(Err(error)),
                Ok(_) => Step::Finish(
                    Ok(
                        MediaRefRecord {
                            id: self.media_ref_id,
                            session_id: self.session_id,
                            message_id: self.message_id,
                            uri: self.input.uri,
                            mime_type: self.input.mime_type,
                            size_bytes: self.input.size_bytes,
                            duration_ms: self.input.duration_ms,
                            width_px: self.input.width_px,
                            height_px: self.input.height_px,
                            sha256_hex: self.input.sha256_hex,
                            deleted_at_unix_seconds: None,
                        },
                    ),
                ),
            },
        }
    }
}

/// Where a scoped listing stands.
#[derive(Debug, Clone, Copy, PartialEq, Eq, Structural)]
pub enum ScopedPhase {
    Ensure,
    Query,
}

/// Lists the media references of a live message, oldest first; the
/// soft-deleted ones only on request.
#[derive(Debug, Clone, Copy, PartialEq, Eq, Structural)]
pub struct ListMedia {
    pub session_id: SessionId,
    pub message_id: MessageId,
    pub include_deleted: bool,
    pub phase: ScopedPhase,
}

impl ListMedia {
    /// A listing of the references of one message.
    pub fn new(session_id: SessionId, message_id: MessageId, include_deleted: bool) -> (op: Self)
        ensures
            op == (ListMedia { session_id, message_id, include_deleted, phase: ScopedPhase::Ensure }),
    {
        ListMedia { session_id, message_id, include_deleted, phase: ScopedPhase::Ensure }
    }
}

impl Operation for ListMedia {
    type Output = Vec<MediaRefRecord>;

    fn connect_stage(&self) -> (stage: &'static str)
        ensures
            stage@ == "media-list-connect"@,
    {
        "media-list-connect"
    }

    fn start(self) -> (step: Step<Self, Vec<MediaRefRecord>>)
        ensures
            step == Step::<Self, Vec<MediaRefRecord>>::Run(
                self,
                Action::Fetch(
                    Query::MessageExists { session_id: self.session_id, id: self.message_id },
                ),
            ),
    {
        let query = Query::MessageExists { session_id: self.session_id, id: self.message_id };
        Step::Run(self, Action::Fetch(query))
    }

    /// After the check of the message, asks for its references; then
    /// finishes with the records of the rows, in the order of the reply.
    fn resume(self, reply: Reply) -> (step: Step<Self, Vec<MediaRefRecord>>)
        ensures
            self.phase == ScopedPhase::Ensure ==> step.outcome() == (match message_in_session_of(
                reply,
                self.message_id,
                "media-list-ensure-message"@,
            ) {
                Err(fault) => Outcome::<Self, Vec<MediaRefRecord>>::Fail(fault),
                Ok(_) => Outcome::Run(
                    ListMedia { phase: ScopedPhase::Query, ..self },
                    Action::Fetch(
                        Query::ListMedia {
                            session_id: self.session_id,
                            message_id: self.message_id,
                            include_deleted: self.include_deleted,
                        },
                    ),
                ),
            }),
            self.phase == ScopedPhase::Query ==> (match media_refs_of(reply, "media-list-query"@) {
                Err(fault) => step.outcome() == Outcome::<Self, Vec<MediaRefRecord>>::Fail(fault),
                Ok(rows) => step matches Step::Finish(result) && maps_all(
                    rows@,
                    |row: MediaRefRow| media_ref_record_of(row),
                    result,
                ),
            }),
    {
        match self.phase {
            ScopedPhase::Ensure => match ensure_message_in_session(
                reply,
                self.message_id,
                "media-list-ensure-message",
            ) {
                Err(error) => Step::Finish(Err(error)),
                Ok(_) => Step::Run(
                    ListMedia { phase: ScopedPhase::Query, ..self },
                    Action::Fetch(
                        Query::ListMedia {
                            session_id: self.session_id,
                            message_id: self.message_id,
                            include_deleted: self.include_deleted,
                        },
                    ),
                ),
            },
            ScopedPhase::Query => match expect_media_refs(reply, "media-list-query") {
                Err(error) => Step::Finish(Err(error)),
                Ok(rows) => Step::Finish(media_ref_rows_to_records(rows)),
            },
        }
    }
}

/// Where the deletion of a media reference stands.
#[derive(Debug, Clone, Copy, PartialEq, Eq, Structural)]
pub enum RemovePhase {
    Ensure,
    Apply,
    Check,
}

/// Soft-deletes a media reference of a live message. Deleting one that is
/// deleted already succeeds; only one that does not exist under that message
/// is `NotFound`.
#[derive(Debug, Clone, Copy, PartialEq, Eq, Structural)]
pub struct SoftDeleteMedia {
    pub session_id: SessionId,
    pub message_id: MessageId,
    pub media_ref_id: MediaRefId,
    pub now: i64,
    pub phase: RemovePhase,
}

impl SoftDeleteMedia {
    /// A deletion at the current time.
    pub fn new(session_id: SessionId, message_id: MessageId, media_ref_id: MediaRefId) -> (op: Self)
        ensures
            op.session_id == session_id,
            op.message_id == message_id,
            op.media_ref_id == media_ref_id,
            op.phase == RemovePhase::Ensure,
    {
        SoftDeleteMedia {
            session_id,
            message_id,
            media_ref_id,
            now: unix_timestamp_seconds(),
            phase: RemovePhase::Ensure,
        }
    }

    /// The step after `reply`.
    pub open spec fn next(self, reply: Reply) -> Outcome<Self, ()> {
        match self.phase {
            RemovePhase::Ensure => match message_in_session_of(
                reply,
                self.message_id,
                "media-soft-delete-ensure-message"@,
            ) {
                Err(fault) => Outcome::Fail(fault),
                Ok(_) => Outcome::Run(
                    SoftDeleteMedia { phase: RemovePhase::Apply, ..self },
                    Action::Execute(
                        Query::SoftDeleteMedia {
                            session_id: self.session_id,
                            message_id: self.message_id,
                            id: self.media_ref_id,
                            at: self.now,
                        },
                    ),
                ),
            },
            RemovePhase::Apply => match affected_of(reply, "media-soft-delete-apply"@) {
                Err(fault) => Outcome::Fail(fault),
                Ok(count) => if count == 0 {
                    Outcome::Run(
                        SoftDeleteMedia { phase: RemovePhase::Check, ..self },
                        Action::Fetch(
                            Query::MediaRefExists {
                                session_id: self.session_id,
                                message_id: self.message_id,
                                id: self.media_ref_id,
                            },
                        ),
                    )
                } else {
                    Outcome::Done(())
                },
            },
            RemovePhase::Check => match exists_of(reply, "media-ref-exists-in-scope-query"@) {
                Err(fault) => Outcome::Fail(fault),
                Ok(exists) => if exists {
                    Outcome::Done(())
                } else {
                    Outcome::Fail(
                        media_ref_not_found("media-soft-delete-missing"@, self.media_ref_id),
                    )
                },
            },
        }
    }
}

impl Operation for SoftDeleteMedia {
    type Output = ();

    fn connect_stage(&self) -> (stage: &'static str)
        ensures
            stage@ == "media-soft-delete-connect"@,
    {
        "media-soft-delete-connect"
    }

    fn start(self) -> (step: Step<Self, ()>)
        ensures
            step == Step::<Self, ()>::Run(
                self,
                Action::Fetch(
                    Query::MessageExists { session_id: self.session_id, id: self.message_id },
                ),
            ),
    {
        let query = Query::MessageExists { session_id: self.session_id, id: self.message_id };
        Step::Run(self, Action::Fetch(query))
    }

    fn resume(self, reply: Reply) -> (step: Step<Self, ()>)
        ensures
            step.outcome() == self.next(reply),
    {
        match self.phase {
            RemovePhase::Ensure => match ensure_message_in_session(
                reply,
                self.message_id,
                "media-soft-delete-ensure-message",
            ) {
                Err(error) => Step::Finish(Err(error)),
                Ok(_) => Step::Run(
                    SoftDeleteMedia { phase: RemovePhase::Apply, ..self },
                    Action::Execute(
                        Query::SoftDeleteMedia {
                            session_id: self.session_id,
                            message_id: self.message_id,
                            id: self.media_ref_id,
                            at: self.now,
                        },
                    ),
                ),
            },
            RemovePhase::Apply => match expect_affected(reply, "media-soft-delete-apply") {
                Err(error) => Step::Finish(Err(error)),
                Ok(count) => if count == 0 {
                    Step::Run(
                        SoftDeleteMedia { phase: RemovePhase::Check, ..self },
                        Action::Fetch(
                            Query::MediaRefExists {
                                session_id: self.session_id,
                                message_id: self.message_id,
                                id: self.media_ref_id,
                            },
                        ),
                    )
                } else {
                    Step::Finish(Ok(()))
                },
            },
            RemovePhase::Check => match expect_exists(reply, "media-ref-exists-in-scope-query") {
                Err(error) => Step::Finish(Err(error)),
                Ok(exists) => if exists {
                    Step::Finish(Ok(()))
                } else {
                    Step::Finish(
                        Err(
                            StorageError::NotFound {
                                stage: "media-soft-delete-missing",
                                entity: "media_ref",
                                id: self.media_ref_id.to_text(),
                            },
                        ),
                    )
                },
            },
        }
    }
}


/// A URI that carries a payload is never stored. Whatever the database
/// replies, an attachment with such a URI ends with a fault before any
/// insert is sent; for a live message of the session the fault is the
/// `Conflict` of the URI.
pub proof fn lemma_blob_uri_is_never_inserted(op: AttachMedia, reply: Reply)
    requires
        op.phase == AttachPhase::Ensure,
        is_blob_like(op.input.uri@),
    ensures
        op.next(reply) is Fail,
        message_in_session_of(reply, op.message_id, "media-attach-ensure-message"@) is Ok
            ==> op.next(reply) == Outcome::<AttachMedia, MediaRefRecord>::Fail(
            blob_fault("media-attach-validate-uri"@),
        ),
{
}

/// A URI with the scheme `data:` looks like a payload, however the scheme
/// is written, and so does one that holds `;base64,` anywhere.
pub proof fn lemma_data_scheme_is_blob_like(uri: Seq<char>)
    requires
        uri.len() >= 5,
        lowered(uri.subrange(0, 5)) == "data:"@,
    ensures
        is_blob_like(uri),
{
    reveal_strlit("data:");
    assert("data:"@.len() == 5);
    assert(lowered(uri).subrange(0, 5) =~= lowered(uri.subrange(0, 5)));
}

} // verus!
