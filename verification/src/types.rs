//! The structured events carried by log entries.
//!
//! These types hold only plain values, so the verified client can own and
//! state contracts about them. The JSON (de)serialization of the event
//! taxonomy lives with the unverified transport driver, which converts to
//! and from these types.

use vstd::prelude::*;

verus! {

/// One structured event from the remote log: a timestamp and a payload.
#[derive(Debug, Clone, PartialEq, Eq)]
pub struct LogEntry {
    pub ts: u64,
    pub data: LogContent,
}

/// The event taxonomy: the closed set of payload kinds this client knows.
/// A payload of any other kind fails structured decoding and is kept
/// verbatim as a degraded entry, so server-side additions never poison a
/// batch.
#[derive(Debug, Clone, PartialEq, Eq)]
pub enum LogContent {
    CreateNote {
        id: String,
        user: String,
        note: StoredNote,
        origin: Option<LogContentCreateNoteOrigin>,
    },
    UpdateNote { id: String, user: String, note: StoredNote },
    DeleteNote { id: String, user: String, note: StoredNote },
    CreateIngress { user: String, ingress: String, sub: String },
    DeleteIngress { user: String, ingress: String, sub: String },
    UserSubscriptionPaid { user: String, sub_id: String },
    UserSubscriptionCancel { user: String, sub_id: String },
    UserSubscriptionEnd { user: String, sub_id: String },
    UserSyncPull { user: String, token_ts: u64, from_seq: String },
    UserSyncCreateToken { user: String, token_ts: u64 },
}

/// Where a created note came from.
#[derive(Debug, Clone, PartialEq, Eq)]
pub enum LogContentCreateNoteOrigin {
    Web,
    Telegram { user_id: u64 },
}

/// A note as stored by the service.
#[derive(Debug, Clone, PartialEq, Eq)]
pub struct StoredNote {
    pub real_ts: u64,
    pub content: String,
    pub private: Option<bool>,
    pub deliverable_ts: Option<u64>,
    pub forward_links: Option<Vec<NoteLinkWithPosition>>,
}

/// A link from one note to another, with its position in the text.
#[derive(Debug, Clone, PartialEq, Eq)]
pub struct NoteLinkWithPosition {
    pub username: String,
    pub full_id: String,
    pub position: u64,
    pub text: String,
}

} // verus!
