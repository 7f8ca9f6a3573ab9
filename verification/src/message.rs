//! The values that travel through the queue.
use vstd::prelude::*;

verus! {

/// One entry of the queue, as the worker sees it.
#[derive(Debug, PartialEq, Eq)]
pub struct QueueMessage {
    pub stream_id: String,
    pub response_id: String,
    pub idle_ms: Option<u64>,
    pub autoclaimed: bool,
}

impl Clone for QueueMessage {
    fn clone(&self) -> (copy: Self)
        ensures
            copy == *self,
    {
        QueueMessage {
            stream_id: self.stream_id.clone(),
            response_id: self.response_id.clone(),
            idle_ms: self.idle_ms,
            autoclaimed: self.autoclaimed,
        }
    }
}

/// How an entry of the queue came to this worker.
#[derive(Clone, Copy, Debug, PartialEq, Eq, Structural)]
pub enum EntrySource {
    /// Taken over from another consumer while this worker was starting.
    StartupPending,
    /// Taken over from a consumer that left it idle.
    Autoclaimed,
    /// Delivered to this worker.
    Live,
}

/// Where a message came from.
///
/// A message that was pending when the worker started counts as that, whether
/// or not it was taken over.
pub open spec fn message_source(autoclaimed: bool, startup_pending: bool) -> EntrySource {
    if startup_pending {
        EntrySource::StartupPending
    } else if autoclaimed {
        EntrySource::Autoclaimed
    } else {
        EntrySource::Live
    }
}

/// Where `message` came from.
pub fn entry_source_for_message(message: &QueueMessage, startup_pending: bool) -> (source:
    EntrySource)
    ensures
        source == message_source(message.autoclaimed, startup_pending),
{
    if startup_pending {
        EntrySource::StartupPending
    } else if message.autoclaimed {
        EntrySource::Autoclaimed
    } else {
        EntrySource::Live
    }
}

/// A response as the store keeps it.
///
/// The worker carries these records and never looks into them, so what is a
/// JSON document in the store is held here as its text.
#[derive(Debug, PartialEq, Eq)]
pub struct StoredResponse {
    pub upstream: String,
    pub response: String,
    pub input: String,
    pub pending_upstream_request: Option<String>,
    pub upstream_authorization: Option<String>,
    pub enqueued_at: Option<String>,
}

/// Copies an optional text.
fn clone_text(text: &Option<String>) -> (copy: Option<String>)
    ensures
        copy == *text,
{
    match text {
        Some(text) => Some(text.clone()),
        None => None,
    }
}

impl Clone for StoredResponse {
    fn clone(&self) -> (copy: Self)
        ensures
            copy == *self,
    {
        StoredResponse {
            upstream: self.upstream.clone(),
            response: self.response.clone(),
            input: self.input.clone(),
            pending_upstream_request: clone_text(&self.pending_upstream_request),
            upstream_authorization: clone_text(&self.upstream_authorization),
            enqueued_at: clone_text(&self.enqueued_at),
        }
    }
}

/// A message counts as pending since before the start exactly when that is said
/// of it. Any other counts as taken over exactly when it was, and as delivered
/// when it was not.
pub proof fn sources_tell_messages_apart(autoclaimed: bool, startup_pending: bool)
    ensures
        message_source(autoclaimed, startup_pending) == EntrySource::StartupPending
            <==> startup_pending,
        message_source(autoclaimed, startup_pending) == EntrySource::Autoclaimed <==> autoclaimed
            && !startup_pending,
        message_source(autoclaimed, startup_pending) == EntrySource::Live <==> !autoclaimed
            && !startup_pending,
{
}

} // verus!
