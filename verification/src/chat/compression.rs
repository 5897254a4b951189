//! Compression of stored conversation history: a long history is cut to its
//! most recent messages behind a note that says how many were dropped.
use vstd::prelude::*;

use crate::chat::error::TurnError;
use crate::chat::storage::{
    views, ConversationRecord, ConversationRecordView, StoredConversationMessage, StoredMessageView,
};
use crate::text::{decimal, push_decimal, push_str};

verus! {

/// What a compression hands back, with the record taken by its view.
pub open spec fn compressed_view(r: Result<ConversationRecord, TurnError>) -> Result<
    ConversationRecordView,
    TurnError,
> {
    match r {
        Ok(out) => Ok(out@),
        Err(e) => Err(e),
    }
}

/// A rule for shrinking a conversation record before it is saved. A policy
/// keeps the identity of the record: its id, target and time stamp.
pub trait ConversationCompressionPolicy {
    /// Whether `out` is an answer this policy gives for `record`.
    spec fn compresses(
        &self,
        record: ConversationRecordView,
        out: Result<ConversationRecordView, TurnError>,
    ) -> bool;

    fn compress(&self, record: ConversationRecord) -> (r: Result<ConversationRecord, TurnError>)
        ensures
            self.compresses(record@, compressed_view(r)),
            r matches Ok(out) ==> {
                &&& out.conversation_id == record.conversation_id
                &&& out.target_kind == record.target_kind
                &&& out.target_id == record.target_id
                &&& out.updated_at_ms == record.updated_at_ms
            },
    ;
}

/// The policy that keeps every record as it is.
pub struct NoopConversationCompressionPolicy;

impl ConversationCompressionPolicy for NoopConversationCompressionPolicy {
    open spec fn compresses(
        &self,
        record: ConversationRecordView,
        out: Result<ConversationRecordView, TurnError>,
    ) -> bool {
        out == Ok::<ConversationRecordView, TurnError>(record)
    }

    fn compress(&self, record: ConversationRecord) -> (r: Result<ConversationRecord, TurnError>) {
        Ok(record)
    }
}

/// The text of the note that replaces `n` dropped messages.
pub open spec fn compression_note(n: nat) -> Seq<char> {
    "Compressed "@ + decimal(n) + " earlier messages into a summary checkpoint."@
}

/// How many messages of a history of length `len` a threshold policy drops:
/// none up to `max`, else all but the last `retain`.
pub open spec fn dropped_count(len: nat, max: nat, retain: nat) -> nat {
    if len <= max {
        0
    } else if retain < len {
        (len - retain) as nat
    } else {
        0
    }
}

/// Whether `out` is `h` compressed by a threshold policy with limits `max`
/// and `retain`.
pub open spec fn is_threshold_compression(
    h: Seq<StoredMessageView>,
    out: Seq<StoredMessageView>,
    max: nat,
    retain: nat,
) -> bool {
    if h.len() <= max {
        out == h
    } else {
        let n = dropped_count(h.len(), max, retain);
        &&& out.len() == h.len() - n + 1
        &&& out[0] matches StoredMessageView::SystemNote { content } && content@
            == compression_note(n)
        &&& out.subrange(1, out.len() as int) == h.subrange(n as int, h.len() as int)
    }
}

/// The policy that, once a history holds more than `max_messages` messages,
/// keeps only the last `retain_recent_messages` behind a note.
pub struct ThresholdConversationCompressionPolicy {
    max_messages: usize,
    retain_recent_messages: usize,
}

impl ThresholdConversationCompressionPolicy {
    /// The length above which a history is compressed.
    pub closed spec fn max(&self) -> nat {
        self.max_messages as nat
    }

    /// How many of the latest messages a compressed history keeps.
    pub closed spec fn retain(&self) -> nat {
        self.retain_recent_messages as nat
    }

    pub fn new(max_messages: usize, retain_recent_messages: usize) -> (r: Self)
        ensures
            r.max() == max_messages,
            r.retain() == retain_recent_messages,
    {
        ThresholdConversationCompressionPolicy { max_messages, retain_recent_messages }
    }
}

impl ConversationCompressionPolicy for ThresholdConversationCompressionPolicy {
    open spec fn compresses(
        &self,
        record: ConversationRecordView,
        out: Result<ConversationRecordView, TurnError>,
    ) -> bool {
        out matches Ok(o) && {
            &&& o.conversation_id == record.conversation_id
            &&& o.target_kind == record.target_kind
            &&& o.target_id == record.target_id
            &&& o.updated_at_ms == record.updated_at_ms
            &&& is_threshold_compression(record.history, o.history, self.max(), self.retain())
        }
    }

    fn compress(&self, record: ConversationRecord) -> (r: Result<ConversationRecord, TurnError>) {
        let mut record = record;
        if record.history.len() <= self.max_messages {
            return Ok(record);
        }
        let len = record.history.len();
        let retain_recent = if self.retain_recent_messages < len {
            self.retain_recent_messages
        } else {
            len
        };
        let compressed_count = len - retain_recent;
        let ghost h = views(record.history@);
        let mut content = String::new();
        push_str(&mut content, "Compressed ");
        push_decimal(&mut content, compressed_count as u64);
        push_str(&mut content, " earlier messages into a summary checkpoint.");
        let mut tail = record.history.split_off(compressed_count);
        let mut history: Vec<StoredConversationMessage> = Vec::new();
        history.push(StoredConversationMessage::SystemNote { content });
        history.append(&mut tail);
        record.history = history;
        proof {
            let out = views(record.history@);
            assert(out.subrange(1, out.len() as int) =~= h.subrange(
                compressed_count as int,
                h.len() as int,
            ));
        }
        Ok(record)
    }
}

} // verus!
