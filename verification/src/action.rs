//! Chat-action records.
//!
//! A record is an opaque structured document: the engine assumes no fixed
//! schema beyond one optional field, the record's offset timestamp on the
//! video, read once when the record enters the library and carried beside
//! the opaque payload from then on.

use vstd::prelude::*;
use crate::digits::{all_digits, decimal_value, parse_u64_decimal};
use crate::json::{field_of, json_as_str, json_get, str_of};

verus! {

/// The text under a record's `replayChatItemAction.videoOffsetTimeMsec`
/// path, when the path exists and ends in a JSON string.
pub open spec fn timestamp_text_of(record: serde_json::Value) -> Option<Seq<char>> {
    match field_of(record, "replayChatItemAction"@) {
        Some(action) => match field_of(action, "videoOffsetTimeMsec"@) {
            Some(offset) => str_of(offset),
            None => None,
        },
        None => None,
    }
}

/// A record's video-offset timestamp in milliseconds: its timestamp text
/// read as a decimal number, when there is one and it fits.
pub open spec fn timestamp_of(record: serde_json::Value) -> Option<u64> {
    match timestamp_text_of(record) {
        Some(text) => if text.len() > 0 && all_digits(text) && decimal_value(text) <= u64::MAX {
            Some(decimal_value(text) as u64)
        } else {
            None
        },
        None => None,
    }
}

/// One chat-action record: the opaque payload as received, plus the
/// record's optional video-offset timestamp in milliseconds.
pub struct ChatAction {
    /// The record as parsed, kept whole for the final output.
    pub payload: serde_json::Value,
    /// The record's `videoOffsetTimeMsec` field, when it carries one.
    pub timestamp_ms: Option<u64>,
}

/// Reads a record's optional video-offset timestamp: the decimal string
/// under `replayChatItemAction.videoOffsetTimeMsec`. Absence at any link
/// of the path, a non-string value, or a non-decimal text yields None —
/// the record stays opaque otherwise.
pub fn extract_timestamp_from_json(data: &serde_json::Value) -> (r: Option<u64>)
    ensures
        r == timestamp_of(*data),
{
    let action = match json_get(data, "replayChatItemAction") {
        Some(v) => v,
        None => {
            return None;
        },
    };
    let offset = match json_get(action, "videoOffsetTimeMsec") {
        Some(v) => v,
        None => {
            return None;
        },
    };
    let text = match json_as_str(offset) {
        Some(s) => s,
        None => {
            return None;
        },
    };
    parse_u64_decimal(text)
}

impl ChatAction {
    /// Wraps one parsed record, reading its timestamp field once.
    pub fn from_json(payload: serde_json::Value) -> (r: ChatAction)
        ensures
            r.payload == payload,
            r.timestamp_ms == timestamp_of(payload),
    {
        let timestamp_ms = extract_timestamp_from_json(&payload);
        ChatAction { payload, timestamp_ms }
    }

    /// Builds a record from parts; the form tests and callers use when
    /// the payload is already at hand.
    pub fn new(payload: serde_json::Value, timestamp_ms: Option<u64>) -> (r: ChatAction)
        ensures
            r.payload == payload,
            r.timestamp_ms == timestamp_ms,
    {
        ChatAction { payload, timestamp_ms }
    }
}

} // verus!
