//! Session metadata for one video.
//!
//! A run starts from a triple read off the video's watch page: the access
//! key for the chat endpoint, the initial continuation token, and the
//! stream's total duration. The page text is searched with fixed
//! patterns; retrieving the page itself is left to the caller, which
//! hands the raw text in.

use vstd::prelude::*;
use crate::digits::{all_digits, decimal_value, parse_u64_decimal};

verus! {

/// The first capture group of the pattern's match in the text, as the
/// regex engine computes it: a function of pattern and text alone.
pub uninterp spec fn capture_of(pattern: Seq<char>, text: Seq<char>) -> Option<Seq<char>>;

/// Relies on regex::Regex::new and regex::Regex::captures: compiles the
/// pattern and takes the first capture group of its leftmost match in the
/// text. None when the pattern is invalid, does not match, or its first
/// group took no part in the match. Deterministic in pattern and text.
#[verifier::external_body]
fn regex_capture_first(pattern: &str, text: &str) -> (r: Option<String>)
    ensures
        r is Some <==> capture_of(pattern@, text@) is Some,
        r matches Some(s) ==> s@ == capture_of(pattern@, text@)->Some_0,
{
    let compiled = regex::Regex::new(pattern).ok()?;
    let captures = compiled.captures(text)?;
    Some(captures.get(1)?.as_str().to_owned())
}

/// The pattern that locates the access key on the watch page.
pub open spec fn api_key_pattern() -> Seq<char> {
    r#""INNERTUBE_API_KEY":"(.*?)""#@
}

/// The pattern that locates the initial continuation token.
pub open spec fn continuation_pattern() -> Seq<char> {
    r#""continuation":"([a-zA-Z0-9]+)""#@
}

/// The pattern that locates the total duration, in milliseconds.
pub open spec fn duration_pattern() -> Seq<char> {
    r#"\\"approxDurationMs\\":\\"(\d+)\\""#@
}

/// The captured duration text denotes a value that fits the duration
/// field: a non-empty string of digits no larger than the type's maximum.
pub open spec fn is_valid_duration(captured: Option<Seq<char>>) -> bool {
    match captured {
        Some(s) => s.len() > 0 && all_digits(s) && decimal_value(s) <= i32::MAX,
        None => false,
    }
}

/// The session triple a run starts from, with the identifier it was
/// resolved for.
pub struct VideoDetails {
    pub video_id: String,
    pub api_key: String,
    pub continuation: String,
    pub duration: i32,
}

impl VideoDetails {
    /// The watch-page URL for a video identifier.
    pub fn build_video_url(video_id: &str) -> (r: String)
        ensures
            r@ == "https://www.youtube.com/watch?v="@ + video_id@,
    {
        let mut url = "https://www.youtube.com/watch?v=".to_owned();
        url.append(video_id);
        url
    }

    /// Finds the access key on the watch page.
    pub fn extract_api_key_from_html(raw_html: &str) -> (r: Option<String>)
        ensures
            r is Some <==> capture_of(api_key_pattern(), raw_html@) is Some,
            r matches Some(s) ==> s@ == capture_of(api_key_pattern(), raw_html@)->Some_0,
    {
        regex_capture_first(r#""INNERTUBE_API_KEY":"(.*?)""#, raw_html)
    }

    /// Finds the initial continuation token on the watch page.
    pub fn extract_continuation_from_html(raw_html: &str) -> (r: Option<String>)
        ensures
            r is Some <==> capture_of(continuation_pattern(), raw_html@) is Some,
            r matches Some(s) ==> s@ == capture_of(continuation_pattern(), raw_html@)->Some_0,
    {
        regex_capture_first(r#""continuation":"([a-zA-Z0-9]+)""#, raw_html)
    }

    /// Finds the total duration on the watch page and reads it as
    /// milliseconds. None when the page shows none, or the shown value
    /// does not fit the field.
    pub fn extract_duration_from_html(raw_html: &str) -> (r: Option<i32>)
        ensures
            r is Some <==> is_valid_duration(capture_of(duration_pattern(), raw_html@)),
            r matches Some(d) ==> d == decimal_value(
                capture_of(duration_pattern(), raw_html@)->Some_0,
            ),
    {
        let text = match regex_capture_first(r#"\\"approxDurationMs\\":\\"(\d+)\\""#, raw_html) {
            Some(t) => t,
            None => {
                return None;
            },
        };
        let value = match parse_u64_decimal(text.as_str()) {
            Some(v) => v,
            None => {
                return None;
            },
        };
        if value > i32::MAX as u64 {
            return None;
        }
        Some(value as i32)
    }

    /// Resolves the session triple from a watch-page body. None exactly
    /// when any of the three fields cannot be found — a failure that is
    /// fatal to the whole run before any pagination begins.
    pub fn from_html(video_id: &str, raw_html: &str) -> (r: Option<VideoDetails>)
        ensures
            r is Some <==> capture_of(api_key_pattern(), raw_html@) is Some && capture_of(
                continuation_pattern(),
                raw_html@,
            ) is Some && is_valid_duration(capture_of(duration_pattern(), raw_html@)),
            r matches Some(v) ==> v.video_id@ == video_id@ && v.api_key@ == capture_of(
                api_key_pattern(),
                raw_html@,
            )->Some_0 && v.continuation@ == capture_of(continuation_pattern(), raw_html@)->Some_0
                && v.duration == decimal_value(capture_of(duration_pattern(), raw_html@)->Some_0),
    {
        let api_key = match Self::extract_api_key_from_html(raw_html) {
            Some(k) => k,
            None => {
                return None;
            },
        };
        let continuation = match Self::extract_continuation_from_html(raw_html) {
            Some(c) => c,
            None => {
                return None;
            },
        };
        let duration = match Self::extract_duration_from_html(raw_html) {
            Some(d) => d,
            None => {
                return None;
            },
        };
        Some(VideoDetails { video_id: video_id.to_owned(), api_key, continuation, duration })
    }
}

} // verus!
