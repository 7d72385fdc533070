//! Page-response handling.
//!
//! One page fetch yields a response body. The body is parsed as JSON, the
//! next continuation token and the action batch are read from their fixed
//! nested field path, and the pair is classified: a present continuation
//! with a present batch continues the chain; an absent continuation is
//! the designed end-of-stream signal, not a failure; a present
//! continuation with an absent batch is a malformed response.

use vstd::prelude::*;
use crate::action::{timestamp_of, ChatAction};
use crate::json::{
    array_of, doc_of, field_of, json_as_array, json_as_str, json_clone, json_get, json_parse,
    str_of,
};

verus! {

/// The `continuationContents.liveChatContinuation` object of a response
/// document, the parent of both fields the engine reads.
pub open spec fn live_chat_of_doc(d: serde_json::Value) -> Option<serde_json::Value> {
    match field_of(d, "continuationContents"@) {
        Some(contents) => field_of(contents, "liveChatContinuation"@),
        None => None,
    }
}

/// The next continuation token of a response document: the string under
/// `continuationContents.liveChatContinuation.continuations[0].`
/// `liveChatReplayContinuationData.continuation`. None when any link of
/// the path is absent, the array is empty, or the value is no string.
pub open spec fn continuation_of_doc(d: serde_json::Value) -> Option<Seq<char>> {
    match live_chat_of_doc(d) {
        Some(live_chat) => match field_of(live_chat, "continuations"@) {
            Some(continuations) => match array_of(continuations) {
                Some(entries) => if entries.len() > 0 {
                    match field_of(entries[0], "liveChatReplayContinuationData"@) {
                        Some(replay_data) => match field_of(replay_data, "continuation"@) {
                            Some(token) => str_of(token),
                            None => None,
                        },
                        None => None,
                    }
                } else {
                    None
                },
                None => None,
            },
            None => None,
        },
        None => None,
    }
}

/// The action batch of a response document: the elements of the array
/// under `continuationContents.liveChatContinuation.actions`. None when
/// the path is absent or the value is no array.
pub open spec fn actions_of_doc(d: serde_json::Value) -> Option<Seq<serde_json::Value>> {
    match live_chat_of_doc(d) {
        Some(live_chat) => match field_of(live_chat, "actions"@) {
            Some(actions) => array_of(actions),
            None => None,
        },
        None => None,
    }
}

/// The batch holds exactly the given records, in order: each element's
/// payload is the corresponding array element, its timestamp that
/// element's timestamp projection.
pub open spec fn batch_matches(batch: Seq<ChatAction>, elements: Seq<serde_json::Value>) -> bool {
    &&& batch.len() == elements.len()
    &&& forall|i: int|
        0 <= i < elements.len() ==> (#[trigger] batch[i]).payload == elements[i]
            && batch[i].timestamp_ms == timestamp_of(elements[i])
}

/// Why a page fetch failed. Both are fatal for the whole run.
#[derive(Clone, Copy, PartialEq, Eq, Structural, Debug)]
pub enum FetchError {
    /// The network request itself failed.
    Transport,
    /// The response body does not parse, or parses but lacks the expected
    /// structure while still naming a next continuation.
    Malformed,
}

/// One page of the replay: the batch of records it carried, and the
/// continuation token of the next page. An absent token signals the end
/// of the stream.
pub struct PageResult {
    /// The token the next fetch must use, still carrying its padding.
    pub next_continuation: Option<String>,
    /// The page's chat-action records, in the order the page listed them.
    pub actions: Vec<ChatAction>,
}

/// The mathematical content of one page: what the engine's state machine
/// reads from a `PageResult`.
pub ghost struct PageModel {
    pub next: Option<Seq<char>>,
    pub actions: Seq<ChatAction>,
}

impl View for PageResult {
    type V = PageModel;

    open spec fn view(&self) -> PageModel {
        PageModel {
            next: match self.next_continuation {
                Some(t) => Some(t@),
                None => None,
            },
            actions: self.actions@,
        }
    }
}

/// Sorts the two extracted response fields into the designed outcomes.
/// An absent continuation is end of stream: the page's batch (empty when
/// absent) is kept and no next page exists. A present continuation with a
/// present batch continues the chain. A present continuation with an
/// absent batch is a malformed response, never end of stream.
pub fn classify(next_continuation: Option<String>, actions: Option<Vec<ChatAction>>) -> (r: Result<
    PageResult,
    FetchError,
>)
    ensures
        r is Ok <==> !(next_continuation is Some && actions is None),
        r is Err ==> r->Err_0 == FetchError::Malformed,
        r matches Ok(p) ==> p.next_continuation == next_continuation,
        r matches Ok(p) ==> p.actions@ == (if actions is Some {
            actions->Some_0@
        } else {
            Seq::<ChatAction>::empty()
        }),
{
    match (next_continuation, actions) {
        (Some(token), Some(batch)) => Ok(
            PageResult { next_continuation: Some(token), actions: batch },
        ),
        (Some(_), None) => Err(FetchError::Malformed),
        (None, Some(batch)) => Ok(PageResult { next_continuation: None, actions: batch }),
        (None, None) => Ok(PageResult { next_continuation: None, actions: Vec::new() }),
    }
}

/// Reads the next continuation token from a parsed response: exactly the
/// `continuation_of_doc` projection of the document, owned.
pub fn extract_continuation_from_json(data: &serde_json::Value) -> (r: Option<String>)
    ensures
        r is Some <==> continuation_of_doc(*data) is Some,
        r matches Some(s) ==> s@ == continuation_of_doc(*data)->Some_0,
{
    let contents = json_get(data, "continuationContents")?;
    let continuation = json_get(contents, "liveChatContinuation")?;
    let continuations = json_get(continuation, "continuations")?;
    let entries = json_as_array(continuations)?;
    if entries.len() == 0 {
        return None;
    }
    let replay_data = json_get(&entries[0], "liveChatReplayContinuationData")?;
    let token = json_get(replay_data, "continuation")?;
    let text = json_as_str(token)?;
    Some(text.to_owned())
}

/// Reads the action batch from a parsed response: one record per element
/// of the `actions_of_doc` projection of the document, in array order,
/// each with its timestamp read once. None exactly when the projection is
/// absent.
pub fn extract_actions_from_json(data: &serde_json::Value) -> (r: Option<Vec<ChatAction>>)
    ensures
        r is Some <==> actions_of_doc(*data) is Some,
        r matches Some(batch) ==> batch_matches(batch@, actions_of_doc(*data)->Some_0),
{
    let contents = json_get(data, "continuationContents")?;
    let continuation = json_get(contents, "liveChatContinuation")?;
    let actions_value = json_get(continuation, "actions")?;
    let entries = json_as_array(actions_value)?;
    let ghost elements = actions_of_doc(*data)->Some_0;
    let mut batch: Vec<ChatAction> = Vec::new();
    let mut i: usize = 0;
    while i < entries.len()
        invariant
            i <= entries@.len(),
            entries@ == elements,
            batch@.len() == i,
            forall|k: int|
                0 <= k < i ==> (#[trigger] batch@[k]).payload == elements[k]
                    && batch@[k].timestamp_ms == timestamp_of(elements[k]),
        decreases entries@.len() - i,
    {
        let owned = json_clone(&entries[i]);
        batch.push(ChatAction::from_json(owned));
        i = i + 1;
    }
    Some(batch)
}

/// Parses one page-response body and classifies it: `Ok` exactly when the
/// body parses and the field pair passes `classify`, with the page's
/// token and batch equal to the document's two path projections. Every
/// failure of this function is `Malformed`; `Transport` is reported only
/// by the caller that performed the request itself.
pub fn parse_page(body: &str) -> (r: Result<PageResult, FetchError>)
    ensures
        r is Err ==> r->Err_0 == FetchError::Malformed,
        r is Ok <==> (doc_of(body@) matches Some(d) && !(continuation_of_doc(d) is Some
            && actions_of_doc(d) is None)),
        r matches Ok(p) ==> {
            let d = doc_of(body@)->Some_0;
            &&& (p.next_continuation is Some <==> continuation_of_doc(d) is Some)
            &&& (p.next_continuation matches Some(t) ==> t@ == continuation_of_doc(d)->Some_0)
            &&& (match actions_of_doc(d) {
                Some(elements) => batch_matches(p.actions@, elements),
                None => p.actions@ == Seq::<ChatAction>::empty(),
            })
        },
{
    let data = match json_parse(body) {
        Some(v) => v,
        None => {
            return Err(FetchError::Malformed);
        },
    };
    let next_continuation = extract_continuation_from_json(&data);
    let actions = extract_actions_from_json(&data);
    classify(next_continuation, actions)
}

/// Builds the page-request URL for one continuation token and access key.
/// The endpoint re-appends the stripped token padding itself, as the
/// doubly-encoded `%253D` suffix on the token parameter.
pub fn build_api_url(continuation: &str, api_key: &str) -> (r: String)
    ensures
        r@ == "https://www.youtube.com/youtubei/v1/live_chat/get_live_chat_replay?continuation="@
            + continuation@ + "%253D&key="@ + api_key@,
{
    let mut url =
        "https://www.youtube.com/youtubei/v1/live_chat/get_live_chat_replay?continuation=".to_owned();
    url.append(continuation);
    url.append("%253D&key=");
    url.append(api_key);
    url
}

} // verus!
