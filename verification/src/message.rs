//! The echo that acknowledges a message.

use crate::model::viewed;
use rmpv::Value;
use vstd::prelude::*;
use vstd::string::StringExecFns;

verus! {

/// `rmpv::Value`: any MessagePack value, opaque here.
#[verifier::external_type_specification]
#[verifier::external_body]
pub struct ExValue(Value);

/// The text in `value`, as `rmpv::Value::as_str` gives it: the text of a
/// value that is a string of valid UTF-8, and `None` for every other value.
pub uninterp spec fn text_in(value: Value) -> Option<Seq<char>>;

/// `rmpv::Value::as_str` gives the text in a value, where there is one.
pub assume_specification[ Value::as_str ](value: &Value) -> (text: Option<&str>)
    ensures
        viewed(text) == text_in(*value),
;

/// The acknowledgement of a message that reads `text`.
pub open spec fn reply_text(text: Seq<char>) -> Seq<char> {
    "replied: "@ + text
}

/// The acknowledgement of a message: the reply to its text, or `None` for a
/// message that is not text.
pub fn reply_for(text: Option<&str>) -> (reply: Option<String>)
    ensures
        match reply {
            Some(r) => text matches Some(t) && r@ == reply_text(t@),
            None => text is None,
        },
{
    match text {
        Some(t) => Some(String::from_str("replied: ").concat(t)),
        None => None,
    }
}

/// A connection sends a message and waits for the acknowledgement: the
/// reply to the text in `data`, or `None` when there is no text in `data`.
pub fn message_with_ack(data: &Value) -> (reply: Option<String>)
    ensures
        viewed(reply) == match text_in(*data) {
            Some(text) => Some(reply_text(text)),
            None => None,
        },
{
    reply_for(data.as_str())
}

} // verus!
