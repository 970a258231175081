//! The text answer of a tool call: a text and whether it reports an error.

use vstd::prelude::*;

verus! {

/// A tool answer carrying one text.
#[derive(Debug)]
pub struct ToolText {
    /// Whether the answer reports a failure.
    pub is_error: bool,
    /// The answer's text.
    pub text: String,
}

/// A successful answer with `text`.
pub fn text_success(text: String) -> (r: ToolText)
    ensures
        !r.is_error,
        r.text == text,
{
    ToolText { is_error: false, text }
}

/// A failed answer with the error's message.
pub fn text_error(message: String) -> (r: ToolText)
    ensures
        r.is_error,
        r.text == message,
{
    ToolText { is_error: true, text: message }
}

/// The answer for a computed text: the text itself, or the error's message
/// as a failed answer.
pub fn text_result(result: Result<String, String>) -> (r: ToolText)
    ensures
        result matches Ok(t) ==> (!r.is_error && r.text == t),
        result matches Err(e) ==> (r.is_error && r.text == e),
{
    match result {
        Ok(text) => text_success(text),
        Err(e) => text_error(e),
    }
}

} // verus!
