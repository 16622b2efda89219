//! What a file read leaves in the editor.

use vstd::prelude::*;

verus! {

/// The text that a read yields: the file's text when the read succeeded, the
/// empty text when it failed for whatever reason.
pub open spec fn loaded_text(read: Option<Seq<char>>) -> Seq<char> {
    match read {
        Some(text) => text,
        None => Seq::empty(),
    }
}

/// Turns the outcome of reading a whole file as text into editor content.
/// `read` is `Some` with the file's text, or `None` when the file was missing,
/// unreadable or not valid text; a failure is swallowed, not reported.
pub fn loaded_content(read: Option<String>) -> (content: String)
    ensures
        content@ == loaded_text(read.deep_view()),
{
    match read {
        Some(text) => text,
        None => String::new(),
    }
}

} // verus!
