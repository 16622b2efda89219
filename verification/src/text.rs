//! The texts that the window shows: file names, the heading, button labels.

use vstd::prelude::*;

verus! {

/// The directory whose files are listed.
pub const NOTES_DIR: &'static str = "src/notes";

/// What is cut from the front of a listed path to name the file on screen.
pub const NOTES_PREFIX: &'static str = "src/notes\\";

/// `text` without its leading copies of `prefix`: the prefix is removed from
/// the front again and again until the text no longer starts with it. An
/// empty prefix removes nothing.
pub open spec fn trimmed(text: Seq<char>, prefix: Seq<char>) -> Seq<char>
    decreases text.len(),
{
    if prefix.len() > 0 && prefix.is_prefix_of(text) {
        trimmed(text.skip(prefix.len() as int), prefix)
    } else {
        text
    }
}

/// `count` copies of `piece`, one after the other.
pub open spec fn repeated(piece: Seq<char>, count: nat) -> Seq<char>
    decreases count,
{
    if count == 0 {
        Seq::empty()
    } else {
        piece + repeated(piece, (count - 1) as nat)
    }
}

/// What trimming takes away is a run of whole copies of the prefix, and it
/// takes all of them: what is left does not start with the prefix. The
/// result is the number of copies taken.
pub proof fn lemma_trimmed_drops_leading_copies(text: Seq<char>, prefix: Seq<char>) -> (count: nat)
    requires
        prefix.len() > 0,
    ensures
        text == repeated(prefix, count) + trimmed(text, prefix),
        !prefix.is_prefix_of(trimmed(text, prefix)),
    decreases text.len(),
{
    if prefix.is_prefix_of(text) {
        let rest = text.skip(prefix.len() as int);
        let taken = lemma_trimmed_drops_leading_copies(rest, prefix);
        assert(text =~= prefix + rest);
        assert(text =~= repeated(prefix, taken + 1) + trimmed(text, prefix));
        taken + 1
    } else {
        assert(text =~= repeated(prefix, 0) + text);
        0
    }
}

/// The name under which a listed path appears on screen.
pub open spec fn display_name_of(path: Seq<char>) -> Seq<char> {
    trimmed(path, NOTES_PREFIX@)
}

/// Whether `prefix` stands in `text`, which is `len` characters long, at the
/// character position `start`.
fn starts_with_at(text: &str, len: usize, start: usize, prefix: &str) -> (found: bool)
    requires
        len == text@.len(),
        start + prefix@.len() <= len,
    ensures
        found == prefix@.is_prefix_of(text@.skip(start as int)),
{
    let width = prefix.unicode_len();
    let ghost rest = text@.skip(start as int);
    let mut i: usize = 0;
    while i < width
        invariant
            i <= width,
            width == prefix@.len(),
            len == text@.len(),
            start + width <= len,
            rest == text@.skip(start as int),
            forall|j: int| 0 <= j < i ==> prefix@[j] == rest[j],
        decreases width - i,
    {
        if prefix.get_char(i) != text.get_char(start + i) {
            return false;
        }
        i = i + 1;
    }
    true
}

/// Removes every leading copy of `prefix` from `text`.
pub fn trim_start_matches<'a>(text: &'a str, prefix: &str) -> (rest: &'a str)
    ensures
        rest@ == trimmed(text@, prefix@),
{
    let len = text.unicode_len();
    let width = prefix.unicode_len();
    if width == 0 {
        return text;
    }
    let mut start: usize = 0;
    assert(text@.skip(0) =~= text@);
    loop
        invariant
            start <= len,
            len == text@.len(),
            width == prefix@.len(),
            width > 0,
            trimmed(text@, prefix@) == trimmed(text@.skip(start as int), prefix@),
        ensures
            start <= len,
            len == text@.len(),
            text@.skip(start as int) == trimmed(text@, prefix@),
        decreases len - start,
    {
        if len - start < width {
            break;
        }
        if !starts_with_at(text, len, start, prefix) {
            break;
        }
        assert(text@.skip(start as int).skip(width as int) =~= text@.skip(start + width));
        start = start + width;
    }
    text.substring_char(start, len)
}

/// The name under which a listed path appears on screen.
pub fn display_name(path: &str) -> (name: &str)
    ensures
        name@ == display_name_of(path@),
{
    trim_start_matches(path, NOTES_PREFIX)
}

} // verus!
