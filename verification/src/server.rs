//! What the HTTP layer hands the library: the enqueue request body and the
//! rule that decides whether it is acceptable.
//!
//! The HTTP routing itself, status codes and response bodies are the glue
//! around the library; the one decision made here is that a URL consisting
//! of nothing but whitespace must be rejected rather than enqueued.

use vstd::prelude::*;

verus! {

/// Whether a character counts as whitespace, as a function of the character
/// alone.
pub uninterp spec fn is_unicode_whitespace(c: char) -> bool;

/// Relies on `char::is_whitespace`: whether a character has the White_Space
/// property depends on the character alone.
pub assume_specification[ char::is_whitespace ](c: char) -> (r: bool)
    ensures
        r == is_unicode_whitespace(c),
;

/// A text with nothing in it: every character, if any, is whitespace. Such
/// a URL trims to the empty string.
pub open spec fn is_blank(s: Seq<char>) -> bool {
    forall|i: int| 0 <= i < s.len() ==> is_unicode_whitespace(#[trigger] s[i])
}

/// Whether trimming `url` would leave nothing.
pub fn url_is_blank(url: &str) -> (r: bool)
    ensures
        r == is_blank(url@),
{
    let n = url.unicode_len();
    let mut i: usize = 0;
    while i < n
        invariant
            i <= n,
            n == url@.len(),
            forall|j: int| 0 <= j < i ==> is_unicode_whitespace(#[trigger] url@[j]),
        decreases n - i,
    {
        let c = url.get_char(i);
        if !c.is_whitespace() {
            return false;
        }
        i = i + 1;
    }
    true
}

/// The body of an enqueue request: the URL to append to the playlist.
#[derive(Debug, Clone)]
pub struct EnqueueUrl {
    pub url: String,
}

impl EnqueueUrl {
    /// Whether this request must be rejected: a blank URL enqueues nothing.
    pub fn should_reject(&self) -> (r: bool)
        ensures
            r == is_blank(self.url@),
    {
        url_is_blank(self.url.as_str())
    }
}

} // verus!
