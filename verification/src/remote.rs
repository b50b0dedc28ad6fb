//! What the background work needs to know of the remote side: where a
//! preview is fetched from, where it is kept, and how the lookups of
//! popularity are portioned.

use crate::text::{chars_of, match_at, matches_at, push_char};
use vstd::prelude::*;
use vstd::string::*;

verus! {

/// How many repositories are looked up for their popularity before the
/// lookup pauses.
pub const STAR_BATCH: usize = 30;

/// How long the lookup pauses between two batches, in milliseconds.
pub const STAR_PAUSE_MS: u64 = 100;

/// After how many seconds the fetch of a preview is given up.
pub const PREVIEW_TIMEOUT_SECS: u64 = 10;

/// After how many seconds a batch of lookups of popularity is given up.
pub const STARS_TIMEOUT_SECS: u64 = 30;

/// The text from position `pos` on, with every `from` replaced by `to`: the
/// text is read from left to right, and what has been replaced is not read
/// again.
pub open spec fn replaced_from(s: Seq<char>, from: Seq<char>, to: Seq<char>, pos: int) -> Seq<char>
    decreases s.len() - pos,
{
    if pos < 0 || pos >= s.len() {
        Seq::<char>::empty()
    } else if from.len() > 0 && matches_at(s, from, pos) {
        to + replaced_from(s, from, to, pos + from.len())
    } else {
        seq![s[pos]] + replaced_from(s, from, to, pos + 1)
    }
}

/// The address that is tried when a preview is not found on the branch
/// `main`: the same address on the branch `master`.
pub open spec fn fallback_of(url: Seq<char>) -> Seq<char> {
    replaced_from(url, "/main/"@, "/master/"@, 0)
}

/// The address that is tried when a preview is not found at `url`.
pub fn fallback_preview_url(url: &str) -> (r: String)
    ensures
        r@ == fallback_of(url@),
{
    let chars = chars_of(url);
    let from = chars_of("/main/");
    let mut out = String::new();
    let mut pos: usize = 0;
    proof {
        reveal_strlit("/main/");
    }
    while pos < chars.len()
        invariant
            pos <= chars@.len(),
            chars@ == url@,
            from@ == "/main/"@,
            from@.len() == 6,
            out@ + replaced_from(url@, "/main/"@, "/master/"@, pos as int) == fallback_of(url@),
        decreases chars@.len() - pos,
    {
        if match_at(&chars, &from, pos) {
            out.append("/master/");
            pos = pos + from.len();
        } else {
            push_char(&mut out, chars[pos]);
            pos = pos + 1;
        }
    }
    out
}

/// The addresses at which a preview is looked for, in the order in which
/// they are tried.
pub fn preview_sources(url: &str) -> (r: Vec<String>)
    ensures
        r@.len() == 2,
        r@[0]@ == url@,
        r@[1]@ == fallback_of(url@),
{
    let mut sources: Vec<String> = Vec::new();
    sources.push(String::from_str(url));
    sources.push(fallback_preview_url(url));
    sources
}

/// The name of the file in which the preview of the theme `name` is kept in
/// the cache.
pub fn cache_file_name(name: &str) -> (r: String)
    ensures
        r@ == name@ + ".png"@,
{
    let mut file = String::from_str(name);
    file.append(".png");
    file
}

} // verus!
