//! The favorites as they are kept between runs: one name per line.

use crate::app::{texts, App};
use crate::preview::holds_text;
use crate::text::{chars_of, push_range};
use vstd::prelude::*;
use vstd::string::*;

verus! {

/// The character is white space, as std's Unicode tables define it.
pub uninterp spec fn is_space(c: char) -> bool;

/// Calls `char::is_whitespace`. The result is a function of the character
/// alone; the contract gives it the name `is_space` and claims nothing else.
#[verifier::external_body]
pub(crate) fn is_whitespace(c: char) -> (r: bool)
    ensures
        r == is_space(c),
{
    c.is_whitespace()
}

/// A text without the white space it begins with.
pub open spec fn strip_front(s: Seq<char>) -> Seq<char>
    decreases s.len(),
{
    if s.len() > 0 && is_space(s[0]) {
        strip_front(s.drop_first())
    } else {
        s
    }
}

/// A text without the white space it ends with.
pub open spec fn strip_back(s: Seq<char>) -> Seq<char>
    decreases s.len(),
{
    if s.len() > 0 && is_space(s.last()) {
        strip_back(s.drop_last())
    } else {
        s
    }
}

/// A text without the white space around it.
pub open spec fn trimmed(s: Seq<char>) -> Seq<char> {
    strip_back(strip_front(s))
}

/// The lines that end within the first `n` characters of a text, and the
/// line that is under way after them. A line ends at a line feed, which is
/// no part of it.
pub open spec fn lines_scanned(s: Seq<char>, n: int) -> (Seq<Seq<char>>, Seq<char>)
    decreases n,
{
    if n <= 0 {
        (Seq::<Seq<char>>::empty(), Seq::<char>::empty())
    } else {
        let (done, line) = lines_scanned(s, n - 1);
        if s[n - 1] == '\n' {
            (done.push(line), Seq::<char>::empty())
        } else {
            (done, line.push(s[n - 1]))
        }
    }
}

/// The lines of a text, the last one included, which no line feed ends.
pub open spec fn lines_of(s: Seq<char>) -> Seq<Seq<char>> {
    lines_scanned(s, s.len() as int).0.push(lines_scanned(s, s.len() as int).1)
}

/// The names that the first `n` lines hold: each line without the white
/// space around it, empty lines left out, each name once.
pub open spec fn names_among(lines: Seq<Seq<char>>, n: int) -> Seq<Seq<char>>
    decreases n,
{
    if n <= 0 {
        Seq::<Seq<char>>::empty()
    } else {
        let head = names_among(lines, n - 1);
        let name = trimmed(lines[n - 1]);
        if name.len() == 0 || head.contains(name) {
            head
        } else {
            head.push(name)
        }
    }
}

/// The favorites that a kept text holds.
pub open spec fn favorites_of(content: Seq<char>) -> Seq<Seq<char>> {
    names_among(lines_of(content), lines_of(content).len() as int)
}

/// The first `n` names, one per line.
pub open spec fn joined(names: Seq<Seq<char>>, n: int) -> Seq<char>
    decreases n,
{
    if n <= 0 {
        Seq::<char>::empty()
    } else if n == 1 {
        names[0]
    } else {
        joined(names, n - 1) + seq!['\n'] + names[n - 1]
    }
}

/// The line without the white space around it.
pub fn trim(line: &Vec<char>) -> (r: String)
    ensures
        r@ == trimmed(line@),
{
    let mut start: usize = 0;
    assert(line@.skip(0) =~= line@);
    while start < line.len() && is_whitespace(line[start])
        invariant
            start <= line@.len(),
            strip_front(line@) == strip_front(line@.skip(start as int)),
        decreases line@.len() - start,
    {
        assert(line@.skip(start as int).drop_first() =~= line@.skip(start + 1));
        start = start + 1;
    }
    let ghost front = line@.skip(start as int);
    let mut end: usize = line.len();
    while end > start && is_whitespace(line[end - 1])
        invariant
            start <= end <= line@.len(),
            strip_back(front) == strip_back(line@.subrange(start as int, end as int)),
        decreases end,
    {
        assert(line@.subrange(start as int, end as int).drop_last() =~= line@.subrange(
            start as int,
            end - 1,
        ));
        end = end - 1;
    }
    let mut out = String::new();
    push_range(&mut out, line, start, end);
    out
}

/// Load favorites: the names that the kept text holds.
pub fn parse_favorites(content: &str) -> (r: Vec<String>)
    ensures
        texts(r@) == favorites_of(content@),
        texts(r@).no_duplicates(),
{
    let chars = chars_of(content);
    let mut lines: Vec<Vec<char>> = Vec::new();
    let mut line: Vec<char> = Vec::new();
    let mut i: usize = 0;
    while i < chars.len()
        invariant
            i <= chars@.len(),
            chars@ == content@,
            lines@.map_values(|l: Vec<char>| l@) == lines_scanned(content@, i as int).0,
            line@ == lines_scanned(content@, i as int).1,
        decreases chars@.len() - i,
    {
        if chars[i] == '\n' {
            lines.push(line);
            line = Vec::new();
        } else {
            line.push(chars[i]);
        }
        i = i + 1;
    }
    lines.push(line);
    let ghost all = lines_of(content@);
    let mut names: Vec<String> = Vec::new();
    let mut k: usize = 0;
    while k < lines.len()
        invariant
            k <= lines@.len(),
            lines@.map_values(|l: Vec<char>| l@) == all,
            texts(names@) == names_among(all, k as int),
            texts(names@).no_duplicates(),
        decreases lines@.len() - k,
    {
        let name = trim(&lines[k]);
        if name.as_str().unicode_len() > 0 && !holds_text(&names, name.as_str()) {
            proof {
                crate::app::lemma_with_once_keeps_unique(texts(names@), name@);
            }
            names.push(name);
        }
        k = k + 1;
    }
    names
}

impl App {
    /// Save favorites: the text that keeps them, one name per line.
    pub fn favorites_text(&self) -> (r: String)
        ensures
            r@ == joined(self@.favorites, self@.favorites.len() as int),
    {
        let mut out = String::new();
        let mut i: usize = 0;
        while i < self.favorites.len()
            invariant
                i <= self.favorites@.len(),
                out@ == joined(self@.favorites, i as int),
            decreases self.favorites@.len() - i,
        {
            if i > 0 {
                out.append("\n");
                proof {
                    reveal_strlit("\n");
                }
            }
            out.append(self.favorites[i].as_str());
            i = i + 1;
        }
        out
    }
}

} // verus!
