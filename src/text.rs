//! Text matching and the relevance score of a text query.
use vstd::prelude::*;
use crate::model::{str_eq, DocumentModel};

verus! {

/// Whether `needle` occurs in `hay` starting at position `i`.
pub open spec fn occurs_at(hay: Seq<char>, needle: Seq<char>, i: int) -> bool {
    0 <= i && i + needle.len() <= hay.len() && hay.subrange(i, i + needle.len()) == needle
}

/// Whether `needle` occurs anywhere in `hay`; the empty text occurs in every text.
pub open spec fn contains_text(hay: Seq<char>, needle: Seq<char>) -> bool {
    exists|i: int| occurs_at(hay, needle, i)
}

/// How well a text query matches a document: one point for each of its body
/// and its path (the default query fields) in which the text occurs, and one
/// if the text is one of its keywords. A document with no point does not match.
pub open spec fn text_score(d: DocumentModel, q: Seq<char>) -> int {
    (if contains_text(d.entity_data, q) { 1int } else { 0int }) + (if contains_text(
        d.document_path,
        q,
    ) {
        1int
    } else {
        0int
    }) + (if d.entity_keywords.contains(q) { 1int } else { 0int })
}

fn occurs_at_exec(hay: &str, needle: &str, i: usize) -> (r: bool)
    requires
        i + needle@.len() <= hay@.len(),
    ensures
        r == occurs_at(hay@, needle@, i as int),
{
    let n = hay.unicode_len();
    let m = needle.unicode_len();
    let mut j: usize = 0;
    while j < m
        invariant
            n == hay@.len(),
            m == needle@.len(),
            i + m <= hay@.len(),
            j <= m,
            forall|k: int| 0 <= k < j ==> hay@[i + k] == needle@[k],
        decreases m - j,
    {
        if hay.get_char(i + j) != needle.get_char(j) {
            assert(hay@.subrange(i as int, i + m)[j as int] != needle@[j as int]);
            return false;
        }
        j = j + 1;
    }
    assert(hay@.subrange(i as int, i + m) =~= needle@);
    true
}

/// Whether `needle` occurs in `hay`.
pub fn find_text(hay: &str, needle: &str) -> (r: bool)
    ensures
        r == contains_text(hay@, needle@),
{
    let n = hay.unicode_len();
    let m = needle.unicode_len();
    if m > n {
        assert(!contains_text(hay@, needle@));
        return false;
    }
    let mut i: usize = 0;
    while i < n - m
        invariant
            n == hay@.len(),
            m == needle@.len(),
            m <= n,
            i <= n - m,
            forall|k: int| 0 <= k < i ==> !occurs_at(hay@, needle@, k),
        decreases n - m - i,
    {
        if occurs_at_exec(hay, needle, i) {
            return true;
        }
        i = i + 1;
    }
    let last = occurs_at_exec(hay, needle, n - m);
    assert(!last ==> forall|k: int| !occurs_at(hay@, needle@, k));
    last
}

/// Whether `word` is one of `words`.
pub fn has_word(words: &Vec<String>, word: &str) -> (r: bool)
    ensures
        r == words@.map_values(|s: String| s@).contains(word@),
{
    let ghost view = words@.map_values(|s: String| s@);
    let mut i: usize = 0;
    while i < words.len()
        invariant
            view == words@.map_values(|s: String| s@),
            i <= words.len(),
            forall|k: int| 0 <= k < i ==> view[k] != word@,
        decreases words.len() - i,
    {
        if str_eq(words[i].as_str(), word) {
            assert(view[i as int] == word@);
            return true;
        }
        i = i + 1;
    }
    false
}

/// The score of a text query on the document.
pub fn document_text_score(d: &crate::model::Document, q: &str) -> (r: u8)
    ensures
        r as int == text_score(d@, q@),
        r <= 3,
{
    let mut r: u8 = 0;
    if find_text(d.entity_data.as_str(), q) {
        r = r + 1;
    }
    if find_text(d.document_path.as_str(), q) {
        r = r + 1;
    }
    if has_word(&d.entity_keywords, q) {
        r = r + 1;
    }
    r
}

} // verus!
