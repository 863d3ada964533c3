//! The line that the user types, and the city name taken from it.

use vstd::prelude::*;
use vstd::string::*;

verus! {

/// The characters that Unicode gives the property `White_Space`.
pub open spec fn is_whitespace(c: char) -> bool {
    ||| '\u{9}' <= c <= '\u{d}'
    ||| c == ' '
    ||| c == '\u{85}'
    ||| c == '\u{a0}'
    ||| c == '\u{1680}'
    ||| '\u{2000}' <= c <= '\u{200a}'
    ||| c == '\u{2028}'
    ||| c == '\u{2029}'
    ||| c == '\u{202f}'
    ||| c == '\u{205f}'
    ||| c == '\u{3000}'
}

/// A text made of whitespace only. The empty text is blank.
pub open spec fn is_blank(text: Seq<char>) -> bool {
    forall|i: int| 0 <= i < text.len() ==> is_whitespace(#[trigger] text[i])
}

/// A text that neither starts nor ends with whitespace.
pub open spec fn has_clean_edges(text: Seq<char>) -> bool {
    text.len() > 0 ==> !is_whitespace(text.first()) && !is_whitespace(text.last())
}

/// The text without the whitespace that it starts with.
pub open spec fn trim_start(text: Seq<char>) -> Seq<char>
    decreases text.len(),
{
    if text.len() > 0 && is_whitespace(text.first()) {
        trim_start(text.drop_first())
    } else {
        text
    }
}

/// The text without the whitespace that it ends with.
pub open spec fn trim_end(text: Seq<char>) -> Seq<char>
    decreases text.len(),
{
    if text.len() > 0 && is_whitespace(text.last()) {
        trim_end(text.drop_last())
    } else {
        text
    }
}

/// The text without the whitespace around it.
pub open spec fn trimmed(text: Seq<char>) -> Seq<char> {
    trim_end(trim_start(text))
}

/// Where the first `k` characters are whitespace and the next one is not,
/// trimming the start drops exactly those `k`.
pub proof fn lemma_trim_start_at(text: Seq<char>, k: int)
    requires
        0 <= k <= text.len(),
        forall|j: int| 0 <= j < k ==> is_whitespace(#[trigger] text[j]),
        k < text.len() ==> !is_whitespace(text[k]),
    ensures
        trim_start(text) == text.subrange(k, text.len() as int),
    decreases k,
{
    if k > 0 {
        let rest = text.drop_first();
        assert forall|j: int| 0 <= j < k - 1 implies is_whitespace(#[trigger] rest[j]) by {
            assert(rest[j] == text[j + 1]);
        }
        lemma_trim_start_at(rest, k - 1);
    }
}

/// Where everything from index `k` on is whitespace and the character before
/// it is not, trimming the end keeps exactly the first `k`.
pub proof fn lemma_trim_end_at(text: Seq<char>, k: int)
    requires
        0 <= k <= text.len(),
        forall|j: int| k <= j < text.len() ==> is_whitespace(#[trigger] text[j]),
        k > 0 ==> !is_whitespace(text[k - 1]),
    ensures
        trim_end(text) == text.subrange(0, k),
    decreases text.len() - k,
{
    if k < text.len() {
        let rest = text.drop_last();
        assert forall|j: int| k <= j < rest.len() implies is_whitespace(#[trigger] rest[j]) by {
            assert(rest[j] == text[j]);
        }
        lemma_trim_end_at(rest, k);
    }
}

/// Finds where trimming the start cuts: the index of the first character
/// that is not whitespace, or the length where there is none.
pub proof fn lemma_trim_start_cut(text: Seq<char>) -> (k: int)
    ensures
        0 <= k <= text.len(),
        forall|j: int| 0 <= j < k ==> is_whitespace(#[trigger] text[j]),
        k < text.len() ==> !is_whitespace(text[k]),
        trim_start(text) == text.subrange(k, text.len() as int),
    decreases text.len(),
{
    if text.len() > 0 && is_whitespace(text.first()) {
        let rest = text.drop_first();
        let k = lemma_trim_start_cut(rest) + 1;
        assert forall|j: int| 0 <= j < k implies is_whitespace(#[trigger] text[j]) by {
            if j > 0 {
                assert(text[j] == rest[j - 1]);
            }
        }
        k
    } else {
        0
    }
}

/// Finds where trimming the end cuts: one past the index of the last
/// character that is not whitespace, or zero where there is none.
pub proof fn lemma_trim_end_cut(text: Seq<char>) -> (k: int)
    ensures
        0 <= k <= text.len(),
        forall|j: int| k <= j < text.len() ==> is_whitespace(#[trigger] text[j]),
        k > 0 ==> !is_whitespace(text[k - 1]),
        trim_end(text) == text.subrange(0, k),
    decreases text.len(),
{
    if text.len() > 0 && is_whitespace(text.last()) {
        let rest = text.drop_last();
        let k = lemma_trim_end_cut(rest);
        assert forall|j: int| k <= j < text.len() implies is_whitespace(#[trigger] text[j]) by {
            if j < rest.len() {
                assert(text[j] == rest[j]);
            }
        }
        k
    } else {
        text.len() as int
    }
}

/// Trimming takes blank text away from both ends and nothing else: the text
/// is some blank text, then the trimmed text, then some blank text, and the
/// trimmed text has clean edges.
pub proof fn lemma_trimmed_parts(text: Seq<char>) -> (pads: (Seq<char>, Seq<char>))
    ensures
        is_blank(pads.0),
        is_blank(pads.1),
        text == pads.0 + trimmed(text) + pads.1,
        has_clean_edges(trimmed(text)),
{
    let from = lemma_trim_start_cut(text);
    let tail = text.subrange(from, text.len() as int);
    let kept = lemma_trim_end_cut(tail);
    let before = text.subrange(0, from);
    let after = tail.subrange(kept, tail.len() as int);
    (before, after)
}

/// Blank text around a text with clean edges is exactly what trimming takes
/// away.
pub proof fn lemma_trim_strips_padding(before: Seq<char>, core: Seq<char>, after: Seq<char>)
    requires
        is_blank(before),
        is_blank(after),
        has_clean_edges(core),
    ensures
        trimmed(before + core + after) == core,
{
    let text = before + core + after;
    if core.len() == 0 {
        assert forall|j: int| 0 <= j < text.len() implies is_whitespace(#[trigger] text[j]) by {
            if j < before.len() {
                assert(text[j] == before[j]);
            } else {
                assert(text[j] == after[j - before.len()]);
            }
        }
        lemma_trim_start_at(text, text.len() as int);
    } else {
        let from = before.len() as int;
        assert forall|j: int| 0 <= j < from implies is_whitespace(#[trigger] text[j]) by {
            assert(text[j] == before[j]);
        }
        lemma_trim_start_at(text, from);
        let tail = text.subrange(from, text.len() as int);
        let kept = core.len() as int;
        assert forall|j: int| kept <= j < tail.len() implies is_whitespace(#[trigger] tail[j]) by {
            assert(tail[j] == after[j - kept]);
        }
        lemma_trim_end_at(tail, kept);
    }
}

/// Trimming twice gives what trimming once gives.
pub proof fn lemma_trimmed_is_fixed(text: Seq<char>)
    ensures
        trimmed(trimmed(text)) == trimmed(text),
{
    let _ = lemma_trimmed_parts(text);
    let core = trimmed(text);
    lemma_trim_strips_padding(Seq::empty(), core, Seq::empty());
}

/// Tells whether `c` is whitespace.
pub fn is_whitespace_char(c: char) -> (white: bool)
    ensures
        white == is_whitespace(c),
{
    ('\u{9}' <= c && c <= '\u{d}') || c == ' ' || c == '\u{85}' || c == '\u{a0}' || c
        == '\u{1680}' || ('\u{2000}' <= c && c <= '\u{200a}') || c == '\u{2028}' || c
        == '\u{2029}' || c == '\u{202f}' || c == '\u{205f}' || c == '\u{3000}'
}

/// Takes the city name out of the line that was read: the line without the
/// whitespace around it, the line's end included.
pub fn trim_input(line: &str) -> (city: String)
    ensures
        city@ == trimmed(line@),
{
    let n = line.unicode_len();
    let mut start: usize = n;
    let mut end: usize = 0;
    let mut i: usize = 0;
    for c in it: line.chars()
        invariant
            it.seq() == line@,
            n == line@.len(),
            i == it.index(),
            end <= i,
            end == 0 <==> start == n,
            end > 0 ==> start < end,
            forall|j: int| 0 <= j < i && j < start ==> is_whitespace(#[trigger] line@[j]),
            forall|j: int| end <= j < i ==> is_whitespace(#[trigger] line@[j]),
            end > 0 ==> !is_whitespace(line@[start as int]) && !is_whitespace(line@[end - 1]),
    {
        if !is_whitespace_char(c) {
            if end == 0 {
                start = i;
            }
            end = i + 1;
        }
        i += 1;
    }
    if end == 0 {
        start = 0;
    }
    proof {
        let text = line@;
        if end == 0 {
            lemma_trim_start_at(text, text.len() as int);
        } else {
            lemma_trim_start_at(text, start as int);
            let tail = text.subrange(start as int, text.len() as int);
            lemma_trim_end_at(tail, end - start);
        }
    }
    String::from_str(line.substring_char(start, end))
}

} // verus!
