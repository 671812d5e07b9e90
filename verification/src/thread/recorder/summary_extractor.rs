//! The extraction of a summary from an answer.
//!
//! A summary is the first paragraph that holds one of the keywords, or
//! else the last paragraphs joined, cut to a length in bytes of UTF-8.

use vstd::prelude::*;
use crate::text::{
    chars_of, clone_texts, contains, is_blank, is_blank_text, occurs, pieces_from, scan_back_spaces,
    scan_spaces, split_on, text_of_all, trimmed, views,
};

verus! {

/// The number of bytes that a character takes in UTF-8.
pub open spec fn char_width(c: char) -> nat {
    let n = c as u32;
    if n < 0x80 {
        1
    } else if n < 0x800 {
        2
    } else if n < 0x10000 {
        3
    } else {
        4
    }
}

/// The number of bytes that a text takes in UTF-8.
pub open spec fn utf8_length(s: Seq<char>) -> nat
    decreases s.len(),
{
    if s.len() == 0 {
        0
    } else {
        utf8_length(s.drop_last()) + char_width(s.last())
    }
}

/// A text takes at most four bytes for each of its characters.
pub proof fn lemma_utf8_length_bound(s: Seq<char>)
    ensures
        s.len() <= utf8_length(s) <= 4 * s.len(),
    decreases s.len(),
{
    if s.len() > 0 {
        lemma_utf8_length_bound(s.drop_last());
    }
}

/// How `str::to_lowercase` writes a text in lower case.
pub uninterp spec fn lowercase(text: Seq<char>) -> Seq<char>;

/// Writes a text in lower case with `str::to_lowercase`. The contract
/// names the result: the same text always gives the same lower case.
#[verifier::external_body]
fn to_lower(text: &str) -> (r: String)
    ensures
        r@ == lowercase(text@),
{
    text.to_lowercase()
}

/// The pieces that are not blank, in order.
pub open spec fn not_blank(pieces: Seq<Seq<char>>) -> Seq<Seq<char>>
    decreases pieces.len(),
{
    if pieces.len() == 0 {
        Seq::empty()
    } else {
        let before = not_blank(pieces.drop_last());
        if is_blank(pieces.last()) {
            before
        } else {
            before.push(pieces.last())
        }
    }
}

/// The paragraphs of a text: its lines that are not blank.
pub open spec fn paragraphs_of(content: Seq<char>) -> Seq<Seq<char>> {
    not_blank(pieces_from(content, '\n', 0))
}

/// Whether a text holds one of the keywords, whatever the case of either.
pub open spec fn has_keyword(text: Seq<char>, keywords: Seq<Seq<char>>) -> bool {
    exists|k: int|
        0 <= k < keywords.len() && occurs(lowercase(text), lowercase(#[trigger] keywords[k]))
}

/// The first place at or after `from` whose paragraph holds a keyword, or
/// the number of paragraphs.
pub open spec fn first_with_keyword(
    paragraphs: Seq<Seq<char>>,
    keywords: Seq<Seq<char>>,
    from: int,
) -> int
    decreases paragraphs.len() - from,
{
    if 0 <= from < paragraphs.len() && !has_keyword(paragraphs[from], keywords) {
        first_with_keyword(paragraphs, keywords, from + 1)
    } else {
        from
    }
}

/// The place at which a text that is too long is cut: the first
/// character that begins behind byte `max`, or the last character where
/// none does. `offset` is the byte at which character `at` begins.
pub open spec fn cut_place(s: Seq<char>, max: nat, at: int, offset: nat) -> int
    decreases s.len() - at,
{
    if at < 0 || at + 1 >= s.len() || offset > max {
        at
    } else {
        cut_place(s, max, at + 1, offset + char_width(s[at]))
    }
}

/// A text cut without splitting a character: the text itself where it has
/// at most `max` bytes, else its characters before the [`cut_place`].
pub open spec fn safely_cut(s: Seq<char>, max: nat) -> Seq<char> {
    if utf8_length(s) <= max {
        s
    } else {
        s.take(cut_place(s, max, 0, 0))
    }
}

/// Whether a character ends a sentence.
pub open spec fn ends_sentence(c: char) -> bool {
    c == '。' || c == '？' || c == '！' || c == '.' || c == '?' || c == '!' || c == ';' || c == '；'
        || c == '\n'
}

/// Whether a character ends a clause.
pub open spec fn ends_clause(c: char) -> bool {
    c == ',' || c == '，' || c == ';' || c == '；'
}

/// Whether a character ends a sentence, or a clause where `clause` is set.
pub open spec fn is_ending(c: char, clause: bool) -> bool {
    if clause {
        ends_clause(c)
    } else {
        ends_sentence(c)
    }
}

/// The last place below `upto` that holds an ending, or -1.
pub open spec fn last_ending(s: Seq<char>, clause: bool, upto: int) -> int
    decreases upto,
{
    if upto <= 0 || upto > s.len() {
        -1
    } else if is_ending(s[upto - 1], clause) {
        upto - 1
    } else {
        last_ending(s, clause, upto - 1)
    }
}

/// A text cut at the end of a sentence: the text itself where it has at
/// most `max` bytes; else its safe cut, cut again behind its last end of
/// a sentence, or behind its last end of a clause where no sentence ends
/// in it, and trimmed; nothing where neither ends in it.
pub open spec fn cut_at_boundary(s: Seq<char>, max: nat) -> Option<Seq<char>> {
    if utf8_length(s) <= max {
        Some(s)
    } else {
        let cut = safely_cut(s, max);
        let sentence = last_ending(cut, false, cut.len() as int);
        let clause = last_ending(cut, true, cut.len() as int);
        if sentence >= 0 {
            Some(trimmed(cut.take(sentence + 1)))
        } else if clause >= 0 {
            Some(trimmed(cut.take(clause + 1)))
        } else {
            None
        }
    }
}

/// A text brought to a length: trimmed, and left as it is where it has
/// at most `max` bytes or fewer than `min`; else cut at a boundary, or
/// safely where it has none.
pub open spec fn cut_to_length(text: Seq<char>, min: nat, max: nat) -> Seq<char> {
    let t = trimmed(text);
    if utf8_length(t) <= max || utf8_length(t) < min {
        t
    } else {
        match cut_at_boundary(t, max) {
            Some(cut) => cut,
            None => safely_cut(t, max),
        }
    }
}

/// The last paragraphs joined with blanks, from paragraph `at` backwards:
/// a paragraph is taken in as long as the whole stays within `max` bytes,
/// and no more are taken once it has reached `min`.
pub open spec fn merged_back(
    paragraphs: Seq<Seq<char>>,
    at: int,
    merged: Seq<char>,
    min: nat,
    max: nat,
) -> Seq<char>
    decreases at + 1,
{
    if at < 0 || at >= paragraphs.len() {
        merged
    } else {
        let next = if at == paragraphs.len() - 1 {
            paragraphs[at]
        } else {
            paragraphs[at] + seq![' '] + merged
        };
        if utf8_length(next) > max {
            merged
        } else if utf8_length(next) >= min {
            next
        } else {
            merged_back(paragraphs, at - 1, next, min, max)
        }
    }
}

/// The last paragraphs joined and brought to a length.
pub open spec fn merged_summary(paragraphs: Seq<Seq<char>>, min: nat, max: nat) -> Seq<char> {
    if paragraphs.len() == 0 {
        Seq::empty()
    } else {
        cut_to_length(merged_back(paragraphs, paragraphs.len() - 1, Seq::empty(), min, max), min, max)
    }
}

/// The summary of a text.
pub open spec fn summary_of(content: Seq<char>, keywords: Seq<Seq<char>>, min: nat, max: nat)
    -> Seq<char> {
    let paragraphs = paragraphs_of(content);
    let at = first_with_keyword(paragraphs, keywords, 0);
    if at < paragraphs.len() {
        cut_to_length(paragraphs[at], min, max)
    } else {
        merged_summary(paragraphs, min, max)
    }
}

/// The number of bytes that a character takes in UTF-8.
pub fn width_of(c: char) -> (w: u128)
    ensures
        w == char_width(c),
{
    let n: u32 = c as u32;
    if n < 0x80 {
        1
    } else if n < 0x800 {
        2
    } else if n < 0x10000 {
        3
    } else {
        4
    }
}

/// The number of bytes that the characters take in UTF-8.
pub fn length_of(chars: &Vec<char>) -> (n: u128)
    ensures
        n == utf8_length(chars@),
{
    let mut n: u128 = 0;
    let mut i: usize = 0;
    assert(chars@.take(0) =~= Seq::<char>::empty());
    while i < chars.len()
        invariant
            0 <= i <= chars@.len(),
            n == utf8_length(chars@.take(i as int)),
        decreases chars@.len() - i,
    {
        proof {
            assert(chars@.take(i + 1).drop_last() =~= chars@.take(i as int));
            assert(chars@.take(i + 1).last() == chars@[i as int]);
            lemma_utf8_length_bound(chars@.take(i as int));
        }
        n = n + width_of(chars[i]);
        i += 1;
    }
    assert(chars@.take(chars@.len() as int) =~= chars@);
    n
}

/// The characters without leading and trailing white space.
fn trim_chars(chars: &Vec<char>) -> (out: Vec<char>)
    ensures
        out@ == trimmed(chars@),
{
    let start = scan_spaces(chars, 0);
    let end = scan_back_spaces(chars, chars.len());
    let mut out: Vec<char> = Vec::new();
    if start >= end {
        return out;
    }
    let mut i: usize = start;
    while i < end
        invariant
            start <= i <= end <= chars@.len(),
            out@ == chars@.subrange(start as int, i as int),
        decreases end - i,
    {
        out.push(chars[i]);
        i += 1;
    }
    out
}

/// The first `n` characters.
fn take_chars(chars: &Vec<char>, n: usize) -> (out: Vec<char>)
    requires
        n <= chars@.len(),
    ensures
        out@ == chars@.take(n as int),
{
    let mut out: Vec<char> = Vec::new();
    let mut i: usize = 0;
    while i < n
        invariant
            0 <= i <= n <= chars@.len(),
            out@ == chars@.take(i as int),
        decreases n - i,
    {
        out.push(chars[i]);
        i += 1;
    }
    out
}

/// The characters cut without splitting a character.
fn cut_chars(chars: &Vec<char>, max_length: usize) -> (out: Vec<char>)
    ensures
        out@ == safely_cut(chars@, max_length as nat),
{
    if length_of(chars) <= max_length as u128 {
        return take_all(chars);
    }
    proof {
        lemma_utf8_length_bound(chars@);
    }
    let mut at: usize = 0;
    let mut offset: u128 = 0;
    while at < chars.len() - 1 && offset <= max_length as u128
        invariant
            0 <= at < chars@.len(),
            offset <= 4 * at,
            cut_place(chars@, max_length as nat, at as int, offset as nat) == cut_place(
                chars@,
                max_length as nat,
                0,
                0,
            ),
        decreases chars@.len() - at,
    {
        offset = offset + width_of(chars[at]);
        at += 1;
    }
    take_chars(chars, at)
}

/// A copy of the characters.
fn take_all(chars: &Vec<char>) -> (out: Vec<char>)
    ensures
        out@ == chars@,
{
    let out = take_chars(chars, chars.len());
    assert(chars@.take(chars@.len() as int) =~= chars@);
    out
}

/// Whether a character ends a sentence, or a clause where `clause` is set.
fn ending(c: char, clause: bool) -> (r: bool)
    ensures
        r == is_ending(c, clause),
{
    if clause {
        c == ',' || c == '，' || c == ';' || c == '；'
    } else {
        c == '。' || c == '？' || c == '！' || c == '.' || c == '?' || c == '!' || c == ';' || c
            == '；' || c == '\n'
    }
}

/// The number of characters up to and with the last ending, if there is
/// one.
fn find_ending(chars: &Vec<char>, clause: bool) -> (r: Option<usize>)
    ensures
        match r {
            Some(n) => n == last_ending(chars@, clause, chars@.len() as int) + 1 && 1 <= n
                <= chars@.len(),
            None => last_ending(chars@, clause, chars@.len() as int) < 0,
        },
{
    let mut i: usize = chars.len();
    while i > 0
        invariant
            0 <= i <= chars@.len(),
            last_ending(chars@, clause, i as int) == last_ending(
                chars@,
                clause,
                chars@.len() as int,
            ),
        decreases i,
    {
        if ending(chars[i - 1], clause) {
            return Some(i);
        }
        i -= 1;
    }
    None
}

/// The characters cut at the end of a sentence.
fn cut_at_boundary_chars(chars: &Vec<char>, max_length: usize) -> (r: Option<Vec<char>>)
    ensures
        match r {
            Some(out) => cut_at_boundary(chars@, max_length as nat) == Some(out@),
            None => cut_at_boundary(chars@, max_length as nat) is None,
        },
{
    if length_of(chars) <= max_length as u128 {
        return Some(take_all(chars));
    }
    let cut = cut_chars(chars, max_length);
    match find_ending(&cut, false) {
        Some(n) => {
            let head = take_chars(&cut, n);
            Some(trim_chars(&head))
        },
        None => match find_ending(&cut, true) {
            Some(n) => {
                let head = take_chars(&cut, n);
                Some(trim_chars(&head))
            },
            None => None,
        },
    }
}

/// The characters brought to a length.
fn cut_to_length_chars(chars: &Vec<char>, min_length: usize, max_length: usize) -> (out: Vec<char>)
    ensures
        out@ == cut_to_length(chars@, min_length as nat, max_length as nat),
{
    let t = trim_chars(chars);
    let n = length_of(&t);
    if n <= max_length as u128 || n < min_length as u128 {
        return t;
    }
    match cut_at_boundary_chars(&t, max_length) {
        Some(cut) => cut,
        None => cut_chars(&t, max_length),
    }
}

/// The extractor of summaries.
#[derive(Debug, Clone, PartialEq)]
pub struct SummaryExtractor {
    keywords: Vec<String>,
}

impl SummaryExtractor {
    /// The keywords that mark a summary.
    pub closed spec fn keywords_of(&self) -> Seq<Seq<char>> {
        views(self.keywords@)
    }

    /// An extractor for the given keywords.
    pub fn new(keywords: &Vec<String>) -> (r: Self)
        ensures
            r.keywords_of() == views(keywords@),
    {
        SummaryExtractor { keywords: clone_texts(keywords) }
    }

    /// The summary of `content`: the first paragraph that holds a keyword,
    /// or else the last paragraphs joined, brought to a length between
    /// `min_length` and `max_length` bytes as far as that can be done.
    pub fn extract_with_length_limits(&self, content: &str, min_length: usize, max_length: usize)
        -> (out: String)
        ensures
            out@ == summary_of(content@, self.keywords_of(), min_length as nat, max_length as nat),
    {
        let pieces = split_on(content, '\n');
        let ghost all = pieces_from(content@, '\n', 0);
        let mut paragraphs: Vec<String> = Vec::new();
        let mut i: usize = 0;
        proof {
            assert(all.take(0) =~= Seq::<Seq<char>>::empty());
            assert(views(paragraphs@) =~= not_blank(all.take(0)));
        }
        while i < pieces.len()
            invariant
                0 <= i <= pieces@.len(),
                views(pieces@) == all,
                views(paragraphs@) == not_blank(all.take(i as int)),
            decreases pieces@.len() - i,
        {
            proof {
                assert(all.take(i + 1).drop_last() =~= all.take(i as int));
                assert(all.take(i + 1).last() == pieces@[i as int]@);
            }
            if !is_blank_text(pieces[i].as_str()) {
                let ghost before = views(paragraphs@);
                paragraphs.push(pieces[i].clone());
                assert(views(paragraphs@) =~= before.push(pieces@[i as int]@));
            }
            i += 1;
        }
        assert(all.take(pieces@.len() as int) =~= all);
        match self.find_summary_paragraph(&paragraphs) {
            Some(at) => {
                assert(views(paragraphs@)[at as int] == paragraphs@[at as int]@);
                self.truncate_to_length(paragraphs[at].as_str(), min_length, max_length)
            },
            None => self.merge_last_paragraphs(&paragraphs, min_length, max_length),
        }
    }

    /// The place of the first paragraph that holds a keyword.
    pub fn find_summary_paragraph(&self, paragraphs: &Vec<String>) -> (r: Option<usize>)
        ensures
            match r {
                Some(at) => at < paragraphs@.len() && at == first_with_keyword(
                    views(paragraphs@),
                    self.keywords_of(),
                    0,
                ),
                None => first_with_keyword(views(paragraphs@), self.keywords_of(), 0)
                    >= paragraphs@.len(),
            },
    {
        let mut i: usize = 0;
        while i < paragraphs.len()
            invariant
                0 <= i <= paragraphs@.len(),
                first_with_keyword(views(paragraphs@), self.keywords_of(), i as int)
                    == first_with_keyword(views(paragraphs@), self.keywords_of(), 0),
            decreases paragraphs@.len() - i,
        {
            assert(views(paragraphs@)[i as int] == paragraphs@[i as int]@);
            if self.contains_summary_keyword(paragraphs[i].as_str()) {
                return Some(i);
            }
            i += 1;
        }
        None
    }

    /// Whether a text holds one of the keywords, whatever the case.
    pub fn contains_summary_keyword(&self, text: &str) -> (r: bool)
        ensures
            r == has_keyword(text@, self.keywords_of()),
    {
        let lower_text = to_lower(text);
        let mut k: usize = 0;
        while k < self.keywords.len()
            invariant
                0 <= k <= self.keywords@.len(),
                lower_text@ == lowercase(text@),
                forall|j: int|
                    0 <= j < k ==> !occurs(
                        lowercase(text@),
                        lowercase(#[trigger] self.keywords_of()[j]),
                    ),
            decreases self.keywords@.len() - k,
        {
            let lower_keyword = to_lower(self.keywords[k].as_str());
            assert(self.keywords_of()[k as int] == self.keywords@[k as int]@);
            if contains(lower_text.as_str(), lower_keyword.as_str()) {
                return true;
            }
            k += 1;
        }
        false
    }

    /// The last paragraphs joined with blanks and brought to a length.
    pub fn merge_last_paragraphs(
        &self,
        paragraphs: &Vec<String>,
        min_length: usize,
        max_length: usize,
    ) -> (out: String)
        ensures
            out@ == merged_summary(views(paragraphs@), min_length as nat, max_length as nat),
    {
        if paragraphs.len() == 0 {
            return String::new();
        }
        let ghost all = views(paragraphs@);
        let last = paragraphs.len() - 1;
        let mut merged: Vec<char> = Vec::new();
        let mut at: usize = paragraphs.len();
        let mut done = false;
        while at > 0 && !done
            invariant
                0 <= at <= paragraphs@.len(),
                last == paragraphs@.len() - 1,
                all == views(paragraphs@),
                !done ==> merged_back(all, at - 1, merged@, min_length as nat, max_length as nat)
                    == merged_back(
                    all,
                    last as int,
                    Seq::empty(),
                    min_length as nat,
                    max_length as nat,
                ),
                done ==> merged@ == merged_back(
                    all,
                    last as int,
                    Seq::empty(),
                    min_length as nat,
                    max_length as nat,
                ),
            decreases at + (if done { 0int } else { 1int }),
        {
            let i = at - 1;
            assert(all[i as int] == paragraphs@[i as int]@);
            let mut next = chars_of(paragraphs[i].as_str());
            if i != last {
                next.push(' ');
                let mut j: usize = 0;
                let ghost head = next@;
                while j < merged.len()
                    invariant
                        0 <= j <= merged@.len(),
                        next@ == head + merged@.take(j as int),
                    decreases merged@.len() - j,
                {
                    next.push(merged[j]);
                    assert(merged@.take(j + 1) =~= merged@.take(j as int).push(merged@[j as int]));
                    j += 1;
                }
                assert(merged@.take(merged@.len() as int) =~= merged@);
                assert(next@ =~= all[i as int] + seq![' '] + merged@);
            }
            let n = length_of(&next);
            if n > max_length as u128 {
                done = true;
            } else if n >= min_length as u128 {
                merged = next;
                done = true;
            } else {
                merged = next;
                at = i;
            }
        }
        let cut = cut_to_length_chars(&merged, min_length, max_length);
        text_of_all(&cut)
    }

    /// A text brought to a length: trimmed, and cut where it is too long.
    pub fn truncate_to_length(&self, text: &str, min_length: usize, max_length: usize) -> (out:
        String)
        ensures
            out@ == cut_to_length(text@, min_length as nat, max_length as nat),
    {
        let chars = chars_of(text);
        let cut = cut_to_length_chars(&chars, min_length, max_length);
        text_of_all(&cut)
    }

    /// A text cut at the end of a sentence or of a clause, if it has one
    /// within `max_length` bytes.
    pub fn truncate_at_sentence_boundary(&self, text: &str, max_length: usize) -> (r: Option<
        String,
    >)
        ensures
            match r {
                Some(out) => cut_at_boundary(text@, max_length as nat) == Some(out@),
                None => cut_at_boundary(text@, max_length as nat) is None,
            },
    {
        let chars = chars_of(text);
        match cut_at_boundary_chars(&chars, max_length) {
            Some(cut) => Some(text_of_all(&cut)),
            None => None,
        }
    }

    /// A text cut without splitting a character.
    pub fn safe_char_truncate(&self, text: &str, max_length: usize) -> (out: String)
        ensures
            out@ == safely_cut(text@, max_length as nat),
    {
        let chars = chars_of(text);
        let cut = cut_chars(&chars, max_length);
        text_of_all(&cut)
    }
}

} // verus!
