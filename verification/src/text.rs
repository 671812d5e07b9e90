//! Character-level text operations.
//!
//! Command output arrives as text whose layout differs from platform to
//! platform. Everything the parsers and executors need from it is defined
//! here over `Seq<char>`, and each executable function is proved against
//! that definition.

use vstd::prelude::*;
use vstd::string::StringSliceAdditionalSpecFns;
use vstd::utf8::encode_utf8;

verus! {

/// The views of a list of strings.
pub open spec fn views(v: Seq<String>) -> Seq<Seq<char>> {
    Seq::new(v.len(), |i: int| v[i]@)
}

/// The number of bytes that a text takes in UTF-8, as far as the machine
/// counts.
pub open spec fn byte_length(s: Seq<char>) -> nat {
    encode_utf8(s).len() as usize as nat
}

/// The number of bytes that a text takes in UTF-8.
pub fn byte_len(s: &str) -> (n: usize)
    ensures
        n == byte_length(s@),
{
    assert(s.spec_bytes() == encode_utf8(s@));
    s.len()
}

/// The view of a string that may be missing.
pub open spec fn option_view(text: Option<String>) -> Option<Seq<char>> {
    match text {
        Some(s) => Some(s@),
        None => None,
    }
}

/// Unicode white space.
pub open spec fn is_space(c: char) -> bool {
    let n = c as u32;
    ||| 0x09 <= n <= 0x0D
    ||| n == 0x20
    ||| n == 0x85
    ||| n == 0xA0
    ||| n == 0x1680
    ||| 0x2000 <= n <= 0x200A
    ||| n == 0x2028
    ||| n == 0x2029
    ||| n == 0x202F
    ||| n == 0x205F
    ||| n == 0x3000
}

/// `true` exactly when every character of `s` is white space.
pub open spec fn is_blank(s: Seq<char>) -> bool {
    forall|i: int| 0 <= i < s.len() ==> is_space(#[trigger] s[i])
}

/// The first position at or after `from` that holds no white space.
pub open spec fn skip_spaces(s: Seq<char>, from: int) -> int
    decreases s.len() - from,
{
    if 0 <= from < s.len() && is_space(s[from]) {
        skip_spaces(s, from + 1)
    } else {
        from
    }
}

/// The first position at or after `from` that holds white space.
pub open spec fn skip_word(s: Seq<char>, from: int) -> int
    decreases s.len() - from,
{
    if 0 <= from < s.len() && !is_space(s[from]) {
        skip_word(s, from + 1)
    } else {
        from
    }
}

/// The first position at or after `from` that holds `c`, or the length.
pub open spec fn find_from(s: Seq<char>, c: char, from: int) -> int
    decreases s.len() - from,
{
    if 0 <= from < s.len() && s[from] != c {
        find_from(s, c, from + 1)
    } else {
        from
    }
}

/// The white-space separated words of `s` that start at or after `from`.
pub open spec fn words_from(s: Seq<char>, from: int) -> Seq<Seq<char>>
    decreases s.len() - from,
{
    if from < 0 || from >= s.len() {
        Seq::empty()
    } else if is_space(s[from]) {
        words_from(s, from + 1)
    } else {
        let end = skip_word(s, from);
        if end <= from || end > s.len() {
            Seq::empty()
        } else {
            seq![s.subrange(from, end)] + words_from(s, end)
        }
    }
}

/// The white-space separated words of `s`, in order.
pub open spec fn words(s: Seq<char>) -> Seq<Seq<char>> {
    words_from(s, 0)
}

/// A line without the carriage return that preceded its line feed.
pub open spec fn without_cr(line: Seq<char>) -> Seq<char> {
    if line.len() > 0 && line.last() == '\r' {
        line.drop_last()
    } else {
        line
    }
}

/// The lines of `s` that start at or after `from`.
pub open spec fn lines_from(s: Seq<char>, from: int) -> Seq<Seq<char>>
    decreases s.len() - from,
{
    if from < 0 || from >= s.len() {
        Seq::empty()
    } else {
        let end = find_from(s, '\n', from);
        if end < from {
            Seq::empty()
        } else if end >= s.len() {
            seq![s.subrange(from, s.len() as int)]
        } else {
            seq![without_cr(s.subrange(from, end))] + lines_from(s, end + 1)
        }
    }
}

/// The lines of `s`: pieces that end at a line feed or at the end of the
/// text, without the line feed and without a carriage return before it.
/// A text that ends in a line feed has no empty last line.
pub open spec fn lines(s: Seq<char>) -> Seq<Seq<char>> {
    lines_from(s, 0)
}

/// The pieces of `s` between occurrences of `c`, from `from` on. There is
/// always one piece more than there are separators.
pub open spec fn pieces_from(s: Seq<char>, c: char, from: int) -> Seq<Seq<char>>
    decreases s.len() - from,
{
    if from < 0 || from > s.len() {
        Seq::empty()
    } else {
        let end = find_from(s, c, from);
        if end < from || end >= s.len() {
            seq![s.subrange(from, s.len() as int)]
        } else {
            seq![s.subrange(from, end)] + pieces_from(s, c, end + 1)
        }
    }
}

/// The position just behind the last character that is no white space.
pub open spec fn trimmed_end(s: Seq<char>, to: int) -> int
    decreases to,
{
    if 0 < to <= s.len() && is_space(s[to - 1]) {
        trimmed_end(s, to - 1)
    } else {
        to
    }
}

/// `s` without leading and trailing white space.
pub open spec fn trimmed(s: Seq<char>) -> Seq<char> {
    let start = skip_spaces(s, 0);
    let end = trimmed_end(s, s.len() as int);
    if start >= end {
        Seq::empty()
    } else {
        s.subrange(start, end)
    }
}

/// `needle` stands in `hay` at position `at`.
pub open spec fn occurs_at(hay: Seq<char>, needle: Seq<char>, at: int) -> bool {
    &&& 0 <= at
    &&& at + needle.len() <= hay.len()
    &&& hay.subrange(at, at + needle.len()) == needle
}

/// `needle` stands somewhere in `hay`.
pub open spec fn occurs(hay: Seq<char>, needle: Seq<char>) -> bool {
    exists|at: int| occurs_at(hay, needle, at)
}

/// `s` begins with `prefix`.
pub open spec fn has_prefix(s: Seq<char>, prefix: Seq<char>) -> bool {
    occurs_at(s, prefix, 0)
}

/// `s` ends with `suffix`.
pub open spec fn has_suffix(s: Seq<char>, suffix: Seq<char>) -> bool {
    occurs_at(s, suffix, s.len() - suffix.len())
}

/// The first position at or after `from` at which `needle` stands in
/// `hay`, or the length of `hay`.
pub open spec fn first_occurrence(hay: Seq<char>, needle: Seq<char>, from: int) -> int
    decreases hay.len() - from,
{
    if 0 <= from < hay.len() && !occurs_at(hay, needle, from) {
        first_occurrence(hay, needle, from + 1)
    } else {
        from
    }
}

/// `s` without the characters `c`.
pub open spec fn without(s: Seq<char>, c: char) -> Seq<char>
    decreases s.len(),
{
    if s.len() == 0 {
        Seq::empty()
    } else if s.last() == c {
        without(s.drop_last(), c)
    } else {
        without(s.drop_last(), c).push(s.last())
    }
}

/// `s` with `to` in place of each character `from`.
pub open spec fn replaced(s: Seq<char>, from: char, to: char) -> Seq<char> {
    Seq::new(s.len(), |i: int| if s[i] == from { to } else { s[i] })
}

/// The position just behind the last character before `to` that is not `c`.
pub open spec fn stripped_end(s: Seq<char>, c: char, to: int) -> int
    decreases to,
{
    if 0 < to <= s.len() && s[to - 1] == c {
        stripped_end(s, c, to - 1)
    } else {
        to
    }
}

/// `s` without the characters `c` at its end.
pub open spec fn without_trailing(s: Seq<char>, c: char) -> Seq<char> {
    s.subrange(0, stripped_end(s, c, s.len() as int))
}

/// The first position at or after `from` that does not hold `c`.
pub open spec fn stripped_start(s: Seq<char>, c: char, from: int) -> int
    decreases s.len() - from,
{
    if 0 <= from < s.len() && s[from] == c {
        stripped_start(s, c, from + 1)
    } else {
        from
    }
}

/// `s` without the characters `c` at its beginning and at its end.
pub open spec fn without_surrounding(s: Seq<char>, c: char) -> Seq<char> {
    let start = stripped_start(s, c, 0);
    let end = stripped_end(s, c, s.len() as int);
    if start >= end {
        Seq::empty()
    } else {
        s.subrange(start, end)
    }
}

/// The part of `s` before position `at`, and nothing where `at` is out of
/// range.
pub open spec fn before(s: Seq<char>, at: int) -> Seq<char> {
    if 0 <= at <= s.len() {
        s.subrange(0, at)
    } else {
        s
    }
}

/// The part of `s` from position `at` on, and nothing where `at` is
/// behind the end.
pub open spec fn after(s: Seq<char>, at: int) -> Seq<char> {
    if 0 <= at <= s.len() {
        s.subrange(at, s.len() as int)
    } else {
        Seq::empty()
    }
}

/// `c` is one of the ten ASCII digits.
pub open spec fn is_digit(c: char) -> bool {
    '0' <= c <= '9'
}

/// The number that the digit `c` stands for.
pub open spec fn digit_value(c: char) -> nat {
    (c as u32 - '0' as u32) as nat
}

/// Every character of `s` is an ASCII digit.
pub open spec fn all_digits(s: Seq<char>) -> bool {
    forall|i: int| 0 <= i < s.len() ==> is_digit(#[trigger] s[i])
}

/// The number that a run of digits denotes in base ten.
pub open spec fn decimal_value(s: Seq<char>) -> nat
    decreases s.len(),
{
    if s.len() == 0 {
        0
    } else {
        decimal_value(s.drop_last()) * 10 + digit_value(s.last())
    }
}

/// The digits of an unsigned number: `s` itself, or `s` behind one `+`.
pub open spec fn unsigned_digits(s: Seq<char>) -> Seq<char> {
    if s.len() > 0 && s[0] == '+' {
        s.drop_first()
    } else {
        s
    }
}

/// What `s` denotes as an unsigned number of at most `max`: an optional
/// `+`, then at least one digit and nothing else.
pub open spec fn parsed_unsigned(s: Seq<char>, max: nat) -> Option<nat> {
    let digits = unsigned_digits(s);
    if digits.len() > 0 && all_digits(digits) && decimal_value(digits) <= max {
        Some(decimal_value(digits))
    } else {
        None
    }
}

/// The character of a digit below ten.
pub open spec fn digit_char(d: nat) -> char {
    if d == 0 {
        '0'
    } else if d == 1 {
        '1'
    } else if d == 2 {
        '2'
    } else if d == 3 {
        '3'
    } else if d == 4 {
        '4'
    } else if d == 5 {
        '5'
    } else if d == 6 {
        '6'
    } else if d == 7 {
        '7'
    } else if d == 8 {
        '8'
    } else {
        '9'
    }
}

/// The digits of `n` in base ten, without leading zeros; `0` is "0".
pub open spec fn decimal_text(n: nat) -> Seq<char>
    decreases n,
{
    if n < 10 {
        seq![digit_char(n)]
    } else {
        decimal_text(n / 10).push(digit_char(n % 10))
    }
}

/// The parts from `from` on, with `sep` between any two of them.
pub open spec fn joined_from(parts: Seq<Seq<char>>, sep: Seq<char>, from: int) -> Seq<char>
    decreases parts.len() - from,
{
    if from < 0 || from >= parts.len() {
        Seq::empty()
    } else if from == parts.len() - 1 {
        parts[from]
    } else {
        parts[from] + sep + joined_from(parts, sep, from + 1)
    }
}

/// The parts with `sep` between any two of them.
pub open spec fn joined(parts: Seq<Seq<char>>, sep: Seq<char>) -> Seq<char> {
    joined_from(parts, sep, 0)
}

/// Skipping white space stops within the text, at a character that is no
/// white space, and passes nothing but white space.
pub proof fn lemma_skip_spaces_bounds(s: Seq<char>, from: int)
    requires
        0 <= from <= s.len(),
    ensures
        from <= skip_spaces(s, from) <= s.len(),
        skip_spaces(s, from) < s.len() ==> !is_space(s[skip_spaces(s, from)]),
        forall|i: int| from <= i < skip_spaces(s, from) ==> is_space(#[trigger] s[i]),
    decreases s.len() - from,
{
    if from < s.len() && is_space(s[from]) {
        lemma_skip_spaces_bounds(s, from + 1);
    }
}

/// Skipping a word stops within the text, at white space, and passes
/// nothing that is white space.
pub proof fn lemma_skip_word_bounds(s: Seq<char>, from: int)
    requires
        0 <= from <= s.len(),
    ensures
        from <= skip_word(s, from) <= s.len(),
        skip_word(s, from) < s.len() ==> is_space(s[skip_word(s, from)]),
        forall|i: int| from <= i < skip_word(s, from) ==> !is_space(#[trigger] s[i]),
        from < s.len() && !is_space(s[from]) ==> from < skip_word(s, from),
    decreases s.len() - from,
{
    if from < s.len() && !is_space(s[from]) {
        lemma_skip_word_bounds(s, from + 1);
    }
}

/// A search stops within the text, at the character that is looked for,
/// and passes no such character.
pub proof fn lemma_find_from_bounds(s: Seq<char>, c: char, from: int)
    requires
        0 <= from <= s.len(),
    ensures
        from <= find_from(s, c, from) <= s.len(),
        find_from(s, c, from) < s.len() ==> s[find_from(s, c, from)] == c,
        forall|i: int| from <= i < find_from(s, c, from) ==> #[trigger] s[i] != c,
    decreases s.len() - from,
{
    if from < s.len() && s[from] != c {
        lemma_find_from_bounds(s, c, from + 1);
    }
}

/// Trimming the end stops behind a character that is no white space, and
/// drops nothing but white space.
pub proof fn lemma_trimmed_end_bounds(s: Seq<char>, to: int)
    requires
        0 <= to <= s.len(),
    ensures
        0 <= trimmed_end(s, to) <= to,
        trimmed_end(s, to) > 0 ==> !is_space(s[trimmed_end(s, to) - 1]),
        forall|i: int| trimmed_end(s, to) <= i < to ==> is_space(#[trigger] s[i]),
    decreases to,
{
    if 0 < to && is_space(s[to - 1]) {
        lemma_trimmed_end_bounds(s, to - 1);
    }
}

/// A text is blank exactly when trimming leaves nothing of it.
pub proof fn lemma_blank_iff_trimmed_empty(s: Seq<char>)
    ensures
        is_blank(s) <==> trimmed(s).len() == 0,
{
    lemma_skip_spaces_bounds(s, 0);
    lemma_trimmed_end_bounds(s, s.len() as int);
    let start = skip_spaces(s, 0);
    let end = trimmed_end(s, s.len() as int);
    if is_blank(s) {
        if start < s.len() {
            assert(is_space(s[start]));
        }
    } else {
        let i = choose|i: int| 0 <= i < s.len() && !is_space(#[trigger] s[i]);
        assert(start <= i);
        assert(i < end);
    }
}

/// Appends one character to a string (`String::push`).
#[verifier::external_body]
fn push_char(s: &mut String, c: char)
    ensures
        final(s)@ == old(s)@.push(c),
{
    s.push(c)
}

/// Whether `c` is Unicode white space.
pub fn is_space_char(c: char) -> (b: bool)
    ensures
        b == is_space(c),
{
    let n: u32 = c as u32;
    (0x09 <= n && n <= 0x0D) || n == 0x20 || n == 0x85 || n == 0xA0 || n == 0x1680 || (0x2000 <= n
        && n <= 0x200A) || n == 0x2028 || n == 0x2029 || n == 0x202F || n == 0x205F || n == 0x3000
}

/// The characters of `s`.
pub fn chars_of(s: &str) -> (v: Vec<char>)
    ensures
        v@ == s@,
{
    broadcast use vstd::string::group_string_axioms;

    let mut v: Vec<char> = Vec::new();
    for c in it: s.chars()
        invariant
            it.seq() == s@,
            v@ == s@.take(it.index()),
    {
        v.push(c);
    }
    v
}

/// The string made of the characters `chars[from..to]`.
pub fn text_of(chars: &Vec<char>, from: usize, to: usize) -> (s: String)
    requires
        from <= to <= chars@.len(),
    ensures
        s@ == chars@.subrange(from as int, to as int),
{
    let mut s = String::new();
    let mut i: usize = from;
    while i < to
        invariant
            from <= i <= to <= chars@.len(),
            s@ == chars@.subrange(from as int, i as int),
        decreases to - i,
    {
        push_char(&mut s, chars[i]);
        i += 1;
    }
    s
}

/// The string made of all of `chars`.
pub fn text_of_all(chars: &Vec<char>) -> (s: String)
    ensures
        s@ == chars@,
{
    let s = text_of(chars, 0, chars.len());
    assert(chars@.subrange(0, chars@.len() as int) == chars@);
    s
}

/// Whether two strings hold the same characters.
pub fn same_text(a: &str, b: &str) -> (r: bool)
    ensures
        r == (a@ == b@),
{
    let x = a.to_owned();
    let y = b.to_owned();
    x == y
}

/// Whether `needle` stands in `hay` at position `at`.
pub fn occurs_at_in(hay: &Vec<char>, needle: &Vec<char>, at: usize) -> (r: bool)
    ensures
        r == occurs_at(hay@, needle@, at as int),
{
    let n = needle.len();
    if at > hay.len() || n > hay.len() - at {
        return false;
    }
    let mut j: usize = 0;
    while j < n
        invariant
            0 <= j <= n,
            n == needle@.len(),
            at + n <= hay@.len() <= usize::MAX,
            forall|k: int| 0 <= k < j ==> hay@[at + k] == needle@[k],
        decreases n - j,
    {
        if hay[at + j] != needle[j] {
            proof {
                let sub = hay@.subrange(at as int, at + n);
                assert(sub[j as int] == hay@[at + j]);
            }
            return false;
        }
        j += 1;
    }
    assert(hay@.subrange(at as int, at + n) =~= needle@);
    true
}

/// Whether `needle` stands somewhere in `hay`.
pub fn contains_chars(hay: &Vec<char>, needle: &Vec<char>) -> (r: bool)
    ensures
        r == occurs(hay@, needle@),
{
    let n = needle.len();
    if n == 0 {
        assert(hay@.subrange(0, 0) =~= needle@);
        assert(occurs_at(hay@, needle@, 0));
        return true;
    }
    if n > hay.len() {
        assert forall|at: int| !occurs_at(hay@, needle@, at) by {}
        return false;
    }
    let last = hay.len() - n;
    let mut i: usize = 0;
    while i <= last
        invariant
            0 <= i <= last + 1,
            last == hay@.len() - needle@.len(),
            last < hay@.len() <= usize::MAX,
            forall|at: int| 0 <= at < i ==> !occurs_at(hay@, needle@, at),
        decreases last + 1 - i,
    {
        if occurs_at_in(hay, needle, i) {
            return true;
        }
        i += 1;
    }
    assert forall|at: int| !occurs_at(hay@, needle@, at) by {}
    false
}

/// Whether `needle` stands somewhere in `hay`.
pub fn contains(hay: &str, needle: &str) -> (r: bool)
    ensures
        r == occurs(hay@, needle@),
{
    let h = chars_of(hay);
    let n = chars_of(needle);
    contains_chars(&h, &n)
}

/// Whether `s` begins with `prefix`.
pub fn starts_with(s: &str, prefix: &str) -> (r: bool)
    ensures
        r == has_prefix(s@, prefix@),
{
    let h = chars_of(s);
    let n = chars_of(prefix);
    occurs_at_in(&h, &n, 0)
}

/// Whether `s` ends with `suffix`.
pub fn ends_with(s: &str, suffix: &str) -> (r: bool)
    ensures
        r == has_suffix(s@, suffix@),
{
    let h = chars_of(s);
    let n = chars_of(suffix);
    if n.len() > h.len() {
        return false;
    }
    occurs_at_in(&h, &n, h.len() - n.len())
}

/// Whether `s` holds nothing but white space.
pub fn is_blank_text(s: &str) -> (r: bool)
    ensures
        r == is_blank(s@),
{
    let chars = chars_of(s);
    let mut i: usize = 0;
    while i < chars.len()
        invariant
            0 <= i <= chars@.len(),
            chars@ == s@,
            forall|k: int| 0 <= k < i ==> is_space(#[trigger] chars@[k]),
        decreases chars@.len() - i,
    {
        if !is_space_char(chars[i]) {
            assert(!is_space(chars@[i as int]));
            return false;
        }
        i += 1;
    }
    true
}

/// The first position at or after `from` that holds no white space.
pub fn scan_spaces(chars: &Vec<char>, from: usize) -> (end: usize)
    requires
        from <= chars@.len(),
    ensures
        end == skip_spaces(chars@, from as int),
        from <= end <= chars@.len(),
{
    let mut i: usize = from;
    while i < chars.len() && is_space_char(chars[i])
        invariant
            from <= i <= chars@.len(),
            skip_spaces(chars@, i as int) == skip_spaces(chars@, from as int),
        decreases chars@.len() - i,
    {
        i += 1;
    }
    i
}

/// The first position at or after `from` that holds white space.
pub fn scan_word(chars: &Vec<char>, from: usize) -> (end: usize)
    requires
        from <= chars@.len(),
    ensures
        end == skip_word(chars@, from as int),
        from <= end <= chars@.len(),
{
    let mut i: usize = from;
    while i < chars.len() && !is_space_char(chars[i])
        invariant
            from <= i <= chars@.len(),
            skip_word(chars@, i as int) == skip_word(chars@, from as int),
        decreases chars@.len() - i,
    {
        i += 1;
    }
    i
}

/// The first position at or after `from` that holds `c`, or the length.
pub fn scan_for(chars: &Vec<char>, c: char, from: usize) -> (end: usize)
    requires
        from <= chars@.len(),
    ensures
        end == find_from(chars@, c, from as int),
        from <= end <= chars@.len(),
{
    let mut i: usize = from;
    while i < chars.len() && chars[i] != c
        invariant
            from <= i <= chars@.len(),
            find_from(chars@, c, i as int) == find_from(chars@, c, from as int),
        decreases chars@.len() - i,
    {
        i += 1;
    }
    i
}

/// The position just behind the last character before `to` that is no
/// white space.
pub fn scan_back_spaces(chars: &Vec<char>, to: usize) -> (end: usize)
    requires
        to <= chars@.len(),
    ensures
        end == trimmed_end(chars@, to as int),
        end <= to,
{
    let mut i: usize = to;
    while i > 0 && is_space_char(chars[i - 1])
        invariant
            0 <= i <= to <= chars@.len(),
            trimmed_end(chars@, i as int) == trimmed_end(chars@, to as int),
        decreases i,
    {
        i -= 1;
    }
    i
}

/// The white-space separated words of `s`.
pub fn split_words(s: &str) -> (out: Vec<String>)
    ensures
        views(out@) == words(s@),
{
    let chars = chars_of(s);
    let n = chars.len();
    let mut out: Vec<String> = Vec::new();
    let mut i: usize = 0;
    assert(views(out@) + words_from(chars@, 0) =~= words(chars@));
    while i < n
        invariant
            0 <= i <= n == chars@.len(),
            views(out@) + words_from(chars@, i as int) == words(chars@),
        decreases n - i,
    {
        if is_space_char(chars[i]) {
            i += 1;
        } else {
            let end = scan_word(&chars, i);
            proof {
                lemma_skip_word_bounds(chars@, i as int);
            }
            let word = text_of(&chars, i, end);
            let ghost before = views(out@);
            out.push(word);
            assert(views(out@) =~= before.push(word@));
            assert(before.push(word@) + words_from(chars@, end as int) =~= before + (seq![word@]
                + words_from(chars@, end as int)));
            i = end;
        }
    }
    assert(views(out@) + words_from(chars@, n as int) =~= views(out@));
    out
}

/// The lines of `s`.
pub fn split_lines(s: &str) -> (out: Vec<String>)
    ensures
        views(out@) == lines(s@),
{
    let chars = chars_of(s);
    let n = chars.len();
    let mut out: Vec<String> = Vec::new();
    let mut i: usize = 0;
    assert(views(out@) + lines_from(chars@, 0) =~= lines(chars@));
    while i < n
        invariant
            0 <= i <= n == chars@.len(),
            views(out@) + lines_from(chars@, i as int) == lines(chars@),
        decreases n - i,
    {
        let end = scan_for(&chars, '\n', i);
        let ghost before = views(out@);
        if end >= n {
            let line = text_of(&chars, i, n);
            out.push(line);
            assert(views(out@) =~= before.push(line@));
            assert(before.push(line@) + lines_from(chars@, n as int) =~= before + seq![line@]);
            i = n;
        } else {
            let stop = if end > i && chars[end - 1] == '\r' {
                end - 1
            } else {
                end
            };
            let line = text_of(&chars, i, stop);
            proof {
                let raw = chars@.subrange(i as int, end as int);
                if end > i {
                    assert(raw.last() == chars@[end - 1]);
                }
                assert(line@ =~= without_cr(raw));
            }
            out.push(line);
            assert(views(out@) =~= before.push(line@));
            assert(before.push(line@) + lines_from(chars@, end + 1) =~= before + (seq![line@]
                + lines_from(chars@, end + 1)));
            i = end + 1;
        }
    }
    assert(views(out@) + lines_from(chars@, n as int) =~= views(out@));
    out
}

/// The pieces of `s` between occurrences of `c`.
pub fn split_on(s: &str, c: char) -> (out: Vec<String>)
    ensures
        views(out@) == pieces_from(s@, c, 0),
{
    let chars = chars_of(s);
    let n = chars.len();
    let mut out: Vec<String> = Vec::new();
    let mut i: usize = 0;
    let mut done = false;
    assert(views(out@) + pieces_from(chars@, c, 0) =~= pieces_from(chars@, c, 0));
    while !done
        invariant
            0 <= i <= n == chars@.len(),
            !done ==> views(out@) + pieces_from(chars@, c, i as int) == pieces_from(chars@, c, 0),
            done ==> views(out@) == pieces_from(chars@, c, 0),
        decreases n - i + (if done { 0int } else { 1int }),
    {
        let end = scan_for(&chars, c, i);
        let ghost before = views(out@);
        if end >= n {
            let piece = text_of(&chars, i, n);
            out.push(piece);
            assert(views(out@) =~= before.push(piece@));
            assert(before.push(piece@) =~= before + seq![piece@]);
            done = true;
        } else {
            let piece = text_of(&chars, i, end);
            out.push(piece);
            assert(views(out@) =~= before.push(piece@));
            assert(before.push(piece@) + pieces_from(chars@, c, end + 1) =~= before + (seq![
                piece@,
            ] + pieces_from(chars@, c, end + 1)));
            i = end + 1;
        }
    }
    out
}

/// `s` without leading and trailing white space.
pub fn trim(s: &str) -> (out: String)
    ensures
        out@ == trimmed(s@),
{
    let chars = chars_of(s);
    let start = scan_spaces(&chars, 0);
    let end = scan_back_spaces(&chars, chars.len());
    if start >= end {
        String::new()
    } else {
        text_of(&chars, start, end)
    }
}

/// The number that the run of digits `chars[from..to]` denotes, if it is
/// not empty, holds nothing but digits and is at most `max`.
pub fn parse_digits(chars: &Vec<char>, from: usize, to: usize, max: u64) -> (r: Option<u64>)
    requires
        from <= to <= chars@.len(),
    ensures
        ({
            let digits = chars@.subrange(from as int, to as int);
            if digits.len() > 0 && all_digits(digits) && decimal_value(digits) <= max {
                r == Some(decimal_value(digits) as u64)
            } else {
                r is None
            }
        }),
{
    let ghost digits = chars@.subrange(from as int, to as int);
    if from == to {
        return None;
    }
    let mut value: u64 = 0;
    let mut i: usize = from;
    assert(digits.subrange(0, 0) =~= Seq::<char>::empty());
    while i < to
        invariant
            from <= i <= to <= chars@.len(),
            digits == chars@.subrange(from as int, to as int),
            all_digits(digits.subrange(0, i - from)),
            value == decimal_value(digits.subrange(0, i - from)),
            value <= max,
        decreases to - i,
    {
        let c = chars[i];
        let ghost prefix = digits.subrange(0, i - from);
        let ghost next = digits.subrange(0, i - from + 1);
        proof {
            assert(next.drop_last() =~= prefix);
            assert(next.last() == c);
            assert(digits[i - from] == c);
        }
        if c < '0' || c > '9' {
            assert(!is_digit(digits[i - from]));
            return None;
        }
        let d: u64 = (c as u32 - '0' as u32) as u64;
        assert(d == digit_value(c));
        if d > max || value > (max - d) / 10 {
            proof {
                assert(decimal_value(next) == value * 10 + d);
                if d <= max {
                    assert(value * 10 + d > max) by (nonlinear_arith)
                        requires
                            value > (max - d) / 10,
                            d <= max,
                    {
                    }
                }
                lemma_decimal_value_grows(digits, i - from + 1);
            }
            return None;
        }
        assert(value * 10 + d <= max) by (nonlinear_arith)
            requires
                value <= (max - d) / 10,
                d <= max,
        {
        }
        value = value * 10 + d;
        i += 1;
        proof {
            assert forall|k: int| 0 <= k < next.len() implies is_digit(#[trigger] next[k]) by {
                if k < prefix.len() {
                    assert(next[k] == prefix[k]);
                }
            }
        }
    }
    assert(digits.subrange(0, to - from) =~= digits);
    Some(value)
}

/// A longer run of digits denotes no smaller number than each of its
/// beginnings.
pub proof fn lemma_decimal_value_grows(s: Seq<char>, k: int)
    requires
        0 <= k <= s.len(),
    ensures
        decimal_value(s.subrange(0, k)) <= decimal_value(s),
    decreases s.len() - k,
{
    if k == s.len() {
        assert(s.subrange(0, k) =~= s);
    } else {
        lemma_decimal_value_grows(s.drop_last(), k);
        assert(s.drop_last().subrange(0, k) =~= s.subrange(0, k));
    }
}

/// The digits of a number denote that number.
pub proof fn lemma_decimal_text_value(n: nat)
    ensures
        decimal_text(n).len() > 0,
        all_digits(decimal_text(n)),
        decimal_value(decimal_text(n)) == n,
        decimal_text(n)[0] != '+',
    decreases n,
{
    if n < 10 {
        let s = decimal_text(n);
        assert(s =~= seq![digit_char(n)]);
        assert(s.drop_last() =~= Seq::<char>::empty());
        assert(decimal_value(s.drop_last()) == 0);
        assert(s.last() == digit_char(n));
        assert(digit_value(digit_char(n)) == n);
        assert(is_digit(digit_char(n)));
    } else {
        lemma_decimal_text_value(n / 10);
        let head = decimal_text(n / 10);
        let s = decimal_text(n);
        let d = (n % 10) as nat;
        assert(s =~= head.push(digit_char(d)));
        assert(s.drop_last() =~= head);
        assert(s.last() == digit_char(d));
        assert(digit_value(digit_char(d)) == d);
        assert(is_digit(digit_char(d)));
        assert(s[0] == head[0]);
        assert forall|i: int| 0 <= i < s.len() implies is_digit(#[trigger] s[i]) by {
            if i < head.len() {
                assert(s[i] == head[i]);
            }
        }
    }
}

/// Reads an unsigned number of at most `max`.
pub fn parse_unsigned(s: &str, max: u64) -> (r: Option<u64>)
    ensures
        r is Some <==> parsed_unsigned(s@, max as nat) is Some,
        r matches Some(v) ==> parsed_unsigned(s@, max as nat) == Some(v as nat),
{
    let chars = chars_of(s);
    let from: usize = if chars.len() > 0 && chars[0] == '+' {
        1
    } else {
        0
    };
    assert(chars@.subrange(from as int, chars@.len() as int) =~= unsigned_digits(chars@));
    parse_digits(&chars, from, chars.len(), max)
}

/// Reads a `u64`.
pub fn parse_u64(s: &str) -> (r: Option<u64>)
    ensures
        r is Some <==> parsed_unsigned(s@, u64::MAX as nat) is Some,
        r matches Some(v) ==> parsed_unsigned(s@, u64::MAX as nat) == Some(v as nat),
{
    parse_unsigned(s, u64::MAX)
}

/// Reads a `u32`.
pub fn parse_u32(s: &str) -> (r: Option<u32>)
    ensures
        r is Some <==> parsed_unsigned(s@, u32::MAX as nat) is Some,
        r matches Some(v) ==> parsed_unsigned(s@, u32::MAX as nat) == Some(v as nat),
{
    match parse_unsigned(s, 0xffff_ffff) {
        Some(v) => Some(v as u32),
        None => None,
    }
}

/// The character of a digit below ten.
pub fn digit_to_char(d: u64) -> (c: char)
    requires
        d < 10,
    ensures
        c == digit_char(d as nat),
{
    if d == 0 {
        '0'
    } else if d == 1 {
        '1'
    } else if d == 2 {
        '2'
    } else if d == 3 {
        '3'
    } else if d == 4 {
        '4'
    } else if d == 5 {
        '5'
    } else if d == 6 {
        '6'
    } else if d == 7 {
        '7'
    } else if d == 8 {
        '8'
    } else {
        '9'
    }
}

/// The digits of `n` in base ten.
pub fn decimal_chars(n: u64) -> (out: Vec<char>)
    ensures
        out@ == decimal_text(n as nat),
    decreases n,
{
    if n < 10 {
        let mut out: Vec<char> = Vec::new();
        out.push(digit_to_char(n));
        assert(out@ =~= seq![digit_char(n as nat)]);
        out
    } else {
        let mut out = decimal_chars(n / 10);
        out.push(digit_to_char(n % 10));
        out
    }
}

/// The digits of `n` in base ten.
pub fn unsigned_text(n: u64) -> (out: String)
    ensures
        out@ == decimal_text(n as nat),
{
    let chars = decimal_chars(n);
    text_of_all(&chars)
}

/// Appends `tail` to `s`.
pub fn append(s: &mut String, tail: &str)
    ensures
        final(s)@ == old(s)@ + tail@,
{
    let chars = chars_of(tail);
    let mut i: usize = 0;
    while i < chars.len()
        invariant
            0 <= i <= chars@.len(),
            s@ == old(s)@ + chars@.subrange(0, i as int),
        decreases chars@.len() - i,
    {
        push_char(s, chars[i]);
        i += 1;
        assert(chars@.subrange(0, i as int) =~= chars@.subrange(0, i - 1).push(chars@[i - 1]));
    }
    assert(chars@.subrange(0, chars@.len() as int) =~= chars@);
}

/// The parts from `from` on, with `sep` between any two of them.
pub fn join_from(parts: &Vec<String>, sep: &str, from: usize) -> (out: String)
    ensures
        out@ == joined_from(views(parts@), sep@, from as int),
{
    let n = parts.len();
    let mut out = String::new();
    if from >= n {
        return out;
    }
    let ghost all = views(parts@);
    let mut i: usize = n - 1;
    append(&mut out, parts[i].as_str());
    assert(out@ =~= all[n - 1]);
    while i > from
        invariant
            from <= i < n == parts@.len(),
            all == views(parts@),
            out@ == joined_from(all, sep@, i as int),
        decreases i,
    {
        i -= 1;
        let mut next = String::new();
        append(&mut next, parts[i].as_str());
        append(&mut next, sep);
        append(&mut next, out.as_str());
        assert(next@ =~= all[i as int] + sep@ + out@);
        out = next;
    }
    out
}

/// The parts with `sep` between any two of them.
pub fn join(parts: &Vec<String>, sep: &str) -> (out: String)
    ensures
        out@ == joined(views(parts@), sep@),
{
    join_from(parts, sep, 0)
}

/// The first position at or after `from` at which `needle` stands in
/// `hay`, or the length of `hay`.
pub fn find_chars(hay: &Vec<char>, needle: &Vec<char>, from: usize) -> (at: usize)
    requires
        from <= hay@.len(),
    ensures
        at == first_occurrence(hay@, needle@, from as int),
        from <= at <= hay@.len(),
{
    let mut i: usize = from;
    while i < hay.len() && !occurs_at_in(hay, needle, i)
        invariant
            from <= i <= hay@.len(),
            first_occurrence(hay@, needle@, i as int) == first_occurrence(
                hay@,
                needle@,
                from as int,
            ),
        decreases hay@.len() - i,
    {
        i += 1;
    }
    i
}

/// `s` without the characters `c`.
pub fn remove_char(s: &str, c: char) -> (out: String)
    ensures
        out@ == without(s@, c),
{
    let chars = chars_of(s);
    let mut out = String::new();
    let mut i: usize = 0;
    assert(chars@.take(0) =~= Seq::<char>::empty());
    while i < chars.len()
        invariant
            0 <= i <= chars@.len(),
            out@ == without(chars@.take(i as int), c),
        decreases chars@.len() - i,
    {
        proof {
            assert(chars@.take(i + 1).drop_last() =~= chars@.take(i as int));
            assert(chars@.take(i + 1).last() == chars@[i as int]);
        }
        if chars[i] != c {
            push_char(&mut out, chars[i]);
        }
        i += 1;
    }
    assert(chars@.take(chars@.len() as int) =~= chars@);
    out
}

/// `s` with `to` in place of each character `from`.
pub fn replace_char(s: &str, from: char, to: char) -> (out: String)
    ensures
        out@ == replaced(s@, from, to),
{
    let chars = chars_of(s);
    let mut out = String::new();
    let mut i: usize = 0;
    while i < chars.len()
        invariant
            0 <= i <= chars@.len(),
            out@ == replaced(chars@, from, to).take(i as int),
        decreases chars@.len() - i,
    {
        let c = if chars[i] == from {
            to
        } else {
            chars[i]
        };
        push_char(&mut out, c);
        i += 1;
        assert(replaced(chars@, from, to).take(i as int) =~= replaced(chars@, from, to).take(
            i - 1,
        ).push(c));
    }
    assert(replaced(chars@, from, to).take(chars@.len() as int) =~= replaced(chars@, from, to));
    out
}

/// `s` without the characters `c` at its end.
pub fn strip_trailing(s: &str, c: char) -> (out: String)
    ensures
        out@ == without_trailing(s@, c),
{
    let chars = chars_of(s);
    let mut i: usize = chars.len();
    while i > 0 && chars[i - 1] == c
        invariant
            0 <= i <= chars@.len(),
            stripped_end(chars@, c, i as int) == stripped_end(chars@, c, chars@.len() as int),
        decreases i,
    {
        i -= 1;
    }
    text_of(&chars, 0, i)
}

/// `s` without the characters `c` at its beginning and at its end.
pub fn strip_surrounding(s: &str, c: char) -> (out: String)
    ensures
        out@ == without_surrounding(s@, c),
{
    let chars = chars_of(s);
    let mut start: usize = 0;
    while start < chars.len() && chars[start] == c
        invariant
            0 <= start <= chars@.len(),
            stripped_start(chars@, c, start as int) == stripped_start(chars@, c, 0),
        decreases chars@.len() - start,
    {
        start += 1;
    }
    let mut end: usize = chars.len();
    while end > 0 && chars[end - 1] == c
        invariant
            0 <= end <= chars@.len(),
            stripped_end(chars@, c, end as int) == stripped_end(chars@, c, chars@.len() as int),
        decreases end,
    {
        end -= 1;
    }
    if start >= end {
        String::new()
    } else {
        text_of(&chars, start, end)
    }
}

/// The part of `s` before position `at`.
pub fn text_before(s: &str, at: usize) -> (out: String)
    ensures
        out@ == before(s@, at as int),
{
    let chars = chars_of(s);
    if at <= chars.len() {
        text_of(&chars, 0, at)
    } else {
        text_of_all(&chars)
    }
}

/// The part of `s` from position `at` on.
pub fn text_after(s: &str, at: usize) -> (out: String)
    ensures
        out@ == after(s@, at as int),
{
    let chars = chars_of(s);
    if at <= chars.len() {
        text_of(&chars, at, chars.len())
    } else {
        String::new()
    }
}

/// The first position of `c` in `s`, or the length of `s`.
pub fn find_char(s: &str, c: char) -> (at: usize)
    ensures
        at == find_from(s@, c, 0),
        at <= s@.len(),
{
    let chars = chars_of(s);
    scan_for(&chars, c, 0)
}

/// The number of characters of `s`.
pub fn char_count(s: &str) -> (n: usize)
    ensures
        n == s@.len(),
{
    chars_of(s).len()
}

/// A copy of every string of `v`.
pub fn clone_texts(v: &Vec<String>) -> (out: Vec<String>)
    ensures
        views(out@) == views(v@),
{
    let mut out: Vec<String> = Vec::new();
    let mut i: usize = 0;
    while i < v.len()
        invariant
            0 <= i <= v@.len(),
            out@.len() == i,
            forall|k: int| 0 <= k < i ==> out@[k]@ == v@[k]@,
        decreases v@.len() - i,
    {
        out.push(v[i].clone());
        i += 1;
    }
    assert(views(out@) =~= views(v@));
    out
}

/// Whether `name` is one of `names`.
pub fn has_text(names: &Vec<String>, name: &str) -> (r: bool)
    ensures
        r == views(names@).contains(name@),
{
    let mut i: usize = 0;
    while i < names.len()
        invariant
            0 <= i <= names@.len(),
            forall|k: int| 0 <= k < i ==> names@[k]@ != name@,
        decreases names@.len() - i,
    {
        if same_text(names[i].as_str(), name) {
            assert(views(names@)[i as int] == name@);
            return true;
        }
        i += 1;
    }
    assert forall|k: int| 0 <= k < views(names@).len() implies views(names@)[k] != name@ by {}
    false
}

} // verus!
