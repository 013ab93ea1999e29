//! Character sequences: the model of text that every contract of this crate
//! speaks about, and the verified routines that work on it.
//!
//! A text is a `Seq<char>`, the view of a `str`. The executable routines hold
//! it as a `Vec<char>`, so that a character is reached by its index.

use vstd::prelude::*;

verus! {

/// `String::push` appends the character to the end of the string.
pub assume_specification[ String::push ](s: &mut String, ch: char)
    ensures
        final(s)@ == old(s)@.push(ch),
;

/// White space: the code points that Unicode marks as `White_Space`.
pub open spec fn is_whitespace(c: char) -> bool {
    let n = c as u32;
    ||| 0x09 <= n <= 0x0d
    ||| n == 0x20
    ||| n == 0x85
    ||| n == 0xa0
    ||| n == 0x1680
    ||| 0x2000 <= n <= 0x200a
    ||| n == 0x2028
    ||| n == 0x2029
    ||| n == 0x202f
    ||| n == 0x205f
    ||| n == 0x3000
}

/// `s` without the white space it begins with.
pub open spec fn trimmed_start(s: Seq<char>) -> Seq<char>
    decreases s.len(),
{
    if s.len() > 0 && is_whitespace(s[0]) {
        trimmed_start(s.drop_first())
    } else {
        s
    }
}

/// `s` without the white space it ends with.
pub open spec fn trimmed_end(s: Seq<char>) -> Seq<char>
    decreases s.len(),
{
    if s.len() > 0 && is_whitespace(s.last()) {
        trimmed_end(s.drop_last())
    } else {
        s
    }
}

/// `s` without the white space at either end.
pub open spec fn trimmed(s: Seq<char>) -> Seq<char> {
    trimmed_end(trimmed_start(s))
}

/// A blank text holds white space only.
pub open spec fn blank(s: Seq<char>) -> bool {
    trimmed(s).len() == 0
}

/// `s` begins with `prefix`.
pub open spec fn has_prefix(s: Seq<char>, prefix: Seq<char>) -> bool {
    prefix.len() <= s.len() && s.take(prefix.len() as int) == prefix
}

/// `s` with every occurrence of `from` replaced by `to`. Occurrences are
/// found from left to right and do not overlap. An empty `from` occurs
/// nowhere.
pub open spec fn replaced(s: Seq<char>, from: Seq<char>, to: Seq<char>) -> Seq<char>
    decreases s.len(),
{
    if from.len() == 0 || s.len() < from.len() {
        s
    } else if has_prefix(s, from) {
        to + replaced(s.skip(from.len() as int), from, to)
    } else {
        seq![s[0]] + replaced(s.drop_first(), from, to)
    }
}

/// `s` with its leftmost occurrence of `from`, if it has one, replaced by
/// `to`. An empty `from` occurs nowhere.
pub open spec fn replaced_first(s: Seq<char>, from: Seq<char>, to: Seq<char>) -> Seq<char>
    decreases s.len(),
{
    if from.len() == 0 || s.len() < from.len() {
        s
    } else if has_prefix(s, from) {
        to + s.skip(from.len() as int)
    } else {
        seq![s[0]] + replaced_first(s.drop_first(), from, to)
    }
}

/// The number of characters of `s` before its first line feed: all of them
/// where it has none.
pub open spec fn line_length(s: Seq<char>) -> nat
    decreases s.len(),
{
    if s.len() == 0 || s[0] == '\n' {
        0
    } else {
        1 + line_length(s.drop_first())
    }
}

/// `line` without the carriage return that it ends with, if it does.
pub open spec fn without_carriage_return(line: Seq<char>) -> Seq<char> {
    if line.len() > 0 && line.last() == '\r' {
        line.drop_last()
    } else {
        line
    }
}

/// The lines of `s`. A line ends with a line feed, or with a carriage return
/// and a line feed; neither belongs to the line. What follows the last line
/// feed is a line too, unless it is empty.
pub open spec fn lines(s: Seq<char>) -> Seq<Seq<char>>
    decreases s.len(),
{
    let n = line_length(s);
    if s.len() == 0 {
        Seq::empty()
    } else if n >= s.len() {
        seq![s]
    } else {
        seq![without_carriage_return(s.take(n as int))] + lines(s.skip(n as int + 1))
    }
}

/// The number of characters of `s` before its first white space: all of them
/// where it has none.
pub open spec fn word_length(s: Seq<char>) -> nat
    decreases s.len(),
{
    if s.len() == 0 || is_whitespace(s[0]) {
        0
    } else {
        1 + word_length(s.drop_first())
    }
}

/// The first word of `s`: what stands between the white space that `s`
/// begins with and the next white space. It is empty where `s` is blank.
pub open spec fn first_word(s: Seq<char>) -> Seq<char> {
    let rest = trimmed_start(s);
    rest.take(word_length(rest) as int)
}

/// The code point of `c`, or of its lower-case form where `c` is an ASCII
/// capital.
pub open spec fn ascii_lowered(c: char) -> u32 {
    if 'A' <= c <= 'Z' {
        (c as u32 + 32) as u32
    } else {
        c as u32
    }
}

/// `a` and `b` are the same text but for the case of ASCII letters.
pub open spec fn same_ignoring_ascii_case(a: Seq<char>, b: Seq<char>) -> bool {
    &&& a.len() == b.len()
    &&& forall|i: int| 0 <= i < a.len() ==> ascii_lowered(#[trigger] a[i]) == ascii_lowered(b[i])
}

/// The view of a text that may be absent.
pub open spec fn text_of(s: Option<String>) -> Option<Seq<char>> {
    match s {
        Some(t) => Some(t@),
        None => None,
    }
}

/// The views of the texts in `texts`, in order.
pub open spec fn views(texts: Seq<Vec<char>>) -> Seq<Seq<char>> {
    Seq::new(texts.len(), |i: int| texts[i]@)
}

/// Where the first `n` characters of `s` are white space and the next one, if
/// there is one, is not, `trimmed_start` drops just these `n`.
pub proof fn lemma_trimmed_start(s: Seq<char>, n: int)
    requires
        0 <= n <= s.len(),
        forall|i: int| 0 <= i < n ==> is_whitespace(s[i]),
        n == s.len() || !is_whitespace(s[n]),
    ensures
        trimmed_start(s) == s.skip(n),
    decreases n,
{
    if n > 0 {
        lemma_trimmed_start(s.drop_first(), n - 1);
    }
}

/// Where all characters of `s` from index `n` on are white space and the one
/// before, if there is one, is not, `trimmed_end` keeps just the first `n`.
pub proof fn lemma_trimmed_end(s: Seq<char>, n: int)
    requires
        0 <= n <= s.len(),
        forall|i: int| n <= i < s.len() ==> is_whitespace(s[i]),
        n == 0 || !is_whitespace(s[n - 1]),
    ensures
        trimmed_end(s) == s.take(n),
    decreases s.len() - n,
{
    if n < s.len() {
        lemma_trimmed_end(s.drop_last(), n);
    }
}

/// Where none of the first `n` characters of `s` is a line feed and the next
/// one, if there is one, is, the first line of `s` has `n` characters.
pub proof fn lemma_line_length(s: Seq<char>, n: int)
    requires
        0 <= n <= s.len(),
        forall|i: int| 0 <= i < n ==> s[i] != '\n',
        n == s.len() || s[n] == '\n',
    ensures
        line_length(s) == n,
    decreases n,
{
    if n > 0 {
        lemma_line_length(s.drop_first(), n - 1);
    }
}

/// Where none of the first `n` characters of `s` is white space and the next
/// one, if there is one, is, the word that `s` begins with has `n` characters.
pub proof fn lemma_word_length(s: Seq<char>, n: int)
    requires
        0 <= n <= s.len(),
        forall|i: int| 0 <= i < n ==> !is_whitespace(s[i]),
        n == s.len() || is_whitespace(s[n]),
    ensures
        word_length(s) == n,
    decreases n,
{
    if n > 0 {
        lemma_word_length(s.drop_first(), n - 1);
    }
}

/// Where the characters of `s` before index `from` and from index `to` on
/// are white space, and those at `from` and right before `to` are not (or
/// `from` is `to`, so that `s` is blank), trimming `s` leaves what stands
/// between the two indices.
pub proof fn lemma_trimmed(s: Seq<char>, from: int, to: int)
    requires
        0 <= from <= to <= s.len(),
        forall|i: int| 0 <= i < from ==> is_whitespace(s[i]),
        forall|i: int| to <= i < s.len() ==> is_whitespace(s[i]),
        from == to || (!is_whitespace(s[from]) && !is_whitespace(s[to - 1])),
    ensures
        trimmed(s) == s.subrange(from, to),
{
    if from == to {
        lemma_trimmed_start(s, s.len() as int);
    } else {
        lemma_trimmed_start(s, from);
        lemma_trimmed_end(s.skip(from), to - from);
    }
}

/// Trimming keeps one stretch of the text: there are two indices that meet
/// what `lemma_trimmed` asks for.
pub proof fn lemma_trimmed_bounds(s: Seq<char>) -> (bounds: (int, int))
    ensures
        0 <= bounds.0 <= bounds.1 <= s.len(),
        forall|i: int| 0 <= i < bounds.0 ==> is_whitespace(s[i]),
        forall|i: int| bounds.1 <= i < s.len() ==> is_whitespace(s[i]),
        bounds.0 == bounds.1 || (!is_whitespace(s[bounds.0]) && !is_whitespace(s[bounds.1 - 1])),
        trimmed(s) == s.subrange(bounds.0, bounds.1),
    decreases s.len(),
{
    let bounds = if s.len() == 0 {
        (0int, 0int)
    } else if is_whitespace(s[0]) {
        let rest = s.drop_first();
        let inner = lemma_trimmed_bounds(rest);
        assert forall|i: int| 0 <= i < inner.0 + 1 implies is_whitespace(s[i]) by {
            if i > 0 {
                assert(s[i] == rest[i - 1]);
            }
        }
        assert forall|i: int| inner.1 + 1 <= i < s.len() implies is_whitespace(s[i]) by {
            assert(s[i] == rest[i - 1]);
        }
        assert(inner.0 < inner.1 ==> s[inner.0 + 1] == rest[inner.0] && s[inner.1] == rest[inner.1
            - 1]);
        (inner.0 + 1, inner.1 + 1)
    } else if is_whitespace(s.last()) {
        let rest = s.drop_last();
        let inner = lemma_trimmed_bounds(rest);
        assert forall|i: int| inner.1 <= i < s.len() implies is_whitespace(s[i]) by {
            if i < rest.len() {
                assert(s[i] == rest[i]);
            }
        }
        inner
    } else {
        (0int, s.len() as int)
    };
    lemma_trimmed(s, bounds.0, bounds.1);
    bounds
}

/// Trimming twice gives what trimming once gives.
pub proof fn lemma_trimmed_twice(s: Seq<char>)
    ensures
        trimmed(trimmed(s)) == trimmed(s),
{
    let (from, to) = lemma_trimmed_bounds(s);
    let t = s.subrange(from, to);
    lemma_trimmed(t, 0, t.len() as int);
}

/// A text that is not blank has a first word, and that word holds no white
/// space.
pub proof fn lemma_first_word(s: Seq<char>)
    ensures
        !blank(s) ==> first_word(s).len() > 0,
        forall|i: int| 0 <= i < first_word(s).len() ==> !is_whitespace(#[trigger] first_word(s)[i]),
{
    let (from, to) = lemma_trimmed_bounds(s);
    lemma_trimmed_start(s, if from == to { s.len() as int } else { from });
    lemma_word_chars(trimmed_start(s));
}

/// The word that a text begins with lies within the text and holds no white
/// space; it is empty only where the text is empty or begins with white
/// space.
proof fn lemma_word_chars(s: Seq<char>)
    ensures
        word_length(s) <= s.len(),
        forall|i: int| 0 <= i < word_length(s) ==> !is_whitespace(s[i]),
        s.len() > 0 && !is_whitespace(s[0]) ==> word_length(s) > 0,
    decreases s.len(),
{
    if s.len() > 0 && !is_whitespace(s[0]) {
        lemma_word_chars(s.drop_first());
        assert forall|i: int| 0 <= i < word_length(s) implies !is_whitespace(s[i]) by {
            if i > 0 {
                assert(s[i] == s.drop_first()[i - 1]);
            }
        }
    }
}

/// The characters of `s`, in order.
pub fn to_chars(s: &str) -> (chars: Vec<char>)
    ensures
        chars@ == s@,
{
    let mut chars: Vec<char> = Vec::new();
    for c in it: s.chars()
        invariant
            chars@ == it.seq().take(it.index() as int),
            it.seq() == s@,
    {
        chars.push(c);
    }
    chars
}

/// The string made of the characters of `chars`, in order.
pub fn from_chars(chars: &Vec<char>) -> (s: String)
    ensures
        s@ == chars@,
{
    let mut s = String::new();
    let mut i: usize = 0;
    while i < chars.len()
        invariant
            i <= chars.len(),
            s@ == chars@.take(i as int),
        decreases chars.len() - i,
    {
        s.push(chars[i]);
        i += 1;
    }
    s
}

/// Tells whether `c` is white space.
pub fn whitespace(c: char) -> (b: bool)
    ensures
        b == is_whitespace(c),
{
    let n: u32 = c as u32;
    (0x09 <= n && n <= 0x0d) || n == 0x20 || n == 0x85 || n == 0xa0 || n == 0x1680 || (0x2000 <= n
        && n <= 0x200a) || n == 0x2028 || n == 0x2029 || n == 0x202f || n == 0x205f || n == 0x3000
}

/// The characters of `s` from index `from` up to, not including, index `to`.
pub(crate) fn slice(s: &Vec<char>, from: usize, to: usize) -> (part: Vec<char>)
    requires
        from <= to <= s.len(),
    ensures
        part@ == s@.subrange(from as int, to as int),
{
    let mut part: Vec<char> = Vec::new();
    let mut i: usize = from;
    while i < to
        invariant
            from <= i <= to <= s.len(),
            part@ == s@.subrange(from as int, i as int),
        decreases to - i,
    {
        part.push(s[i]);
        i += 1;
    }
    part
}

/// Appends the characters of `part` to `out`.
pub fn append(out: &mut Vec<char>, part: &Vec<char>)
    ensures
        final(out)@ == old(out)@ + part@,
{
    let mut i: usize = 0;
    while i < part.len()
        invariant
            i <= part.len(),
            out@ == old(out)@ + part@.take(i as int),
        decreases part.len() - i,
    {
        out.push(part[i]);
        i += 1;
    }
}

/// Appends the characters of `part` to `out`.
pub fn append_str(out: &mut Vec<char>, part: &str)
    ensures
        final(out)@ == old(out)@ + part@,
{
    let chars = to_chars(part);
    append(out, &chars);
}

/// `s` without the white space at either end.
pub fn trim(s: &Vec<char>) -> (r: Vec<char>)
    ensures
        r@ == trimmed(s@),
{
    let mut start: usize = 0;
    while start < s.len() && whitespace(s[start])
        invariant
            start <= s.len(),
            forall|i: int| 0 <= i < start ==> is_whitespace(s@[i]),
        decreases s.len() - start,
    {
        start += 1;
    }
    let mut end: usize = s.len();
    while end > start && whitespace(s[end - 1])
        invariant
            start <= end <= s.len(),
            forall|i: int| end <= i < s.len() ==> is_whitespace(s@[i]),
        decreases end,
    {
        end -= 1;
    }
    proof {
        lemma_trimmed_start(s@, start as int);
        lemma_trimmed_end(s@.skip(start as int), end - start);
    }
    slice(s, start, end)
}

/// Tells whether `s` holds white space only.
pub fn is_blank(s: &Vec<char>) -> (b: bool)
    ensures
        b == blank(s@),
{
    trim(s).len() == 0
}

/// Tells whether `pattern` stands in `s` at index `at`.
pub(crate) fn matches_at(s: &Vec<char>, at: usize, pattern: &Vec<char>) -> (b: bool)
    requires
        at <= s.len(),
    ensures
        b == has_prefix(s@.skip(at as int), pattern@),
{
    if pattern.len() > s.len() - at {
        return false;
    }
    let mut i: usize = 0;
    while i < pattern.len()
        invariant
            i <= pattern.len() <= s.len() - at,
            forall|j: int| 0 <= j < i ==> s@[at + j] == pattern@[j],
        decreases pattern.len() - i,
    {
        if s[at + i] != pattern[i] {
            return false;
        }
        i += 1;
    }
    proof {
        assert(s@.skip(at as int).take(pattern.len() as int) =~= pattern@);
    }
    true
}

/// Tells whether `s` begins with `prefix`.
pub fn starts_with(s: &Vec<char>, prefix: &str) -> (b: bool)
    ensures
        b == has_prefix(s@, prefix@),
{
    let pattern = to_chars(prefix);
    proof {
        assert(s@.skip(0) =~= s@);
    }
    matches_at(s, 0, &pattern)
}

/// `s` with every occurrence of `from` replaced by `to`.
pub fn replace(s: &Vec<char>, from: &str, to: &str) -> (r: Vec<char>)
    ensures
        r@ == replaced(s@, from@, to@),
{
    let pattern = to_chars(from);
    let with = to_chars(to);
    let mut out: Vec<char> = Vec::new();
    if pattern.len() == 0 {
        append(&mut out, s);
        return out;
    }
    let mut i: usize = 0;
    proof {
        assert(s@.skip(0) =~= s@);
    }
    while i < s.len()
        invariant
            i <= s.len(),
            pattern.len() > 0,
            pattern@ == from@,
            with@ == to@,
            out@ + replaced(s@.skip(i as int), from@, to@) == replaced(s@, from@, to@),
        decreases s.len() - i,
    {
        let ghost rest = s@.skip(i as int);
        if matches_at(s, i, &pattern) {
            append(&mut out, &with);
            proof {
                assert(rest.skip(pattern.len() as int) =~= s@.skip(i + pattern.len()));
            }
            i += pattern.len();
        } else {
            out.push(s[i]);
            proof {
                assert(rest.drop_first() =~= s@.skip(i + 1));
            }
            i += 1;
        }
    }
    out
}

/// `s` with its leftmost occurrence of `from`, if it has one, replaced by `to`.
pub fn replace_first(s: &Vec<char>, from: &Vec<char>, to: &str) -> (r: Vec<char>)
    ensures
        r@ == replaced_first(s@, from@, to@),
{
    let mut out: Vec<char> = Vec::new();
    if from.len() == 0 {
        append(&mut out, s);
        return out;
    }
    let mut i: usize = 0;
    proof {
        assert(s@.skip(0) =~= s@);
    }
    while i < s.len()
        invariant
            i <= s.len(),
            from.len() > 0,
            out@ + replaced_first(s@.skip(i as int), from@, to@) == replaced_first(
                s@,
                from@,
                to@,
            ),
        decreases s.len() - i,
    {
        let ghost rest = s@.skip(i as int);
        if matches_at(s, i, from) {
            append_str(&mut out, to);
            let tail = slice(s, i + from.len(), s.len());
            append(&mut out, &tail);
            return out;
        }
        out.push(s[i]);
        proof {
            assert(rest.drop_first() =~= s@.skip(i + 1));
        }
        i += 1;
    }
    out
}

/// The lines of `s`.
pub fn split_lines(s: &Vec<char>) -> (r: Vec<Vec<char>>)
    ensures
        views(r@) == lines(s@),
{
    let mut out: Vec<Vec<char>> = Vec::new();
    let mut pos: usize = 0;
    proof {
        assert(s@.skip(0) =~= s@);
    }
    while pos < s.len()
        invariant
            pos <= s.len(),
            views(out@) + lines(s@.skip(pos as int)) == lines(s@),
        decreases s.len() - pos,
    {
        let ghost rest = s@.skip(pos as int);
        let ghost before = out@;
        let mut end: usize = pos;
        while end < s.len() && s[end] != '\n'
            invariant
                pos <= end <= s.len(),
                forall|j: int| pos <= j < end ==> s@[j] != '\n',
            decreases s.len() - end,
        {
            end += 1;
        }
        proof {
            lemma_line_length(rest, end - pos);
        }
        if end == s.len() {
            let line = slice(s, pos, end);
            out.push(line);
            pos = end;
        } else {
            let stop: usize = if end > pos && s[end - 1] == '\r' {
                end - 1
            } else {
                end
            };
            let line = slice(s, pos, stop);
            out.push(line);
            proof {
                let tail = lines(rest.skip(end - pos + 1));
                assert(line@ =~= without_carriage_return(rest.take(end - pos)));
                assert(rest.skip(end - pos + 1) =~= s@.skip(end + 1));
                assert((views(before) + seq![line@]) + tail =~= views(before) + (seq![line@]
                    + tail));
            }
            pos = end + 1;
        }
    }
    out
}

/// The first word of `s`.
pub fn leading_word(s: &Vec<char>) -> (word: Vec<char>)
    ensures
        word@ == first_word(s@),
{
    let mut start: usize = 0;
    while start < s.len() && whitespace(s[start])
        invariant
            start <= s.len(),
            forall|i: int| 0 <= i < start ==> is_whitespace(s@[i]),
        decreases s.len() - start,
    {
        start += 1;
    }
    let mut end: usize = start;
    while end < s.len() && !whitespace(s[end])
        invariant
            start <= end <= s.len(),
            forall|i: int| start <= i < end ==> !is_whitespace(s@[i]),
        decreases s.len() - end,
    {
        end += 1;
    }
    proof {
        lemma_trimmed_start(s@, start as int);
        lemma_word_length(s@.skip(start as int), end - start);
    }
    slice(s, start, end)
}

/// Tells whether `s` holds just the characters of `other`.
pub fn same_text(s: &Vec<char>, other: &str) -> (b: bool)
    ensures
        b == (s@ == other@),
{
    let chars = to_chars(other);
    if s.len() != chars.len() {
        return false;
    }
    let mut i: usize = 0;
    while i < s.len()
        invariant
            i <= s.len(),
            s.len() == chars.len(),
            chars@ == other@,
            forall|j: int| 0 <= j < i ==> s@[j] == chars@[j],
        decreases s.len() - i,
    {
        if s[i] != chars[i] {
            return false;
        }
        i += 1;
    }
    proof {
        assert(s@ =~= chars@);
    }
    true
}

/// The code point of `c`, or of its lower-case form where `c` is an ASCII
/// capital.
pub fn ascii_lower(c: char) -> (n: u32)
    ensures
        n == ascii_lowered(c),
{
    if 'A' <= c && c <= 'Z' {
        c as u32 + 32
    } else {
        c as u32
    }
}

/// Tells whether `s` and `other` are the same text but for the case of ASCII
/// letters.
pub fn eq_ignore_ascii_case(s: &Vec<char>, other: &str) -> (b: bool)
    ensures
        b == same_ignoring_ascii_case(s@, other@),
{
    let chars = to_chars(other);
    if s.len() != chars.len() {
        return false;
    }
    let mut i: usize = 0;
    while i < s.len()
        invariant
            i <= s.len(),
            s.len() == chars.len(),
            chars@ == other@,
            forall|j: int| 0 <= j < i ==> ascii_lowered(#[trigger] s@[j]) == ascii_lowered(chars@[j]),
        decreases s.len() - i,
    {
        if ascii_lower(s[i]) != ascii_lower(chars[i]) {
            return false;
        }
        i += 1;
    }
    true
}

} // verus!
