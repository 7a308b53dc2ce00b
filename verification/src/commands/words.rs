//! How a command's text is cut up: blanks, words, lines and code fences.

use vstd::prelude::*;

verus! {

/// The characters that separate words.
pub open spec fn is_blank(c: char) -> bool {
    c == ' ' || c == '\t' || c == '\n' || c == '\r'
}

/// The position of the first character at or after `from` that is not blank;
/// the length where there is none.
pub open spec fn blanks_end(s: Seq<char>, from: int) -> int
    decreases s.len() - from,
{
    if 0 <= from < s.len() && is_blank(s[from]) {
        blanks_end(s, from + 1)
    } else {
        from
    }
}

/// The position of the first blank at or after `from`; the length where there
/// is none.
pub open spec fn word_end(s: Seq<char>, from: int) -> int
    decreases s.len() - from,
{
    if 0 <= from < s.len() && !is_blank(s[from]) {
        word_end(s, from + 1)
    } else {
        from
    }
}

/// The position of the first line feed at or after `from`; the length where
/// there is none.
pub open spec fn line_end(s: Seq<char>, from: int) -> int
    decreases s.len() - from,
{
    if 0 <= from < s.len() && s[from] != '\n' {
        line_end(s, from + 1)
    } else {
        from
    }
}

/// Whether a code fence, three backticks, stands at `at`.
pub open spec fn fence_at(s: Seq<char>, at: int) -> bool {
    &&& 0 <= at
    &&& at + 3 <= s.len()
    &&& s[at] == '`'
    &&& s[at + 1] == '`'
    &&& s[at + 2] == '`'
}

/// The last position from `lo` to `hi` at which a code fence stands, if there
/// is one.
pub open spec fn last_fence(s: Seq<char>, lo: int, hi: int) -> Option<int>
    decreases hi - lo + 1,
{
    if hi < lo {
        None
    } else if fence_at(s, hi) {
        Some(hi)
    } else {
        last_fence(s, lo, hi - 1)
    }
}

/// Where the text of a fenced block that opens at `from` begins and ends: the
/// block opens with a fence at `from` and closes with the last fence that
/// stands whole on the same line; its text lies between the two.
pub open spec fn fenced_span(s: Seq<char>, from: int) -> Option<(int, int)> {
    if fence_at(s, from) {
        match last_fence(s, from + 3, line_end(s, from + 3) - 3) {
            Some(close) => Some((from + 3, close)),
            None => None,
        }
    } else {
        None
    }
}

/// `s` without its backticks.
pub open spec fn without_ticks(s: Seq<char>) -> Seq<char> {
    s.filter(|c: char| c != '`')
}

/// `s` on one line: each line feed has become a space.
pub open spec fn on_one_line(s: Seq<char>) -> Seq<char> {
    s.map_values(
        |c: char|
            if c == '\n' {
                ' '
            } else {
                c
            },
    )
}

/// What `blanks_end` finds: nothing but blanks before it, and no blank at it.
pub proof fn lemma_blanks_end(s: Seq<char>, from: int)
    requires
        0 <= from <= s.len(),
    ensures
        from <= blanks_end(s, from) <= s.len(),
        forall|i: int| from <= i < blanks_end(s, from) ==> is_blank(#[trigger] s[i]),
        blanks_end(s, from) < s.len() ==> !is_blank(s[blanks_end(s, from)]),
    decreases s.len() - from,
{
    if from < s.len() && is_blank(s[from]) {
        lemma_blanks_end(s, from + 1);
    }
}

/// What `word_end` finds: no blank before it, and a blank at it.
pub proof fn lemma_word_end(s: Seq<char>, from: int)
    requires
        0 <= from <= s.len(),
    ensures
        from <= word_end(s, from) <= s.len(),
        forall|i: int| from <= i < word_end(s, from) ==> !is_blank(#[trigger] s[i]),
        word_end(s, from) < s.len() ==> is_blank(s[word_end(s, from)]),
    decreases s.len() - from,
{
    if from < s.len() && !is_blank(s[from]) {
        lemma_word_end(s, from + 1);
    }
}

/// What `line_end` finds: no line feed before it, and a line feed at it.
pub proof fn lemma_line_end(s: Seq<char>, from: int)
    requires
        0 <= from <= s.len(),
    ensures
        from <= line_end(s, from) <= s.len(),
        forall|i: int| from <= i < line_end(s, from) ==> #[trigger] s[i] != '\n',
        line_end(s, from) < s.len() ==> s[line_end(s, from)] == '\n',
    decreases s.len() - from,
{
    if from < s.len() && s[from] != '\n' {
        lemma_line_end(s, from + 1);
    }
}

/// What `last_fence` finds: a fence from `lo` to `hi` with no fence after it
/// up to `hi`; and nothing only where no fence stands there.
pub proof fn lemma_last_fence(s: Seq<char>, lo: int, hi: int)
    ensures
        match last_fence(s, lo, hi) {
            Some(at) => lo <= at <= hi && fence_at(s, at) && forall|i: int|
                at < i <= hi ==> !fence_at(s, i),
            None => forall|i: int| lo <= i <= hi ==> !fence_at(s, i),
        },
    decreases hi - lo + 1,
{
    if hi >= lo && !fence_at(s, hi) {
        lemma_last_fence(s, lo, hi - 1);
    }
}

/// Skips the blanks at `from`.
pub fn skip_blanks(chars: &Vec<char>, from: usize) -> (end: usize)
    ensures
        end == blanks_end(chars@, from as int),
        from <= end,
        from <= chars@.len() ==> end <= chars@.len(),
{
    let mut end = from;
    while end < chars.len() && is_blank_char(chars[end])
        invariant
            from <= end,
            from <= chars@.len() ==> end <= chars@.len(),
            blanks_end(chars@, from as int) == blanks_end(chars@, end as int),
        decreases chars@.len() - end,
    {
        end = end + 1;
    }
    end
}

/// Skips the word at `from`.
pub fn skip_word(chars: &Vec<char>, from: usize) -> (end: usize)
    ensures
        end == word_end(chars@, from as int),
        from <= end,
        from <= chars@.len() ==> end <= chars@.len(),
{
    let mut end = from;
    while end < chars.len() && !is_blank_char(chars[end])
        invariant
            from <= end,
            from <= chars@.len() ==> end <= chars@.len(),
            word_end(chars@, from as int) == word_end(chars@, end as int),
        decreases chars@.len() - end,
    {
        end = end + 1;
    }
    end
}

/// Skips to the end of the line at `from`.
pub fn skip_line(chars: &Vec<char>, from: usize) -> (end: usize)
    ensures
        end == line_end(chars@, from as int),
        from <= end,
        from <= chars@.len() ==> end <= chars@.len(),
{
    let mut end = from;
    while end < chars.len() && chars[end] != '\n'
        invariant
            from <= end,
            from <= chars@.len() ==> end <= chars@.len(),
            line_end(chars@, from as int) == line_end(chars@, end as int),
        decreases chars@.len() - end,
    {
        end = end + 1;
    }
    end
}

/// Whether `c` separates words.
pub fn is_blank_char(c: char) -> (blank: bool)
    ensures
        blank == is_blank(c),
{
    c == ' ' || c == '\t' || c == '\n' || c == '\r'
}

/// Whether a code fence stands at `at`.
pub fn is_fence(chars: &Vec<char>, at: usize) -> (found: bool)
    ensures
        found == fence_at(chars@, at as int),
{
    at <= chars.len() && chars.len() - at >= 3 && chars[at] == '`' && chars[at + 1] == '`'
        && chars[at + 2] == '`'
}

/// Finds the text of the fenced block that opens at `from`.
pub fn find_fenced(chars: &Vec<char>, from: usize) -> (span: Option<(usize, usize)>)
    ensures
        match span {
            Some((open, close)) => fenced_span(chars@, from as int) == Some(
                (open as int, close as int),
            ) && from + 3 == open <= close <= chars@.len(),
            None => fenced_span(chars@, from as int) is None,
        },
{
    if !is_fence(chars, from) {
        return None;
    }
    assert(from + 3 <= chars.len());
    let open = from + 3;
    let line = skip_line(chars, open);
    if line - open < 3 {
        assert(last_fence(chars@, open as int, line - 3) is None);
        return None;
    }
    let mut close = line - 3;
    loop
        invariant
            open <= close <= line - 3,
            line <= chars@.len(),
            fence_at(chars@, from as int),
            from + 3 == open,
            line == line_end(chars@, open as int),
            last_fence(chars@, open as int, line - 3) == last_fence(
                chars@,
                open as int,
                close as int,
            ),
        decreases close,
    {
        if is_fence(chars, close) {
            return Some((open, close));
        }
        if close == open {
            assert(last_fence(chars@, open as int, open - 1) is None);
            return None;
        }
        close = close - 1;
    }
}

/// `text` without its backticks.
pub fn remove_ticks(chars: &Vec<char>, from: usize, to: usize) -> (text: String)
    requires
        from <= to <= chars@.len(),
    ensures
        text@ == without_ticks(chars@.subrange(from as int, to as int)),
{
    let mut text = String::new();
    let mut i = from;
    while i < to
        invariant
            from <= i <= to <= chars@.len(),
            text@ == without_ticks(chars@.subrange(from as int, i as int)),
        decreases to - i,
    {
        let c = chars[i];
        proof {
            let longer = chars@.subrange(from as int, i + 1);
            assert(longer.drop_last() =~= chars@.subrange(from as int, i as int));
            assert(longer.last() == c);
            reveal_with_fuel(Seq::filter, 1);
        }
        if c != '`' {
            text.push(c);
        }
        i = i + 1;
    }
    text
}

} // verus!
