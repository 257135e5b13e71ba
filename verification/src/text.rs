//! Text helpers: whitespace and words, the words of a text joined by single
//! spaces, the first line of a text, decimal numbers.

use vstd::prelude::*;
use vstd::string::*;

verus! {

/// Whether `c` carries the Unicode `White_Space` property.
pub open spec fn is_whitespace(c: char) -> bool {
    let u = c as u32;
    ||| 0x09 <= u <= 0x0D
    ||| u == 0x20
    ||| u == 0x85
    ||| u == 0xA0
    ||| u == 0x1680
    ||| 0x2000 <= u <= 0x200A
    ||| u == 0x2028
    ||| u == 0x2029
    ||| u == 0x202F
    ||| u == 0x205F
    ||| u == 0x3000
}

/// Whether a word begins at position `i` of `s`: a non-whitespace character
/// that is first in the text or preceded by whitespace.
pub open spec fn is_word_start(s: Seq<char>, i: int) -> bool {
    &&& 0 <= i < s.len()
    &&& !is_whitespace(s[i])
    &&& (i == 0 || is_whitespace(s[i - 1]))
}

/// Number of word starts among the first `n` positions of `s`.
pub open spec fn word_starts_before(s: Seq<char>, n: nat) -> nat
    decreases n,
{
    if n == 0 {
        0
    } else {
        word_starts_before(s, (n - 1) as nat) + if is_word_start(s, n - 1) {
            1nat
        } else {
            0nat
        }
    }
}

/// Number of whitespace-separated words in `s`.
pub open spec fn word_count(s: Seq<char>) -> nat {
    word_starts_before(s, s.len())
}

/// Executable form of [`is_whitespace`].
pub fn is_whitespace_char(c: char) -> (r: bool)
    ensures
        r == is_whitespace(c),
{
    let u: u32 = c as u32;
    (0x09 <= u && u <= 0x0D) || u == 0x20 || u == 0x85 || u == 0xA0 || u == 0x1680 || (0x2000 <= u
        && u <= 0x200A) || u == 0x2028 || u == 0x2029 || u == 0x202F || u == 0x205F || u == 0x3000
}

/// Counts the whitespace-separated words of `text`.
pub fn count_words(text: &str) -> (n: usize)
    ensures
        n == word_count(text@),
{
    let len: usize = text.unicode_len();
    let mut count: usize = 0;
    let mut in_word = false;
    for c in it: text.chars()
        invariant
            it.seq() == text@,
            len == text@.len(),
            count <= it.index(),
            count == word_starts_before(text@, it.index() as nat),
            in_word == (it.index() > 0 && !is_whitespace(text@[it.index() - 1])),
    {
        let space = is_whitespace_char(c);
        if !space && !in_word {
            count = count + 1;
        }
        in_word = !space;
    }
    count
}

/// The words among the first `n` characters of `s`, joined by single
/// spaces: whitespace is left out, and a space stands before every word but
/// the first.
pub open spec fn joined_words_before(s: Seq<char>, n: nat) -> Seq<char>
    decreases n,
{
    if n == 0 {
        Seq::empty()
    } else {
        let before = joined_words_before(s, (n - 1) as nat);
        if is_whitespace(s[n - 1]) {
            before
        } else if is_word_start(s, n - 1) && before.len() > 0 {
            before.push(' ').push(s[n - 1])
        } else {
            before.push(s[n - 1])
        }
    }
}

/// The whitespace-separated words of `s`, joined by single spaces.
pub open spec fn joined_words(s: Seq<char>) -> Seq<char> {
    joined_words_before(s, s.len())
}

/// Whether `s` is words joined by single spaces: its only whitespace is a
/// single space between two words.
pub open spec fn is_single_spaced(s: Seq<char>) -> bool {
    forall|i: int|
        0 <= i < s.len() && is_whitespace(#[trigger] s[i]) ==> {
            &&& s[i] == ' '
            &&& 0 < i
            &&& i + 1 < s.len()
            &&& !is_whitespace(s[i - 1])
        }
}

/// The text that stands before a word that is appended to `joined`: `joined`
/// itself if it is empty, else `joined` and a space.
pub open spec fn with_separator(joined: Seq<char>) -> Seq<char> {
    if joined.len() == 0 {
        joined
    } else {
        joined.push(' ')
    }
}

/// Texts that agree on their first `n` characters have the same word starts
/// there.
pub proof fn lemma_word_starts_of_prefix(a: Seq<char>, b: Seq<char>, n: nat)
    requires
        n <= a.len(),
        n <= b.len(),
        forall|i: int| 0 <= i < n ==> a[i] == b[i],
    ensures
        word_starts_before(a, n) == word_starts_before(b, n),
    decreases n,
{
    if n > 0 {
        lemma_word_starts_of_prefix(a, b, (n - 1) as nat);
    }
}

/// Joining the words by single spaces keeps their number; the joined text
/// neither begins nor ends with whitespace and is single-spaced.
pub proof fn lemma_joined_words_before(s: Seq<char>, n: nat)
    requires
        n <= s.len(),
    ensures
        word_count(joined_words_before(s, n)) == word_starts_before(s, n),
        joined_words_before(s, n).len() > 0 ==> !is_whitespace(joined_words_before(s, n).last()),
        n > 0 && !is_whitespace(s[n - 1]) ==> joined_words_before(s, n).len() > 0
            && joined_words_before(s, n).last() == s[n - 1],
        is_single_spaced(joined_words_before(s, n)),
    decreases n,
{
    if n > 0 {
        let before = joined_words_before(s, (n - 1) as nat);
        let joined = joined_words_before(s, n);
        lemma_joined_words_before(s, (n - 1) as nat);
        if !is_whitespace(s[n - 1]) {
            lemma_word_starts_of_prefix(joined, before, before.len());
            if is_word_start(s, n - 1) && before.len() > 0 {
                assert(word_starts_before(joined, (before.len() + 1) as nat) == word_starts_before(
                    joined,
                    before.len(),
                ));
            }
        }
    }
}

/// Joining the words of a text keeps the number of its words and gives a
/// single-spaced text.
pub proof fn lemma_joined_words(s: Seq<char>)
    ensures
        word_count(joined_words(s)) == word_count(s),
        is_single_spaced(joined_words(s)),
{
    lemma_joined_words_before(s, s.len());
}

/// Up to a word boundary, a single-spaced text is the join of its own words.
pub proof fn lemma_single_spaced_prefix(s: Seq<char>, n: nat)
    requires
        is_single_spaced(s),
        n <= s.len(),
    ensures
        joined_words_before(s, n) == if n > 0 && is_whitespace(s[n - 1]) {
            s.take(n - 1)
        } else {
            s.take(n as int)
        },
    decreases n,
{
    if n > 0 {
        lemma_single_spaced_prefix(s, (n - 1) as nat);
    }
}

/// A single-spaced text is the join of its own words.
pub proof fn lemma_single_spaced_is_joined(s: Seq<char>)
    requires
        is_single_spaced(s),
    ensures
        joined_words(s) == s,
{
    lemma_single_spaced_prefix(s, s.len());
}

/// Joining the words of a joined text changes nothing.
pub proof fn lemma_joined_words_idempotent(s: Seq<char>)
    ensures
        joined_words(joined_words(s)) == joined_words(s),
{
    lemma_joined_words(s);
    lemma_single_spaced_is_joined(joined_words(s));
}

/// Appends the word that stands at `start..end` of `text` to `joined`, after
/// a space unless it is the first.
fn append_word(joined: &mut String, text: &str, start: usize, end: usize)
    requires
        start <= end <= text@.len(),
    ensures
        final(joined)@ == with_separator(old(joined)@) + text@.subrange(start as int, end as int),
{
    if !joined.as_str().is_empty() {
        proof {
            reveal_strlit(" ");
        }
        joined.append(" ");
    }
    joined.append(text.substring_char(start, end));
}

/// Joins the whitespace-separated words of `text` by single spaces.
pub fn join_words(text: &str) -> (joined: String)
    ensures
        joined@ == joined_words(text@),
{
    let len: usize = text.unicode_len();
    let mut joined = String::new();
    let mut start: usize = 0;
    let mut end: usize = 0;
    let mut in_word = false;
    for c in it: text.chars()
        invariant
            it.seq() == text@,
            len == text@.len(),
            end == it.index(),
            in_word == (end > 0 && !is_whitespace(text@[end - 1])),
            !in_word ==> joined@ == joined_words_before(text@, end as nat),
            in_word ==> start < end && joined_words_before(text@, end as nat) == with_separator(
                joined@,
            ) + text@.subrange(start as int, end as int),
    {
        let space = is_whitespace_char(c);
        if space && in_word {
            append_word(&mut joined, text, start, end);
        } else if !space && !in_word {
            start = end;
        }
        in_word = !space;
        end = end + 1;
    }
    if in_word {
        append_word(&mut joined, text, start, end);
    }
    joined
}

/// Where the first line of `text` ends: the position of its first line feed,
/// or the length of `text` if it has none.
pub open spec fn first_line_end(text: Seq<char>) -> int
    decreases text.len(),
{
    if text.len() == 0 || text[0] == '\n' {
        0
    } else {
        1 + first_line_end(text.drop_first())
    }
}

/// The first line of `text`, without its line ending (a line feed, or a
/// carriage return and a line feed); `None` if `text` is empty. A carriage
/// return that no line feed follows belongs to the line.
pub open spec fn first_line_of(text: Seq<char>) -> Option<Seq<char>> {
    let end = first_line_end(text);
    if text.len() == 0 {
        None
    } else if end < text.len() && end > 0 && text[end - 1] == '\r' {
        Some(text.take(end - 1))
    } else {
        Some(text.take(end))
    }
}

/// The first line ends at `end` if no line feed comes before `end` and one
/// stands there, or the text ends there.
pub proof fn lemma_first_line_end(text: Seq<char>, end: int)
    requires
        0 <= end <= text.len(),
        forall|i: int| 0 <= i < end ==> text[i] != '\n',
        end == text.len() || text[end] == '\n',
    ensures
        first_line_end(text) == end,
    decreases text.len(),
{
    if end > 0 {
        let rest = text.drop_first();
        lemma_first_line_end(rest, end - 1);
    }
}

/// The first line of `text`, without its line ending.
pub fn first_line(text: &str) -> (line: Option<&str>)
    ensures
        match first_line_of(text@) {
            Some(expected) => line matches Some(found) && found@ == expected,
            None => line is None,
        },
{
    let len: usize = text.unicode_len();
    if len == 0 {
        return None;
    }
    let mut end: usize = 0;
    let mut after_return = false;
    for c in it: text.chars()
        invariant
            it.seq() == text@,
            len == text@.len(),
            end == it.index(),
            forall|i: int| 0 <= i < end ==> text@[i] != '\n',
            after_return == (end > 0 && text@[end - 1] == '\r'),
    {
        if c == '\n' {
            proof {
                lemma_first_line_end(text@, end as int);
            }
            if after_return {
                return Some(text.substring_char(0, end - 1));
            } else {
                return Some(text.substring_char(0, end));
            }
        }
        after_return = c == '\r';
        end = end + 1;
    }
    proof {
        lemma_first_line_end(text@, end as int);
    }
    Some(text)
}

/// The ten decimal digits, in order.
pub open spec fn decimal_digits() -> Seq<char> {
    seq!['0', '1', '2', '3', '4', '5', '6', '7', '8', '9']
}

/// Decimal text of `n`, without leading zeros.
pub open spec fn decimal_text(n: nat) -> Seq<char>
    decreases n,
{
    if n < 10 {
        seq![decimal_digits()[n as int]]
    } else {
        decimal_text(n / 10).push(decimal_digits()[(n % 10) as int])
    }
}

/// The text of one decimal digit.
fn digit_str(digit: u32) -> (text: &'static str)
    requires
        digit < 10,
    ensures
        text@ == seq![decimal_digits()[digit as int]],
{
    proof {
        reveal_strlit("0");
        reveal_strlit("1");
        reveal_strlit("2");
        reveal_strlit("3");
        reveal_strlit("4");
        reveal_strlit("5");
        reveal_strlit("6");
        reveal_strlit("7");
        reveal_strlit("8");
        reveal_strlit("9");
    }
    if digit == 0 {
        "0"
    } else if digit == 1 {
        "1"
    } else if digit == 2 {
        "2"
    } else if digit == 3 {
        "3"
    } else if digit == 4 {
        "4"
    } else if digit == 5 {
        "5"
    } else if digit == 6 {
        "6"
    } else if digit == 7 {
        "7"
    } else if digit == 8 {
        "8"
    } else {
        "9"
    }
}

/// Writes `n` in decimal.
pub fn decimal_string(n: u32) -> (text: String)
    ensures
        text@ == decimal_text(n as nat),
    decreases n,
{
    if n < 10 {
        digit_str(n).to_owned()
    } else {
        let mut text = decimal_string(n / 10);
        text.append(digit_str(n % 10));
        text
    }
}

} // verus!
