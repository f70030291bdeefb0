//! The grammar of task arguments: words, filters, modifiers and report periods.
//!
//! Every parser is specified over the characters of its input and a
//! position in them; the executable parsers return the parsed value beside
//! the input that is left.

use vstd::prelude::*;

pub mod burndown;
pub mod expression;
pub mod filter;
pub mod history;
pub mod modifier;
pub mod project;

verus! {

/// Why a whole argument could not be read.
#[derive(Debug, Clone, Copy, PartialEq, Eq, Structural)]
pub enum ParseError {
    Project,
    Filter,
    Modifier,
    Burndown,
    History,
}

impl ParseError {
    /// The text of the diagnostic for each error.
    pub open spec fn message(self) -> Seq<char> {
        match self {
            ParseError::Project => "Unable to parse project name"@,
            ParseError::Filter => "Unable to parse filter"@,
            ParseError::Modifier => "Unable to parse modifier"@,
            ParseError::Burndown => "Unable to parse burndown"@,
            ParseError::History => "Unable to parse (g)history"@,
        }
    }

    /// The diagnostic shown to the user.
    pub fn to_string(&self) -> (text: String)
        ensures
            text@ == self.message(),
    {
        match self {
            ParseError::Project => String::from_str("Unable to parse project name"),
            ParseError::Filter => String::from_str("Unable to parse filter"),
            ParseError::Modifier => String::from_str("Unable to parse modifier"),
            ParseError::Burndown => String::from_str("Unable to parse burndown"),
            ParseError::History => String::from_str("Unable to parse (g)history"),
        }
    }
}

/// The characters a word is made of: ASCII letters and digits, `_`, `-` and `.`.
pub open spec fn is_word_char(c: char) -> bool {
    ||| 'a' <= c <= 'z'
    ||| 'A' <= c <= 'Z'
    ||| '0' <= c <= '9'
    ||| c == '_'
    ||| c == '-'
    ||| c == '.'
}

/// The characters that separate arguments: space, tab, carriage return, line feed.
pub open spec fn is_space_char(c: char) -> bool {
    c == ' ' || c == '\t' || c == '\r' || c == '\n'
}

/// The first position at or after `i` that holds no word character.
pub open spec fn word_end(s: Seq<char>, i: int) -> int
    decreases s.len() - i,
{
    if 0 <= i < s.len() && is_word_char(s[i]) {
        word_end(s, i + 1)
    } else {
        i
    }
}

/// The first position at or after `i` that holds no separator.
pub open spec fn space_end(s: Seq<char>, i: int) -> int
    decreases s.len() - i,
{
    if 0 <= i < s.len() && is_space_char(s[i]) {
        space_end(s, i + 1)
    } else {
        i
    }
}

/// A word at `i`: one or more word characters, as many as there are. The
/// result is the position behind the word.
pub open spec fn word_at(s: Seq<char>, i: int) -> Option<int> {
    if word_end(s, i) > i {
        Some(word_end(s, i))
    } else {
        None
    }
}

/// What must follow an argument that ends at `e`: one or more separators,
/// all of which are taken, or the end of the input. The result is the
/// position where the next argument starts.
pub open spec fn gap_at(s: Seq<char>, e: int) -> Option<int> {
    if space_end(s, e) > e {
        Some(space_end(s, e))
    } else if e == s.len() {
        Some(e)
    } else {
        None
    }
}

/// Whether the characters of `t` stand in `s` from position `i` on.
pub open spec fn tag_at(s: Seq<char>, i: int, t: Seq<char>) -> bool {
    0 <= i && i + t.len() <= s.len() && s.subrange(i, i + t.len()) == t
}

/// A word at `i` followed by a gap: the end of the word and the start of
/// what comes next.
pub open spec fn word_space_or_end_at(s: Seq<char>, i: int) -> Option<(int, int)> {
    match word_at(s, i) {
        Some(e) => match gap_at(s, e) {
            Some(n) => Some((e, n)),
            None => None,
        },
        None => None,
    }
}

/// As many words with their gaps as can be read from `i` on, and the
/// position where reading stopped.
pub open spec fn multi_word_at(s: Seq<char>, i: int) -> (Seq<Seq<char>>, int)
    decreases s.len() - i,
{
    match word_space_or_end_at(s, i) {
        Some((e, n)) => if i < n <= s.len() {
            let (words, stop) = multi_word_at(s, n);
            (seq![s.subrange(i, e)] + words, stop)
        } else {
            (Seq::empty(), i)
        },
        None => (Seq::empty(), i),
    }
}

/// `word_end` stays inside the input, does not go backwards, passes only
/// word characters and stops at the end or at the first other character.
pub proof fn lemma_word_end(s: Seq<char>, i: int)
    requires
        0 <= i <= s.len(),
    ensures
        i <= word_end(s, i) <= s.len(),
        forall|k: int| i <= k < word_end(s, i) ==> is_word_char(#[trigger] s[k]),
        word_end(s, i) < s.len() ==> !is_word_char(s[word_end(s, i)]),
    decreases s.len() - i,
{
    if i < s.len() && is_word_char(s[i]) {
        lemma_word_end(s, i + 1);
    }
}

/// `space_end` stays inside the input, does not go backwards, passes only
/// separators and stops at the end or at the first other character.
pub proof fn lemma_space_end(s: Seq<char>, i: int)
    requires
        0 <= i <= s.len(),
    ensures
        i <= space_end(s, i) <= s.len(),
        forall|k: int| i <= k < space_end(s, i) ==> is_space_char(#[trigger] s[k]),
        space_end(s, i) < s.len() ==> !is_space_char(s[space_end(s, i)]),
    decreases s.len() - i,
{
    if i < s.len() && is_space_char(s[i]) {
        lemma_space_end(s, i + 1);
    }
}

/// A word: one or more word characters and nothing else.
pub open spec fn is_word(text: Seq<char>) -> bool {
    text.len() > 0 && forall|k: int| 0 <= k < text.len() ==> is_word_char(#[trigger] text[k])
}

/// A stretch of word characters that ends at the end of the input, or
/// before a character that is none, is where `word_end` stops.
pub proof fn lemma_word_end_is(s: Seq<char>, i: int, e: int)
    requires
        0 <= i <= e <= s.len(),
        forall|k: int| i <= k < e ==> is_word_char(#[trigger] s[k]),
        e == s.len() || !is_word_char(s[e]),
    ensures
        word_end(s, i) == e,
    decreases e - i,
{
    if i < e {
        lemma_word_end_is(s, i + 1, e);
    }
}

/// Whether `c` may stand in a word.
pub fn word_char(c: char) -> (b: bool)
    ensures
        b == is_word_char(c),
{
    (c >= 'a' && c <= 'z') || (c >= 'A' && c <= 'Z') || (c >= '0' && c <= '9') || c == '_' || c
        == '-' || c == '.'
}

/// Whether `c` separates arguments.
pub fn space_char(c: char) -> (b: bool)
    ensures
        b == is_space_char(c),
{
    c == ' ' || c == '\t' || c == '\r' || c == '\n'
}

/// Walks over the word characters from `i` on.
pub(crate) fn scan_word(s: &str, len: usize, i: usize) -> (e: usize)
    requires
        len == s@.len(),
        i <= len,
    ensures
        e == word_end(s@, i as int),
        i <= e <= len,
{
    let mut e: usize = i;
    while e < len && word_char(s.get_char(e))
        invariant
            len == s@.len(),
            i <= e <= len,
            word_end(s@, i as int) == word_end(s@, e as int),
        decreases len - e,
    {
        e = e + 1;
    }
    proof {
        lemma_word_end(s@, e as int);
    }
    e
}

/// Walks over the separators from `i` on.
pub(crate) fn scan_space(s: &str, len: usize, i: usize) -> (e: usize)
    requires
        len == s@.len(),
        i <= len,
    ensures
        e == space_end(s@, i as int),
        i <= e <= len,
{
    let mut e: usize = i;
    while e < len && space_char(s.get_char(e))
        invariant
            len == s@.len(),
            i <= e <= len,
            space_end(s@, i as int) == space_end(s@, e as int),
        decreases len - e,
    {
        e = e + 1;
    }
    proof {
        lemma_space_end(s@, e as int);
    }
    e
}

/// Reads the gap behind an argument that ends at `e`.
pub(crate) fn scan_gap(s: &str, len: usize, e: usize) -> (n: Option<usize>)
    requires
        len == s@.len(),
        e <= len,
    ensures
        match n {
            Some(n) => gap_at(s@, e as int) == Some(n as int) && e <= n <= len,
            None => gap_at(s@, e as int) is None,
        },
{
    let n = scan_space(s, len, e);
    if n > e {
        Some(n)
    } else if e == len {
        Some(e)
    } else {
        None
    }
}

/// Compares the characters at `i` with those of `tag`; on a match the
/// result is the position behind them.
pub(crate) fn scan_tag(s: &str, len: usize, i: usize, tag: &str) -> (e: Option<usize>)
    requires
        len == s@.len(),
        i <= len,
    ensures
        match e {
            Some(e) => tag_at(s@, i as int, tag@) && e == i + tag@.len() && e <= len,
            None => !tag_at(s@, i as int, tag@),
        },
{
    let n = tag.unicode_len();
    if n > len - i {
        return None;
    }
    let mut k: usize = 0;
    while k < n
        invariant
            len == s@.len(),
            n == tag@.len(),
            i + n <= len,
            k <= n,
            forall|j: int| 0 <= j < k ==> s@[i + j] == tag@[j],
        decreases n - k,
    {
        if s.get_char(i + k) != tag.get_char(k) {
            proof {
                assert(s@.subrange(i as int, i + n)[k as int] == s@[i + k]);
            }
            return None;
        }
        k = k + 1;
    }
    proof {
        assert(s@.subrange(i as int, i + n) =~= tag@);
    }
    Some(i + n)
}

/// Whether `s` holds the characters of `text` and nothing else.
pub(crate) fn is_exactly(s: &str, text: &str) -> (b: bool)
    ensures
        b == (s@ == text@),
{
    let len = s.unicode_len();
    match scan_tag(s, len, 0, text) {
        Some(e) => {
            proof {
                if e == len {
                    assert(s@.subrange(0, len as int) =~= s@);
                }
            }
            e == len
        },
        None => {
            proof {
                if s@ == text@ {
                    assert(s@.subrange(0, s@.len() as int) =~= s@);
                }
            }
            false
        },
    }
}

/// Copies the characters from `from` up to `to` into a string of their own.
pub(crate) fn slice_string(s: &str, from: usize, to: usize) -> (part: String)
    requires
        from <= to <= s@.len(),
    ensures
        part@ == s@.subrange(from as int, to as int),
{
    String::from_str(s.substring_char(from, to))
}

/// One word at the start of `input`: the word and the input behind it.
pub fn word<'a>(input: &'a str) -> (r: Option<(&'a str, &'a str)>)
    ensures
        match r {
            Some((w, rest)) => {
                &&& word_at(input@, 0) is Some
                &&& w@ == input@.take(word_end(input@, 0))
                &&& rest@ == input@.skip(word_end(input@, 0))
            },
            None => word_at(input@, 0) is None,
        },
{
    let len = input.unicode_len();
    let e = scan_word(input, len, 0);
    if e > 0 {
        Some((input.substring_char(0, e), input.substring_char(e, len)))
    } else {
        None
    }
}

/// One word at the start of `input` with the gap behind it: the word and
/// the input behind the gap.
pub fn word_space_or_end<'a>(input: &'a str) -> (r: Option<(&'a str, &'a str)>)
    ensures
        match r {
            Some((w, rest)) => match word_space_or_end_at(input@, 0) {
                Some((e, n)) => w@ == input@.take(e) && rest@ == input@.skip(n),
                None => false,
            },
            None => word_space_or_end_at(input@, 0) is None,
        },
{
    let len = input.unicode_len();
    let e = scan_word(input, len, 0);
    if e == 0 {
        return None;
    }
    match scan_gap(input, len, e) {
        Some(n) => Some((input.substring_char(0, e), input.substring_char(n, len))),
        None => None,
    }
}

/// All the words at the start of `input`, each with the gap behind it, and
/// the input that is left: reading stops before the first word that is not
/// followed by a gap.
pub fn multi_word<'a>(input: &'a str) -> (r: (Vec<String>, &'a str))
    ensures
        r.0.deep_view() == multi_word_at(input@, 0).0,
        r.1@ == input@.skip(multi_word_at(input@, 0).1),
{
    let len = input.unicode_len();
    let mut words: Vec<String> = Vec::new();
    let mut pos: usize = 0;
    loop
        invariant
            len == input@.len(),
            pos <= len,
            multi_word_at(input@, 0).0 == words.deep_view() + multi_word_at(input@, pos as int).0,
            multi_word_at(input@, 0).1 == multi_word_at(input@, pos as int).1,
        ensures
            pos <= len,
            words.deep_view() == multi_word_at(input@, 0).0,
            pos == multi_word_at(input@, 0).1,
        decreases len - pos,
    {
        let e = scan_word(input, len, pos);
        if e == pos {
            break ;
        }
        let next = match scan_gap(input, len, e) {
            Some(n) => n,
            None => {
                break ;
            },
        };
        let w = slice_string(input, pos, e);
        proof {
            let tail = multi_word_at(input@, next as int).0;
            assert(words.deep_view().push(w@) + tail == words.deep_view() + (seq![w@] + tail));
        }
        words.push(w);
        pos = next;
    }
    (words, input.substring_char(pos, len))
}

} // verus!
