//! Modifiers: the arguments that stand behind the subcommand.

use super::filter::{lemma_pair_reads_back, pair_at, pair_from, pair_text};
use super::project::{
    lemma_project_reads_back, project_at, project_from, project_text, Project,
};
use super::{
    gap_at, is_word, is_word_char, lemma_word_end_is, scan_gap, scan_word, slice_string, tag_at,
    word_at, ParseError,
};
use vstd::prelude::*;

verus! {

/// One modifier: a word of the description, a project, or any other
/// attribute with its value.
#[derive(Debug, Clone, PartialEq, Eq)]
pub enum Modifier {
    Description(String),
    Project(Project),
    Other { name: String, value: String },
}

/// A modifier as plain text values.
pub enum ModifierView {
    Description(Seq<char>),
    Project(Seq<char>),
    Other { name: Seq<char>, value: Seq<char> },
}

impl View for Modifier {
    type V = ModifierView;

    open spec fn view(&self) -> ModifierView {
        match self {
            Modifier::Description(word) => ModifierView::Description(word@),
            Modifier::Project(project) => ModifierView::Project(project@),
            Modifier::Other { name, value } => ModifierView::Other { name: name@, value: value@ },
        }
    }
}

impl DeepView for Modifier {
    type V = ModifierView;

    open spec fn deep_view(&self) -> ModifierView {
        self@
    }
}

impl ModifierView {
    /// How the modifier is written as an argument.
    pub open spec fn text(self) -> Seq<char> {
        match self {
            ModifierView::Description(word) => word,
            ModifierView::Project(name) => project_text(name),
            ModifierView::Other { name, value } => pair_text(name, value),
        }
    }
}

/// A word of the description at `i`: any word.
pub open spec fn description_at(s: Seq<char>, i: int) -> Option<(ModifierView, int)> {
    match word_at(s, i) {
        Some(e) => Some((ModifierView::Description(s.subrange(i, e)), e)),
        None => None,
    }
}

/// A project or an attribute with its value at `i`; the project is tried
/// first.
pub open spec fn standard_modifier_at(s: Seq<char>, i: int) -> Option<(ModifierView, int)> {
    match project_at(s, i) {
        Some((name, e)) => Some((ModifierView::Project(name), e)),
        None => match pair_at(s, i) {
            Some((name, value, e)) => Some((ModifierView::Other { name, value }, e)),
            None => None,
        },
    }
}

/// A modifier at `i`: a project or an attribute with its value where there
/// is one, else a word of the description.
pub open spec fn modifier_at(s: Seq<char>, i: int) -> Option<(ModifierView, int)> {
    match standard_modifier_at(s, i) {
        Some(found) => Some(found),
        None => description_at(s, i),
    }
}

/// A modifier at `i` followed by a gap: the modifier and the start of what
/// comes next.
pub open spec fn modifier_space_or_end_at(s: Seq<char>, i: int) -> Option<(ModifierView, int)> {
    match modifier_at(s, i) {
        Some((m, e)) => match gap_at(s, e) {
            Some(n) => Some((m, n)),
            None => None,
        },
        None => None,
    }
}

/// As many modifiers with their gaps as can be read from `i` on, and the
/// position where reading stopped.
pub open spec fn modifiers_at(s: Seq<char>, i: int) -> (Seq<ModifierView>, int)
    decreases s.len() - i,
{
    match modifier_space_or_end_at(s, i) {
        Some((m, n)) => if i < n <= s.len() {
            let (rest, stop) = modifiers_at(s, n);
            (seq![m] + rest, stop)
        } else {
            (Seq::empty(), i)
        },
        None => (Seq::empty(), i),
    }
}

/// A whole argument read as one modifier: all of it has to be the modifier.
pub open spec fn parse_modifier(s: Seq<char>) -> Result<ModifierView, ParseError> {
    match modifier_at(s, 0) {
        Some((m, e)) => if e == s.len() {
            Ok(m)
        } else {
            Err(ParseError::Modifier)
        },
        None => Err(ParseError::Modifier),
    }
}

/// A whole argument read as modifiers: all of it has to be modifiers.
pub open spec fn parse_modifiers(s: Seq<char>) -> Result<Seq<ModifierView>, ParseError> {
    if modifiers_at(s, 0).1 == s.len() {
        Ok(modifiers_at(s, 0).0)
    } else {
        Err(ParseError::Modifier)
    }
}

impl Modifier {
    /// The modifier as an argument: a word of the description as it is, a
    /// project as `project:` and its name, any other as its name, a colon
    /// and its value.
    pub fn to_string(&self) -> (text: String)
        ensures
            text@ == self@.text(),
    {
        match self {
            Modifier::Description(word) => word.clone(),
            Modifier::Project(project) => project.to_string(),
            Modifier::Other { name, value } => {
                let text = name.clone().concat(":").concat(value.as_str());
                text
            },
        }
    }

    /// Whether the modifier names a project.
    pub fn is_project(&self) -> (b: bool)
        ensures
            b == (self@ is Project),
    {
        match self {
            Modifier::Project(_) => true,
            _ => false,
        }
    }

    /// Reads a whole argument as one modifier.
    pub fn from_str(s: &str) -> (r: Result<Modifier, ParseError>)
        ensures
            match r {
                Ok(m) => parse_modifier(s@) == Ok::<ModifierView, ParseError>(m@),
                Err(e) => parse_modifier(s@) == Err::<ModifierView, ParseError>(e),
            },
    {
        let len = s.unicode_len();
        match modifier_from(s, len, 0) {
            Some((m, e)) => if e == len {
                Ok(m)
            } else {
                Err(ParseError::Modifier)
            },
            None => Err(ParseError::Modifier),
        }
    }
}

/// Reads a word of the description at `i`.
pub(crate) fn description_from(s: &str, len: usize, i: usize) -> (r: Option<(Modifier, usize)>)
    requires
        len == s@.len(),
        i <= len,
    ensures
        match r {
            Some((m, e)) => description_at(s@, i as int) == Some((m@, e as int)) && i < e <= len,
            None => description_at(s@, i as int) is None,
        },
{
    let e = scan_word(s, len, i);
    if e == i {
        return None;
    }
    Some((Modifier::Description(slice_string(s, i, e)), e))
}

/// Reads a project or an attribute with its value at `i`.
pub(crate) fn standard_modifier_from(s: &str, len: usize, i: usize) -> (r: Option<
    (Modifier, usize),
>)
    requires
        len == s@.len(),
        i <= len,
    ensures
        match r {
            Some((m, e)) => standard_modifier_at(s@, i as int) == Some((m@, e as int)) && i < e
                <= len,
            None => standard_modifier_at(s@, i as int) is None,
        },
{
    match project_from(s, len, i) {
        Some((p, e)) => Some((Modifier::Project(p), e)),
        None => match pair_from(s, len, i) {
            Some((name, value, e)) => Some((Modifier::Other { name, value }, e)),
            None => None,
        },
    }
}

/// Reads a modifier at `i`.
pub(crate) fn modifier_from(s: &str, len: usize, i: usize) -> (r: Option<(Modifier, usize)>)
    requires
        len == s@.len(),
        i <= len,
    ensures
        match r {
            Some((m, e)) => modifier_at(s@, i as int) == Some((m@, e as int)) && i < e <= len,
            None => modifier_at(s@, i as int) is None,
        },
{
    match standard_modifier_from(s, len, i) {
        Some(found) => Some(found),
        None => description_from(s, len, i),
    }
}

/// The modifiers of a command line, in the order in which they were given.
#[derive(Debug, Clone, PartialEq, Eq)]
pub struct Modifiers {
    modifiers: Vec<Modifier>,
}

impl View for Modifiers {
    type V = Seq<ModifierView>;

    closed spec fn view(&self) -> Seq<ModifierView> {
        self.modifiers.deep_view()
    }
}

impl Modifiers {
    /// The given modifiers, in their order.
    pub fn with_modifiers(modifiers: Vec<Modifier>) -> (r: Modifiers)
        ensures
            r@ == modifiers.deep_view(),
    {
        Modifiers { modifiers }
    }

    /// The modifiers, in their order.
    pub fn modifiers(&self) -> (r: &[Modifier])
        ensures
            r.deep_view() == self@,
    {
        let r = self.modifiers.as_slice();
        proof {
            assert(r.deep_view() =~= self.modifiers.deep_view());
        }
        r
    }

    /// No modifiers yet, with room for `capacity` of them where it is given.
    pub fn initial(capacity: Option<usize>) -> (r: Modifiers)
        ensures
            r@ == Seq::<ModifierView>::empty(),
    {
        let modifiers: Vec<Modifier> = match capacity {
            Some(c) => Vec::with_capacity(c),
            None => Vec::new(),
        };
        proof {
            assert(modifiers.deep_view() =~= Seq::<ModifierView>::empty());
        }
        Modifiers { modifiers }
    }

    /// Adds one modifier behind the others.
    pub fn accumulate(&mut self, acc: Modifier)
        ensures
            final(self)@ == old(self)@.push(acc@),
    {
        self.modifiers.push(acc);
        proof {
            assert(self.modifiers.deep_view() =~= old(self).modifiers.deep_view().push(acc@));
        }
    }

    /// Reads a whole argument as modifiers.
    pub fn from_str(s: &str) -> (r: Result<Modifiers, ParseError>)
        ensures
            match r {
                Ok(m) => parse_modifiers(s@) == Ok::<Seq<ModifierView>, ParseError>(m@),
                Err(e) => parse_modifiers(s@) == Err::<Seq<ModifierView>, ParseError>(e),
            },
    {
        let len = s.unicode_len();
        let (modifiers, stop) = modifiers_from(s, len);
        if stop == len {
            Ok(modifiers)
        } else {
            Err(ParseError::Modifier)
        }
    }
}

/// Reads modifiers from the start of `s` until one does not fit.
pub(crate) fn modifiers_from(s: &str, len: usize) -> (r: (Modifiers, usize))
    requires
        len == s@.len(),
    ensures
        r.0@ == modifiers_at(s@, 0).0,
        r.1 == modifiers_at(s@, 0).1,
        r.1 <= len,
{
    let mut found: Vec<Modifier> = Vec::new();
    let mut pos: usize = 0;
    loop
        invariant
            len == s@.len(),
            pos <= len,
            modifiers_at(s@, 0).0 == found.deep_view() + modifiers_at(s@, pos as int).0,
            modifiers_at(s@, 0).1 == modifiers_at(s@, pos as int).1,
        ensures
            pos <= len,
            found.deep_view() == modifiers_at(s@, 0).0,
            pos == modifiers_at(s@, 0).1,
        decreases len - pos,
    {
        let (m, e) = match modifier_from(s, len, pos) {
            Some(me) => me,
            None => {
                break ;
            },
        };
        let next = match scan_gap(s, len, e) {
            Some(n) => n,
            None => {
                break ;
            },
        };
        proof {
            let tail = modifiers_at(s@, next as int).0;
            assert(found.deep_view().push(m@) + tail == found.deep_view() + (seq![m@] + tail));
        }
        found.push(m);
        pos = next;
    }
    (Modifiers { modifiers: found }, pos)
}

/// One word of the description at the start of `input`: the modifier and
/// the input behind it.
pub fn description<'a>(input: &'a str) -> (r: Option<(Modifier, &'a str)>)
    ensures
        match r {
            Some((m, rest)) => match description_at(input@, 0) {
                Some((found, e)) => m@ == found && rest@ == input@.skip(e),
                None => false,
            },
            None => description_at(input@, 0) is None,
        },
{
    let len = input.unicode_len();
    match description_from(input, len, 0) {
        Some((m, e)) => Some((m, input.substring_char(e, len))),
        None => None,
    }
}

/// All the modifiers at the start of `input`, each with the gap behind it,
/// and the input that is left: reading stops before the first argument that
/// is no modifier or is not followed by a gap.
pub fn modifiers<'a>(input: &'a str) -> (r: (Modifiers, &'a str))
    ensures
        r.0@ == modifiers_at(input@, 0).0,
        r.1@ == input@.skip(modifiers_at(input@, 0).1),
{
    let len = input.unicode_len();
    let (found, stop) = modifiers_from(input, len);
    (found, input.substring_char(stop, len))
}

impl ModifierView {
    /// Whether the modifier is read back as it is written: its texts are
    /// words, and an attribute is not named like the project argument.
    pub open spec fn readable(self) -> bool {
        match self {
            ModifierView::Description(word) => is_word(word),
            ModifierView::Project(name) => is_word(name),
            ModifierView::Other { name, value } => {
                &&& is_word(name)
                &&& is_word(value)
                &&& name != "project"@
                &&& name != "proj"@
            },
        }
    }
}

/// A word that is followed by the end of the input or by anything that is
/// neither a word character nor a colon is no project argument and no
/// attribute: it is a word of the description.
pub proof fn lemma_word_is_description(word: Seq<char>, rest: Seq<char>)
    requires
        is_word(word),
        rest.len() == 0 || (!is_word_char(rest[0]) && rest[0] != ':'),
    ensures
        standard_modifier_at(word + rest, 0) is None,
        description_at(word + rest, 0) == Some(
            (ModifierView::Description(word), word.len() as int),
        ),
{
    let s = word + rest;
    reveal_strlit("project");
    reveal_strlit("proj");
    reveal_strlit(":");
    let n: int = word.len() as int;
    assert forall|k: int| 0 <= k < n implies is_word_char(#[trigger] s[k]) by {
        assert(s[k] == word[k]);
    }
    if rest.len() > 0 {
        assert(s[n] == rest[0]);
    }
    lemma_word_end_is(s, 0, n);
    assert(s.subrange(0, n) =~= word);
    if tag_at(s, n, ":"@) {
        assert(s.subrange(n, n + 1)[0] == s[n]);
    }
    if tag_at(s, 0, "project"@) {
        assert(s.subrange(0, 7) == "project"@);
        if n < 7 {
            assert(s.subrange(0, 7)[n] == s[n]);
        } else if tag_at(s, 7, ":"@) {
            assert(s.subrange(7, 8)[0] == s[7]);
            if n > 7 {
                assert(s[7] == word[7]);
            }
        }
    } else if tag_at(s, 0, "proj"@) {
        assert(s.subrange(0, 4) == "proj"@);
        if n < 4 {
            assert(s.subrange(0, 4)[n] == s[n]);
        } else if tag_at(s, 4, ":"@) {
            assert(s.subrange(4, 5)[0] == s[4]);
            if n > 4 {
                assert(s[4] == word[4]);
            }
        }
    }
}

/// What is written is read back: a readable modifier, written as an
/// argument and followed by the end of the input or by anything that is
/// neither a word character nor a colon, is read as that modifier, and all
/// of the argument is taken. So an argument that holds just the written
/// modifier is read as it.
pub proof fn lemma_modifier_reads_back(m: ModifierView, rest: Seq<char>)
    requires
        m.readable(),
        rest.len() == 0 || (!is_word_char(rest[0]) && rest[0] != ':'),
    ensures
        modifier_at(m.text() + rest, 0) == Some((m, m.text().len() as int)),
        parse_modifier(m.text()) == Ok::<ModifierView, ParseError>(m),
{
    let none = Seq::<char>::empty();
    assert(m.text() + none =~= m.text());
    match m {
        ModifierView::Description(word) => {
            lemma_word_is_description(word, rest);
            lemma_word_is_description(word, none);
        },
        ModifierView::Project(name) => {
            lemma_project_reads_back(name, rest);
            lemma_project_reads_back(name, none);
        },
        ModifierView::Other { name, value } => {
            lemma_pair_reads_back(name, value, rest);
            lemma_pair_reads_back(name, value, none);
        },
    }
}

} // verus!
