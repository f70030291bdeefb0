//! Filters: the arguments that stand before the subcommand.

use super::project::{
    lemma_project_reads_back, project_at, project_from, project_text, Project,
};
use super::{
    gap_at, is_word, is_word_char, lemma_word_end_is, scan_gap, scan_tag, scan_word,
    slice_string, tag_at, word_at, ParseError,
};
use vstd::prelude::*;

verus! {

/// One filter: a project, or any other attribute with its value.
#[derive(Debug, Clone, PartialEq, Eq)]
pub enum Filter {
    Project(Project),
    Other { name: String, value: String },
}

/// A filter as plain text values.
pub enum FilterView {
    Project(Seq<char>),
    Other { name: Seq<char>, value: Seq<char> },
}

impl View for Filter {
    type V = FilterView;

    open spec fn view(&self) -> FilterView {
        match self {
            Filter::Project(project) => FilterView::Project(project@),
            Filter::Other { name, value } => FilterView::Other { name: name@, value: value@ },
        }
    }
}

/// How an attribute with its value is written as an argument.
pub open spec fn pair_text(name: Seq<char>, value: Seq<char>) -> Seq<char> {
    name + ":"@ + value
}

impl FilterView {
    /// How the filter is written as an argument.
    pub open spec fn text(self) -> Seq<char> {
        match self {
            FilterView::Project(name) => project_text(name),
            FilterView::Other { name, value } => pair_text(name, value),
        }
    }
}

impl Filter {
    /// The filter as an argument: a project as `project:` and its name, any
    /// other as its name, a colon and its value.
    pub fn to_string(&self) -> (text: String)
        ensures
            text@ == self@.text(),
    {
        match self {
            Filter::Project(project) => project.to_string(),
            Filter::Other { name, value } => {
                let text = name.clone().concat(":").concat(value.as_str());
                text
            },
        }
    }

    /// Whether the filter names a project.
    pub fn is_project(&self) -> (b: bool)
        ensures
            b == (self@ is Project),
    {
        match self {
            Filter::Project(_) => true,
            Filter::Other { .. } => false,
        }
    }
}

/// An attribute with its value at `i`: a word, a colon and a word. The
/// result is the two words and the position behind them.
pub open spec fn pair_at(s: Seq<char>, i: int) -> Option<(Seq<char>, Seq<char>, int)> {
    match word_at(s, i) {
        Some(k) => if tag_at(s, k, ":"@) {
            match word_at(s, k + ":"@.len()) {
                Some(e) => Some((s.subrange(i, k), s.subrange(k + ":"@.len(), e), e)),
                None => None,
            }
        } else {
            None
        },
        None => None,
    }
}

/// A filter at `i`: a project argument where there is one, else an
/// attribute with its value.
pub open spec fn filter_at(s: Seq<char>, i: int) -> Option<(FilterView, int)> {
    match project_at(s, i) {
        Some((name, e)) => Some((FilterView::Project(name), e)),
        None => match pair_at(s, i) {
            Some((name, value, e)) => Some((FilterView::Other { name, value }, e)),
            None => None,
        },
    }
}

/// A filter at `i` followed by a gap: the filter and the start of what
/// comes next.
pub open spec fn filter_space_or_end_at(s: Seq<char>, i: int) -> Option<(FilterView, int)> {
    match filter_at(s, i) {
        Some((f, e)) => match gap_at(s, e) {
            Some(n) => Some((f, n)),
            None => None,
        },
        None => None,
    }
}

/// As many filters with their gaps as can be read from `i` on, and the
/// position where reading stopped.
pub open spec fn filters_at(s: Seq<char>, i: int) -> (Seq<FilterView>, int)
    decreases s.len() - i,
{
    match filter_space_or_end_at(s, i) {
        Some((f, n)) => if i < n <= s.len() {
            let (rest, stop) = filters_at(s, n);
            (seq![f] + rest, stop)
        } else {
            (Seq::empty(), i)
        },
        None => (Seq::empty(), i),
    }
}

/// A whole argument read as filters: all of it has to be filters.
pub open spec fn parse_filters(s: Seq<char>) -> Result<Seq<FilterView>, ParseError> {
    if filters_at(s, 0).1 == s.len() {
        Ok(filters_at(s, 0).0)
    } else {
        Err(ParseError::Filter)
    }
}

/// Reads an attribute with its value at `i`.
pub(crate) fn pair_from(s: &str, len: usize, i: usize) -> (r: Option<(String, String, usize)>)
    requires
        len == s@.len(),
        i <= len,
    ensures
        match r {
            Some((name, value, e)) => pair_at(s@, i as int) == Some((name@, value@, e as int)) && i
                < e <= len,
            None => pair_at(s@, i as int) is None,
        },
{
    let k = scan_word(s, len, i);
    if k == i {
        return None;
    }
    let start = match scan_tag(s, len, k, ":") {
        Some(start) => start,
        None => {
            return None;
        },
    };
    let e = scan_word(s, len, start);
    if e == start {
        return None;
    }
    Some((slice_string(s, i, k), slice_string(s, start, e), e))
}

/// Reads a filter at `i`.
pub(crate) fn filter_from(s: &str, len: usize, i: usize) -> (r: Option<(Filter, usize)>)
    requires
        len == s@.len(),
        i <= len,
    ensures
        match r {
            Some((f, e)) => filter_at(s@, i as int) == Some((f@, e as int)) && i < e <= len,
            None => filter_at(s@, i as int) is None,
        },
{
    match project_from(s, len, i) {
        Some((p, e)) => Some((Filter::Project(p), e)),
        None => match pair_from(s, len, i) {
            Some((name, value, e)) => Some((Filter::Other { name, value }, e)),
            None => None,
        },
    }
}

/// The filters of a command line, in the order in which they were given.
#[derive(Debug, Clone, PartialEq, Eq)]
pub struct Filters {
    filters: Vec<Filter>,
}

impl View for Filters {
    type V = Seq<FilterView>;

    closed spec fn view(&self) -> Seq<FilterView> {
        self.filters.deep_view()
    }
}

impl DeepView for Filter {
    type V = FilterView;

    open spec fn deep_view(&self) -> FilterView {
        self@
    }
}

impl Filters {
    /// The given filters, in their order.
    pub fn with_filters(filters: Vec<Filter>) -> (r: Filters)
        ensures
            r@ == filters.deep_view(),
    {
        Filters { filters }
    }

    /// The filters, in their order.
    pub fn filters(&self) -> (r: &[Filter])
        ensures
            r.deep_view() == self@,
    {
        let r = self.filters.as_slice();
        proof {
            assert(r.deep_view() =~= self.filters.deep_view());
        }
        r
    }

    /// No filters yet, with room for `capacity` of them where it is given.
    pub fn initial(capacity: Option<usize>) -> (r: Filters)
        ensures
            r@ == Seq::<FilterView>::empty(),
    {
        let filters: Vec<Filter> = match capacity {
            Some(c) => Vec::with_capacity(c),
            None => Vec::new(),
        };
        proof {
            assert(filters.deep_view() =~= Seq::<FilterView>::empty());
        }
        Filters { filters }
    }

    /// Adds one filter behind the others.
    pub fn accumulate(&mut self, acc: Filter)
        ensures
            final(self)@ == old(self)@.push(acc@),
    {
        self.filters.push(acc);
        proof {
            assert(self.filters.deep_view() =~= old(self).filters.deep_view().push(acc@));
        }
    }

    /// Reads a whole argument as filters.
    pub fn from_str(s: &str) -> (r: Result<Filters, ParseError>)
        ensures
            match r {
                Ok(f) => parse_filters(s@) == Ok::<Seq<FilterView>, ParseError>(f@),
                Err(e) => parse_filters(s@) == Err::<Seq<FilterView>, ParseError>(e),
            },
    {
        let len = s.unicode_len();
        let (filters, stop) = filters_from(s, len);
        if stop == len {
            Ok(filters)
        } else {
            Err(ParseError::Filter)
        }
    }
}

/// Reads filters from the start of `s` until one does not fit.
pub(crate) fn filters_from(s: &str, len: usize) -> (r: (Filters, usize))
    requires
        len == s@.len(),
    ensures
        r.0@ == filters_at(s@, 0).0,
        r.1 == filters_at(s@, 0).1,
        r.1 <= len,
{
    let mut found: Vec<Filter> = Vec::new();
    let mut pos: usize = 0;
    loop
        invariant
            len == s@.len(),
            pos <= len,
            filters_at(s@, 0).0 == found.deep_view() + filters_at(s@, pos as int).0,
            filters_at(s@, 0).1 == filters_at(s@, pos as int).1,
        ensures
            pos <= len,
            found.deep_view() == filters_at(s@, 0).0,
            pos == filters_at(s@, 0).1,
        decreases len - pos,
    {
        let (f, e) = match filter_from(s, len, pos) {
            Some(fe) => fe,
            None => {
                break ;
            },
        };
        let next = match scan_gap(s, len, e) {
            Some(n) => n,
            None => {
                break ;
            },
        };
        proof {
            let tail = filters_at(s@, next as int).0;
            assert(found.deep_view().push(f@) + tail == found.deep_view() + (seq![f@] + tail));
        }
        found.push(f);
        pos = next;
    }
    (Filters { filters: found }, pos)
}

/// All the filters at the start of `input`, each with the gap behind it,
/// and the input that is left: reading stops before the first argument that
/// is no filter or is not followed by a gap.
pub fn filters<'a>(input: &'a str) -> (r: (Filters, &'a str))
    ensures
        r.0@ == filters_at(input@, 0).0,
        r.1@ == input@.skip(filters_at(input@, 0).1),
{
    let len = input.unicode_len();
    let (found, stop) = filters_from(input, len);
    (found, input.substring_char(stop, len))
}

/// An attribute whose name and value are words, and whose name is not a
/// keyword of the project argument, is read back as it is written: as that
/// attribute and no project, with all of the argument taken.
pub proof fn lemma_pair_reads_back(name: Seq<char>, value: Seq<char>, rest: Seq<char>)
    requires
        is_word(name),
        is_word(value),
        name != "project"@,
        name != "proj"@,
        rest.len() == 0 || !is_word_char(rest[0]),
    ensures
        project_at(pair_text(name, value) + rest, 0) is None,
        pair_at(pair_text(name, value) + rest, 0) == Some(
            (name, value, pair_text(name, value).len() as int),
        ),
{
    let s = pair_text(name, value) + rest;
    reveal_strlit("project");
    reveal_strlit("proj");
    reveal_strlit(":");
    let n: int = name.len() as int;
    let e: int = n + 1 + value.len() as int;
    assert(s[n] == ':');
    assert forall|k: int| 0 <= k < n implies is_word_char(#[trigger] s[k]) by {
        assert(s[k] == name[k]);
    }
    lemma_word_end_is(s, 0, n);
    assert(s.subrange(0, n) =~= name);
    assert(s.subrange(n, n + 1) =~= ":"@);
    assert forall|k: int| n + 1 <= k < e implies is_word_char(#[trigger] s[k]) by {
        assert(s[k] == value[k - n - 1]);
    }
    if rest.len() > 0 {
        assert(s[e] == rest[0]);
    }
    lemma_word_end_is(s, n + 1, e);
    assert(s.subrange(n + 1, e) =~= value);
    if tag_at(s, 0, "project"@) {
        assert(s.subrange(0, 7) == "project"@);
        if n == 7 {
            assert(name =~= "project"@);
        } else if n > 7 {
            assert(s[7] == name[7]);
            assert(s.subrange(7, 8)[0] == s[7]);
        } else {
            assert(s.subrange(0, 7)[n] == s[n]);
        }
    } else if tag_at(s, 0, "proj"@) {
        assert(s.subrange(0, 4) == "proj"@);
        if n == 4 {
            assert(name =~= "proj"@);
        } else if n > 4 {
            assert(s[4] == name[4]);
            assert(s.subrange(4, 5)[0] == s[4]);
        } else {
            assert(s.subrange(0, 4)[n] == s[n]);
        }
    }
}

impl FilterView {
    /// Whether the filter is read back as it is written: its texts are
    /// words, and an attribute is not named like the project argument.
    pub open spec fn readable(self) -> bool {
        match self {
            FilterView::Project(name) => is_word(name),
            FilterView::Other { name, value } => {
                &&& is_word(name)
                &&& is_word(value)
                &&& name != "project"@
                &&& name != "proj"@
            },
        }
    }
}

/// What is written is read back: a readable filter, written as an argument
/// and followed by the end of the input or by anything that is no word
/// character, is read as that filter, and all of the argument is taken.
pub proof fn lemma_filter_reads_back(f: FilterView, rest: Seq<char>)
    requires
        f.readable(),
        rest.len() == 0 || !is_word_char(rest[0]),
    ensures
        filter_at(f.text() + rest, 0) == Some((f, f.text().len() as int)),
{
    match f {
        FilterView::Project(name) => {
            lemma_project_reads_back(name, rest);
        },
        FilterView::Other { name, value } => {
            lemma_pair_reads_back(name, value, rest);
        },
    }
}

} // verus!
