//! The project an argument names.

use super::{
    is_word, is_word_char, lemma_word_end_is, scan_tag, scan_word, slice_string, tag_at, word_at,
};
use vstd::prelude::*;

verus! {

/// A project, known by its name.
#[derive(Debug, Clone, PartialEq, Eq)]
pub struct Project {
    name: String,
}

impl View for Project {
    type V = Seq<char>;

    /// A project is its name.
    closed spec fn view(&self) -> Seq<char> {
        self.name@
    }
}

/// How a project with the given name is written as an argument.
pub open spec fn project_text(name: Seq<char>) -> Seq<char> {
    "project:"@ + name
}

impl Project {
    /// The project with the given name.
    pub fn with_name(name: &str) -> (p: Project)
        ensures
            p@ == name@,
    {
        Project { name: String::from_str(name) }
    }

    /// The name of the project.
    pub fn name(&self) -> (name: &String)
        ensures
            name@ == self@,
    {
        &self.name
    }

    /// The project as an argument: `project:` and the name.
    pub fn to_string(&self) -> (text: String)
        ensures
            text@ == project_text(self@),
    {
        String::from_str("project:").concat(self.name.as_str())
    }
}

/// The position behind the keyword of a project argument at `i`: `project`
/// is tried first, then `proj`.
pub open spec fn project_keyword_at(s: Seq<char>, i: int) -> Option<int> {
    if tag_at(s, i, "project"@) {
        Some(i + "project"@.len())
    } else if tag_at(s, i, "proj"@) {
        Some(i + "proj"@.len())
    } else {
        None
    }
}

/// A project argument at `i`: the keyword, a colon and a word, which is the
/// name. The result is the name and the position behind it.
pub open spec fn project_at(s: Seq<char>, i: int) -> Option<(Seq<char>, int)> {
    match project_keyword_at(s, i) {
        Some(k) => if tag_at(s, k, ":"@) {
            match word_at(s, k + ":"@.len()) {
                Some(e) => Some((s.subrange(k + ":"@.len(), e), e)),
                None => None,
            }
        } else {
            None
        },
        None => None,
    }
}

/// Reads a project argument at `i`.
pub(crate) fn project_from(s: &str, len: usize, i: usize) -> (r: Option<(Project, usize)>)
    requires
        len == s@.len(),
        i <= len,
    ensures
        match r {
            Some((p, e)) => project_at(s@, i as int) == Some((p@, e as int)) && i < e <= len,
            None => project_at(s@, i as int) is None,
        },
{
    let k = match scan_tag(s, len, i, "project") {
        Some(k) => k,
        None => match scan_tag(s, len, i, "proj") {
            Some(k) => k,
            None => {
                return None;
            },
        },
    };
    let start = match scan_tag(s, len, k, ":") {
        Some(start) => start,
        None => {
            return None;
        },
    };
    let e = scan_word(s, len, start);
    if e == start {
        return None;
    }
    Some((Project { name: slice_string(s, start, e) }, e))
}

/// A project argument at the start of `input`: the project and the input
/// behind it.
pub fn project<'a>(input: &'a str) -> (r: Option<(Project, &'a str)>)
    ensures
        match r {
            Some((p, rest)) => match project_at(input@, 0) {
                Some((name, e)) => p@ == name && rest@ == input@.skip(e),
                None => false,
            },
            None => project_at(input@, 0) is None,
        },
{
    let len = input.unicode_len();
    match project_from(input, len, 0) {
        Some((p, e)) => Some((p, input.substring_char(e, len))),
        None => None,
    }
}

/// What is written is read back: a project whose name is a word, written as
/// an argument and followed by the end of the input or by anything that is
/// no word character, is read as that project, and all of the argument is
/// taken.
pub proof fn lemma_project_reads_back(name: Seq<char>, rest: Seq<char>)
    requires
        is_word(name),
        rest.len() == 0 || !is_word_char(rest[0]),
    ensures
        project_at(project_text(name) + rest, 0) == Some(
            (name, project_text(name).len() as int),
        ),
{
    let s = project_text(name) + rest;
    reveal_strlit("project:");
    reveal_strlit("project");
    reveal_strlit(":");
    assert(s.subrange(0, 7) =~= "project"@);
    assert(s.subrange(7, 8) =~= ":"@);
    let e: int = 8 + name.len() as int;
    assert forall|k: int| 8 <= k < e implies is_word_char(#[trigger] s[k]) by {
        assert(s[k] == name[k - 8]);
    }
    if rest.len() > 0 {
        assert(s[e] == rest[0]);
    }
    lemma_word_end_is(s, 8, e);
    assert(s.subrange(8, e) =~= name);
}

} // verus!
