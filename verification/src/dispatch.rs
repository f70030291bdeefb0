//! From a command line to the arguments of the task program.
//!
//! The filters come first, then the name of the subcommand, then what
//! belongs to it. Where the command line names no project, one that was
//! found for the working directory is put in: in front for a report, at
//! the end for a change, behind the name for the project report.

use crate::args::Commands;
use crate::task_args::filter::{Filter, FilterView, Filters};
use crate::task_args::modifier::{Modifier, ModifierView};
use crate::task_args::project::{project_text, Project};
use vstd::prelude::*;

verus! {

/// Why a command line cannot be passed on.
#[derive(Debug, Clone, Copy, PartialEq, Eq, Structural)]
pub enum UsageError {
    /// The subcommand takes no filters, and there are some.
    FiltersNotAllowed,
    /// The project report was asked for together with a project filter.
    ProjectFilterWithProject,
}

/// Where a project that was found goes among the arguments.
#[derive(Debug, Clone, Copy, PartialEq, Eq, Structural)]
pub enum Index {
    /// Before the argument at this position.
    Index(usize),
    /// Behind all arguments.
    End,
}

/// The texts that a sequence of strings holds.
pub open spec fn texts(words: Seq<String>) -> Seq<Seq<char>> {
    words.map_values(|w: String| w@)
}

/// The filters as arguments.
pub open spec fn filter_texts(filters: Seq<FilterView>) -> Seq<Seq<char>> {
    filters.map_values(|f: FilterView| f.text())
}

/// The modifiers as arguments.
pub open spec fn modifier_texts(modifiers: Seq<ModifierView>) -> Seq<Seq<char>> {
    modifiers.map_values(|m: ModifierView| m.text())
}

/// Whether one of the filters names a project.
pub open spec fn names_project(filters: Seq<FilterView>) -> bool {
    exists|i: int| 0 <= i < filters.len() && #[trigger] filters[i] is Project
}

/// Whether one of the modifiers names a project.
pub open spec fn sets_project(modifiers: Seq<ModifierView>) -> bool {
    exists|i: int| 0 <= i < modifiers.len() && #[trigger] modifiers[i] is Project
}

/// The modifiers of a subcommand that changes tasks.
pub open spec fn mods_of(command: Commands) -> Option<Vec<Modifier>> {
    match command {
        Commands::Add { mods } => Some(mods),
        Commands::Start { mods } => Some(mods),
        Commands::Stop { mods } => Some(mods),
        Commands::Prepend { mods } => Some(mods),
        Commands::Modify { mods } => Some(mods),
        Commands::Log { mods } => Some(mods),
        Commands::Done { mods } => Some(mods),
        Commands::Duplicate { mods } => Some(mods),
        Commands::Append { mods } => Some(mods),
        Commands::Annotate { mods } => Some(mods),
        Commands::Delete { mods } => Some(mods),
        Commands::Rm { mods } => Some(mods),
        _ => None,
    }
}

/// The words of a subcommand that are passed on as they are.
pub open spec fn words_of(command: Commands) -> Option<Vec<String>> {
    match command {
        Commands::Calc { expression } => Some(expression),
        Commands::Calendar { extra_args } => Some(extra_args),
        Commands::Colors { extra_args } => Some(extra_args),
        Commands::Columns { extra_args } => Some(extra_args),
        Commands::Config { extra_args } => Some(extra_args),
        Commands::Context { extra_args } => Some(extra_args),
        Commands::Show { extra_args } => Some(extra_args),
        Commands::Synchronize { extra_args } => Some(extra_args),
        Commands::Denotate { extra_args } => Some(extra_args),
        Commands::Execute { cmd } => Some(cmd),
        Commands::Import { files } => Some(files),
        _ => None,
    }
}

/// Whether the subcommand is a report over tasks, which a project narrows.
pub open spec fn is_report(command: Commands) -> bool {
    match command {
        Commands::Blocked
        | Commands::Blocking
        | Commands::Completed
        | Commands::Count
        | Commands::Edit
        | Commands::Ids
        | Commands::Info
        | Commands::Information
        | Commands::Long
        | Commands::Ls
        | Commands::Minimal
        | Commands::Newest
        | Commands::Next
        | Commands::Oldest
        | Commands::Overdue
        | Commands::Projects
        | Commands::List
        | Commands::Purge
        | Commands::Recurring
        | Commands::Stats
        | Commands::Summary
        | Commands::Tags
        | Commands::Timesheet
        | Commands::Unblocked
        | Commands::Uuids
        | Commands::Waiting
        | Commands::Ready
        | Commands::Burndown { .. }
        | Commands::Ghistory { .. }
        | Commands::History { .. } => true,
        _ => false,
    }
}

/// Whether the subcommand takes no filters before it.
pub open spec fn forbids_filters(command: Commands) -> bool {
    match command {
        Commands::Add { .. }
        | Commands::Calc { .. }
        | Commands::Calendar { .. }
        | Commands::Colors { .. }
        | Commands::Columns { .. }
        | Commands::Config { .. }
        | Commands::Context { .. }
        | Commands::Show { .. }
        | Commands::Synchronize { .. }
        | Commands::Execute { .. }
        | Commands::TaskHelp { .. }
        | Commands::Import { .. }
        | Commands::Undo
        | Commands::Udas
        | Commands::Reports
        | Commands::Diagnostics
        | Commands::Commands
        | Commands::Logo
        | Commands::News => true,
        _ => false,
    }
}

/// The arguments behind the name of the subcommand.
pub open spec fn tail_of(command: Commands) -> Seq<Seq<char>> {
    match mods_of(command) {
        Some(mods) => modifier_texts(mods.deep_view()),
        None => match words_of(command) {
            Some(words) => texts(words@),
            None => match command {
                Commands::Export { report } => seq![report@],
                Commands::TaskHelp { usage } => if usage {
                    seq!["usage"@]
                } else {
                    Seq::empty()
                },
                _ => Seq::empty(),
            },
        },
    }
}

/// Where a project that was found for the working directory goes, if the
/// command line wants one: behind the modifiers of a change that sets no
/// project, in front of a report that is not filtered by a project, behind
/// the first argument of the project report.
pub open spec fn place_of(filters: Option<Seq<FilterView>>, command: Commands) -> Option<Index> {
    match mods_of(command) {
        Some(mods) => if sets_project(mods.deep_view()) {
            None
        } else {
            Some(Index::End)
        },
        None => if is_report(command) {
            if filters is Some && names_project(filters->Some_0) {
                None
            } else {
                Some(Index::Index(0))
            }
        } else if command is Project {
            Some(Index::Index(1))
        } else {
            None
        },
    }
}

/// The arguments of a command line before a project is put in, and the
/// place for one.
pub struct PlanView {
    pub args: Seq<Seq<char>>,
    pub place: Option<Index>,
}

/// The plan for a command line, or why it cannot be passed on.
///
/// Filters before a subcommand that takes none are refused, also where the
/// filters are empty; so is a project filter before the project report.
pub open spec fn planned(filters: Option<Seq<FilterView>>, command: Option<Commands>) -> Result<
    PlanView,
    UsageError,
> {
    let head = match filters {
        Some(fs) => filter_texts(fs),
        None => Seq::empty(),
    };
    match command {
        None => Ok(PlanView { args: head, place: None }),
        Some(c) => if forbids_filters(c) && filters is Some {
            Err(UsageError::FiltersNotAllowed)
        } else if c is Project && filters is Some && names_project(filters->Some_0) {
            Err(UsageError::ProjectFilterWithProject)
        } else {
            Ok(PlanView { args: head + seq![c.spec_name()] + tail_of(c), place: place_of(filters, c) })
        },
    }
}

impl PlanView {
    /// Whether the place for a project lies within the arguments.
    pub open spec fn wf(self) -> bool {
        self.place matches Some(Index::Index(i)) ==> i <= self.args.len()
    }

    /// The arguments with the project that was found put in its place.
    /// Without a place, or without a project, they stay as they are.
    pub open spec fn finished(self, found: Option<Seq<char>>) -> Seq<Seq<char>> {
        match (self.place, found) {
            (Some(Index::End), Some(name)) => self.args.push(project_text(name)),
            (Some(Index::Index(i)), Some(name)) => self.args.insert(i as int, project_text(name)),
            _ => self.args,
        }
    }
}

/// The arguments of a command line, waiting for the project of the working
/// directory where they want one.
#[derive(Debug)]
pub struct ArgPlan {
    args: Vec<String>,
    place: Option<Index>,
}

impl View for ArgPlan {
    type V = PlanView;

    closed spec fn view(&self) -> PlanView {
        PlanView { args: texts(self.args@), place: self.place }
    }
}

/// The texts of strings with one more behind them.
proof fn lemma_texts_push(words: Seq<String>, last: String)
    ensures
        texts(words.push(last)) == texts(words).push(last@),
{
    assert(texts(words.push(last)) =~= texts(words).push(last@));
}

/// Appends the filters as arguments.
fn push_filters(args: &mut Vec<String>, filters: &[Filter])
    ensures
        texts(final(args)@) == texts(old(args)@) + filter_texts(filters.deep_view()),
{
    let mut i: usize = 0;
    while i < filters.len()
        invariant
            i <= filters@.len(),
            texts(args@) == texts(old(args)@) + filter_texts(filters.deep_view()).take(i as int),
        decreases filters@.len() - i,
    {
        let text = filters[i].to_string();
        proof {
            lemma_texts_push(args@, text);
            assert(filters.deep_view()[i as int] == filters@[i as int]@);
            assert((texts(old(args)@) + filter_texts(filters.deep_view()).take(i as int)).push(
                text@,
            ) =~= texts(old(args)@) + filter_texts(filters.deep_view()).take(i + 1));
        }
        args.push(text);
        i = i + 1;
    }
    proof {
        assert(filter_texts(filters.deep_view()).take(filters@.len() as int) =~= filter_texts(
            filters.deep_view(),
        ));
    }
}

/// Appends the modifiers as arguments.
fn push_modifiers(args: &mut Vec<String>, mods: &Vec<Modifier>)
    ensures
        texts(final(args)@) == texts(old(args)@) + modifier_texts(mods.deep_view()),
{
    let mut i: usize = 0;
    while i < mods.len()
        invariant
            i <= mods@.len(),
            texts(args@) == texts(old(args)@) + modifier_texts(mods.deep_view()).take(i as int),
        decreases mods@.len() - i,
    {
        let text = mods[i].to_string();
        proof {
            lemma_texts_push(args@, text);
            assert(mods.deep_view()[i as int] == mods@[i as int]@);
            assert((texts(old(args)@) + modifier_texts(mods.deep_view()).take(i as int)).push(
                text@,
            ) =~= texts(old(args)@) + modifier_texts(mods.deep_view()).take(i + 1));
        }
        args.push(text);
        i = i + 1;
    }
    proof {
        assert(modifier_texts(mods.deep_view()).take(mods@.len() as int) =~= modifier_texts(
            mods.deep_view(),
        ));
    }
}

/// Appends the words as arguments.
fn push_words(args: &mut Vec<String>, words: &Vec<String>)
    ensures
        texts(final(args)@) == texts(old(args)@) + texts(words@),
{
    let mut i: usize = 0;
    while i < words.len()
        invariant
            i <= words@.len(),
            texts(args@) == texts(old(args)@) + texts(words@).take(i as int),
        decreases words@.len() - i,
    {
        let text = words[i].clone();
        proof {
            lemma_texts_push(args@, text);
            assert((texts(old(args)@) + texts(words@).take(i as int)).push(text@) =~= texts(
                old(args)@,
            ) + texts(words@).take(i + 1));
        }
        args.push(text);
        i = i + 1;
    }
    proof {
        assert(texts(words@).take(words@.len() as int) =~= texts(words@));
    }
}

/// Whether one of the filters names a project.
pub fn has_project_filter(filters: &[Filter]) -> (b: bool)
    ensures
        b == names_project(filters.deep_view()),
{
    let mut i: usize = 0;
    while i < filters.len()
        invariant
            i <= filters@.len(),
            forall|k: int| 0 <= k < i ==> !(#[trigger] filters.deep_view()[k] is Project),
        decreases filters@.len() - i,
    {
        if filters[i].is_project() {
            proof {
                assert(filters.deep_view()[i as int] == filters@[i as int]@);
            }
            return true;
        }
        proof {
            assert(filters.deep_view()[i as int] == filters@[i as int]@);
        }
        i = i + 1;
    }
    false
}

/// Whether one of the modifiers names a project.
pub fn has_project_modifier(mods: &Vec<Modifier>) -> (b: bool)
    ensures
        b == sets_project(mods.deep_view()),
{
    let mut i: usize = 0;
    while i < mods.len()
        invariant
            i <= mods@.len(),
            forall|k: int| 0 <= k < i ==> !(#[trigger] mods.deep_view()[k] is Project),
        decreases mods@.len() - i,
    {
        if mods[i].is_project() {
            proof {
                assert(mods.deep_view()[i as int] == mods@[i as int]@);
            }
            return true;
        }
        proof {
            assert(mods.deep_view()[i as int] == mods@[i as int]@);
        }
        i = i + 1;
    }
    false
}

/// The modifiers of a subcommand that changes tasks.
fn command_mods(command: &Commands) -> (r: Option<&Vec<Modifier>>)
    ensures
        match r {
            Some(mods) => mods_of(*command) == Some(*mods),
            None => mods_of(*command) is None,
        },
{
    match command {
        Commands::Add { mods } => Some(mods),
        Commands::Start { mods } => Some(mods),
        Commands::Stop { mods } => Some(mods),
        Commands::Prepend { mods } => Some(mods),
        Commands::Modify { mods } => Some(mods),
        Commands::Log { mods } => Some(mods),
        Commands::Done { mods } => Some(mods),
        Commands::Duplicate { mods } => Some(mods),
        Commands::Append { mods } => Some(mods),
        Commands::Annotate { mods } => Some(mods),
        Commands::Delete { mods } => Some(mods),
        Commands::Rm { mods } => Some(mods),
        _ => None,
    }
}

/// The words of a subcommand that are passed on as they are.
fn command_words(command: &Commands) -> (r: Option<&Vec<String>>)
    ensures
        match r {
            Some(words) => words_of(*command) == Some(*words),
            None => words_of(*command) is None,
        },
{
    match command {
        Commands::Calc { expression } => Some(expression),
        Commands::Calendar { extra_args } => Some(extra_args),
        Commands::Colors { extra_args } => Some(extra_args),
        Commands::Columns { extra_args } => Some(extra_args),
        Commands::Config { extra_args } => Some(extra_args),
        Commands::Context { extra_args } => Some(extra_args),
        Commands::Show { extra_args } => Some(extra_args),
        Commands::Synchronize { extra_args } => Some(extra_args),
        Commands::Denotate { extra_args } => Some(extra_args),
        Commands::Execute { cmd } => Some(cmd),
        Commands::Import { files } => Some(files),
        _ => None,
    }
}

/// Whether the subcommand is a report over tasks.
pub fn is_report_command(command: &Commands) -> (b: bool)
    ensures
        b == is_report(*command),
{
    match command {
        Commands::Blocked
        | Commands::Blocking
        | Commands::Completed
        | Commands::Count
        | Commands::Edit
        | Commands::Ids
        | Commands::Info
        | Commands::Information
        | Commands::Long
        | Commands::Ls
        | Commands::Minimal
        | Commands::Newest
        | Commands::Next
        | Commands::Oldest
        | Commands::Overdue
        | Commands::Projects
        | Commands::List
        | Commands::Purge
        | Commands::Recurring
        | Commands::Stats
        | Commands::Summary
        | Commands::Tags
        | Commands::Timesheet
        | Commands::Unblocked
        | Commands::Uuids
        | Commands::Waiting
        | Commands::Ready
        | Commands::Burndown { .. }
        | Commands::Ghistory { .. }
        | Commands::History { .. } => true,
        _ => false,
    }
}

/// Whether the subcommand takes no filters before it.
pub fn takes_no_filters(command: &Commands) -> (b: bool)
    ensures
        b == forbids_filters(*command),
{
    match command {
        Commands::Add { .. }
        | Commands::Calc { .. }
        | Commands::Calendar { .. }
        | Commands::Colors { .. }
        | Commands::Columns { .. }
        | Commands::Config { .. }
        | Commands::Context { .. }
        | Commands::Show { .. }
        | Commands::Synchronize { .. }
        | Commands::Execute { .. }
        | Commands::TaskHelp { .. }
        | Commands::Import { .. }
        | Commands::Undo
        | Commands::Udas
        | Commands::Reports
        | Commands::Diagnostics
        | Commands::Commands
        | Commands::Logo
        | Commands::News => true,
        _ => false,
    }
}

/// Refuses filters before a subcommand that takes none.
pub fn no_filter(command: &Commands, filters: &Option<Filters>) -> (r: Result<(), UsageError>)
    ensures
        r is Err <==> filters is Some,
        r is Err ==> r == Err::<(), UsageError>(UsageError::FiltersNotAllowed),
{
    if filters.is_some() {
        Err(UsageError::FiltersNotAllowed)
    } else {
        Ok(())
    }
}

/// Puts the project that was found among the arguments, unless the command
/// line named one itself or none was found.
pub fn set_project(
    project_provided: bool,
    args: &mut Vec<String>,
    index: Index,
    found: Option<&Project>,
)
    requires
        index matches Index::Index(i) ==> i <= old(args)@.len(),
    ensures
        texts(final(args)@) == if project_provided {
            texts(old(args)@)
        } else {
            (PlanView { args: texts(old(args)@), place: Some(index) }).finished(
                match found {
                    Some(p) => Some(p@),
                    None => None,
                },
            )
        },
{
    if !project_provided {
        if let Some(project) = found {
            let text = project.to_string();
            match index {
                Index::Index(i) => {
                    args.insert(i, text);
                    proof {
                        assert(texts(args@) =~= texts(old(args)@).insert(i as int, text@));
                    }
                },
                Index::End => {
                    proof {
                        lemma_texts_push(args@, text);
                    }
                    args.push(text);
                },
            }
        }
    }
}

/// The message for the user.
pub open spec fn usage_message(error: UsageError, subcommand: Seq<char>) -> Seq<char> {
    match error {
        UsageError::FiltersNotAllowed => "Subcommand '"@ + subcommand
            + "' does not allow preceding filters"@,
        UsageError::ProjectFilterWithProject =>
            "Usage error: project filter cannot be provided with 'project' subcommand"@,
    }
}

impl UsageError {
    /// The message for the user, which names the subcommand where the error
    /// is about it.
    pub fn message(&self, subcommand: &str) -> (text: String)
        ensures
            text@ == usage_message(*self, subcommand@),
    {
        match self {
            UsageError::FiltersNotAllowed => String::from_str("Subcommand '").concat(
                subcommand,
            ).concat("' does not allow preceding filters"),
            UsageError::ProjectFilterWithProject => String::from_str(
                "Usage error: project filter cannot be provided with 'project' subcommand",
            ),
        }
    }
}

/// The view of optional filters.
pub open spec fn filters_view(filters: Option<Filters>) -> Option<Seq<FilterView>> {
    match filters {
        Some(f) => Some(f@),
        None => None,
    }
}

/// Lays out the arguments for a command line: the filters, the name of the
/// subcommand, what belongs to it; and says whether, and where, the project
/// of the working directory is wanted.
pub fn plan_args(filters: &Option<Filters>, command: &Option<Commands>) -> (r: Result<
    ArgPlan,
    UsageError,
>)
    ensures
        match r {
            Ok(plan) => planned(filters_view(*filters), *command) == Ok::<PlanView, UsageError>(
                plan@,
            ),
            Err(e) => planned(filters_view(*filters), *command) == Err::<PlanView, UsageError>(e),
        },
{
    let mut args: Vec<String> = Vec::new();
    let mut project_filter_provided = false;
    if let Some(given) = filters {
        let list = given.filters();
        project_filter_provided = has_project_filter(list);
        push_filters(&mut args, list);
    }
    proof {
        assert(texts(Seq::<String>::empty()) =~= Seq::empty());
        if let Some(given) = filters {
            assert(Seq::<Seq<char>>::empty() + filter_texts(given@) =~= filter_texts(given@));
        }
    }
    let command = match command {
        Some(command) => command,
        None => {
            return Ok(ArgPlan { args, place: None });
        },
    };
    if takes_no_filters(command) {
        match no_filter(command, filters) {
            Ok(()) => {},
            Err(e) => {
                return Err(e);
            },
        }
    }
    let ghost head = texts(args@);
    let name = command.to_string();
    proof {
        lemma_texts_push(args@, name);
        assert(head.push(name@) =~= head + seq![command.spec_name()]);
    }
    args.push(name);
    let mut place: Option<Index> = None;
    if let Some(mods) = command_mods(command) {
        if !has_project_modifier(mods) {
            place = Some(Index::End);
        }
        push_modifiers(&mut args, mods);
    } else if let Some(words) = command_words(command) {
        push_words(&mut args, words);
    } else if is_report_command(command) {
        if !project_filter_provided {
            place = Some(Index::Index(0));
        }
        proof {
            assert(texts(args@) + Seq::<Seq<char>>::empty() =~= texts(args@));
        }
    } else {
        match command {
            Commands::Project => {
                if project_filter_provided {
                    return Err(UsageError::ProjectFilterWithProject);
                }
                place = Some(Index::Index(1));
                proof {
                    assert(texts(args@) + Seq::<Seq<char>>::empty() =~= texts(args@));
                }
            },
            Commands::Export { report } => {
                let text = report.clone();
                proof {
                    lemma_texts_push(args@, text);
                    assert(texts(args@).push(text@) =~= texts(args@) + seq![report@]);
                }
                args.push(text);
            },
            Commands::TaskHelp { usage } => {
                if *usage {
                    let text = String::from_str("usage");
                    proof {
                        lemma_texts_push(args@, text);
                        assert(texts(args@).push(text@) =~= texts(args@) + seq!["usage"@]);
                    }
                    args.push(text);
                } else {
                    proof {
                        assert(texts(args@) + Seq::<Seq<char>>::empty() =~= texts(args@));
                    }
                }
            },
            _ => {
                proof {
                    assert(texts(args@) + Seq::<Seq<char>>::empty() =~= texts(args@));
                }
            },
        }
    }
    Ok(ArgPlan { args, place })
}

impl ArgPlan {
    #[verifier::type_invariant]
    spec fn place_within(self) -> bool {
        self@.wf()
    }

    /// Where the project of the working directory goes, if one is wanted.
    /// Only then does it have to be looked for.
    pub fn place(&self) -> (place: Option<Index>)
        ensures
            place == self@.place,
    {
        self.place
    }

    /// The arguments for the task program, with the project that was found
    /// for the working directory put in where one is wanted.
    pub fn finish(self, found: Option<&Project>) -> (args: Vec<String>)
        ensures
            texts(args@) == self@.finished(
                match found {
                    Some(p) => Some(p@),
                    None => None,
                },
            ),
    {
        proof {
            use_type_invariant(&self);
        }
        let ArgPlan { args, place } = self;
        let mut args = args;
        match place {
            Some(index) => {
                set_project(false, &mut args, index, found);
            },
            None => {},
        }
        args
    }
}

} // verus!
