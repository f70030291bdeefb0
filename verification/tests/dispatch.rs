use taskwrap::args::Commands;
use taskwrap::dispatch::{
    has_project_filter, has_project_modifier, is_report_command, no_filter, plan_args,
    set_project, takes_no_filters, Index, UsageError,
};
use taskwrap::task_args::burndown::Burndown;
use taskwrap::task_args::filter::Filters;
use taskwrap::task_args::history::History;
use taskwrap::task_args::modifier::{Modifier, Modifiers};
use taskwrap::task_args::project::Project;

fn filters(text: &str) -> Option<Filters> {
    Some(Filters::from_str(text).unwrap())
}

fn mods(text: &str) -> Vec<Modifier> {
    Modifiers::from_str(text).unwrap().modifiers().to_vec()
}

fn words(list: &[&str]) -> Vec<String> {
    list.iter().map(|w| String::from(*w)).collect()
}

fn args(
    filters: Option<Filters>,
    command: Option<Commands>,
    found: Option<&str>,
) -> Result<Vec<String>, UsageError> {
    let found = found.map(Project::with_name);
    plan_args(&filters, &command).map(|plan| plan.finish(found.as_ref()))
}

#[test]
fn subcommand_names() {
    assert_eq!("add", Commands::Add { mods: vec![] }.name());
    assert_eq!("help", Commands::TaskHelp { usage: true }.name());
    assert_eq!("information", Commands::Info.name());
    assert_eq!("information", Commands::Information.name());
    assert_eq!("burndown.daily", Commands::Burndown { burndown: Burndown::Daily }.name());
    assert_eq!("burndown.monthly", Commands::Burndown { burndown: Burndown::Monthly }.name());
    assert_eq!("burndown.weekly", Commands::Burndown { burndown: Burndown::Weekly }.name());
    assert_eq!("ghistory.annual", Commands::Ghistory { history: History::Annual }.name());
    assert_eq!("ghistory.daily", Commands::Ghistory { history: History::Daily }.name());
    assert_eq!("history.monthly", Commands::History { history: History::Monthly }.name());
    assert_eq!("history.weekly", Commands::History { history: History::Weekly }.name());
    assert_eq!("rm", Commands::Rm { mods: vec![] }.to_string());
    assert_eq!("synchronize", Commands::Synchronize { extra_args: vec![] }.to_string());
    assert_eq!("commands", Commands::Commands.name());
    assert_eq!("project", Commands::Project.name());
    assert_eq!("export", Commands::Export { report: String::from("x") }.name());
}

#[test]
fn every_plain_subcommand_is_named_in_lower_case() {
    let plain = [
        (Commands::All, "all"),
        (Commands::Blocked, "blocked"),
        (Commands::Blocking, "blocking"),
        (Commands::Completed, "completed"),
        (Commands::Count, "count"),
        (Commands::Diagnostics, "diagnostics"),
        (Commands::Edit, "edit"),
        (Commands::Ids, "ids"),
        (Commands::List, "list"),
        (Commands::Logo, "logo"),
        (Commands::Long, "long"),
        (Commands::Ls, "ls"),
        (Commands::Minimal, "minimal"),
        (Commands::Newest, "newest"),
        (Commands::News, "news"),
        (Commands::Next, "next"),
        (Commands::Oldest, "oldest"),
        (Commands::Overdue, "overdue"),
        (Commands::Projects, "projects"),
        (Commands::Purge, "purge"),
        (Commands::Ready, "ready"),
        (Commands::Recurring, "recurring"),
        (Commands::Reports, "reports"),
        (Commands::Stats, "stats"),
        (Commands::Summary, "summary"),
        (Commands::Tags, "tags"),
        (Commands::Timesheet, "timesheet"),
        (Commands::Udas, "udas"),
        (Commands::Unblocked, "unblocked"),
        (Commands::Undo, "undo"),
        (Commands::Uuids, "uuids"),
        (Commands::Waiting, "waiting"),
    ];
    for (command, name) in plain {
        assert_eq!(name, command.name());
    }
    let with_mods = [
        (Commands::Annotate { mods: vec![] }, "annotate"),
        (Commands::Append { mods: vec![] }, "append"),
        (Commands::Delete { mods: vec![] }, "delete"),
        (Commands::Done { mods: vec![] }, "done"),
        (Commands::Duplicate { mods: vec![] }, "duplicate"),
        (Commands::Log { mods: vec![] }, "log"),
        (Commands::Modify { mods: vec![] }, "modify"),
        (Commands::Prepend { mods: vec![] }, "prepend"),
        (Commands::Start { mods: vec![] }, "start"),
        (Commands::Stop { mods: vec![] }, "stop"),
    ];
    for (command, name) in with_mods {
        assert_eq!(name, command.name());
    }
    let with_words = [
        (Commands::Calc { expression: vec![] }, "calc"),
        (Commands::Calendar { extra_args: vec![] }, "calendar"),
        (Commands::Colors { extra_args: vec![] }, "colors"),
        (Commands::Columns { extra_args: vec![] }, "columns"),
        (Commands::Config { extra_args: vec![] }, "config"),
        (Commands::Context { extra_args: vec![] }, "context"),
        (Commands::Denotate { extra_args: vec![] }, "denotate"),
        (Commands::Execute { cmd: vec![] }, "execute"),
        (Commands::Import { files: vec![] }, "import"),
        (Commands::Show { extra_args: vec![] }, "show"),
    ];
    for (command, name) in with_words {
        assert_eq!(name, command.name());
    }
}

#[test]
fn no_subcommand_passes_the_filters_on() {
    assert_eq!(Ok(words(&[])), args(None, None, Some("found")));
    assert_eq!(Ok(words(&["project:p", "a:b"])), args(filters("proj:p a:b"), None, Some("found")));
}

#[test]
fn a_change_gets_the_project_at_the_end() {
    let add = Commands::Add { mods: mods("water the plants due:today") };
    assert_eq!(
        Ok(words(&["add", "water", "the", "plants", "due:today", "project:garden"])),
        args(None, Some(add.clone()), Some("garden"))
    );
    assert_eq!(
        Ok(words(&["add", "water", "the", "plants", "due:today"])),
        args(None, Some(add), None)
    );
    let modify = Commands::Modify { mods: mods("pri:H") };
    assert_eq!(
        Ok(words(&["modify", "pri:H", "project:garden"])),
        args(filters(""), Some(modify.clone()), Some("garden"))
    );
    assert_eq!(
        Ok(words(&["a:b", "modify", "pri:H", "project:garden"])),
        args(filters("a:b"), Some(modify), Some("garden"))
    );
    let plan = plan_args(&None, &Some(Commands::Rm { mods: vec![] })).unwrap();
    assert_eq!(Some(Index::End), plan.place());
    assert_eq!(words(&["rm", "project:p"]), plan.finish(Some(&Project::with_name("p"))));
}

#[test]
fn a_change_that_sets_a_project_keeps_it() {
    let add = Commands::Add { mods: mods("water proj:home plants") };
    assert_eq!(
        Ok(words(&["add", "water", "project:home", "plants"])),
        args(None, Some(add), Some("garden"))
    );
    let plan = plan_args(&None, &Some(Commands::Done { mods: mods("project:x") })).unwrap();
    assert_eq!(None, plan.place());
}

#[test]
fn a_report_gets_the_project_in_front() {
    assert_eq!(
        Ok(words(&["project:garden", "list"])),
        args(None, Some(Commands::List), Some("garden"))
    );
    assert_eq!(
        Ok(words(&["project:garden", "a:b", "next"])),
        args(filters("a:b"), Some(Commands::Next), Some("garden"))
    );
    assert_eq!(
        Ok(words(&["project:garden", "burndown.weekly"])),
        args(None, Some(Commands::Burndown { burndown: Burndown::Weekly }), Some("garden"))
    );
    assert_eq!(Ok(words(&["list"])), args(None, Some(Commands::List), None));
    let plan = plan_args(&None, &Some(Commands::List)).unwrap();
    assert_eq!(Some(Index::Index(0)), plan.place());
}

#[test]
fn a_report_that_is_filtered_by_a_project_keeps_it() {
    assert_eq!(
        Ok(words(&["a:b", "project:home", "list"])),
        args(filters("a:b proj:home"), Some(Commands::List), Some("garden"))
    );
}

#[test]
fn the_project_report_gets_the_project_behind_the_first_argument() {
    assert_eq!(
        Ok(words(&["project", "project:garden"])),
        args(None, Some(Commands::Project), Some("garden"))
    );
    assert_eq!(
        Ok(words(&["a:b", "project:garden", "c:d", "project"])),
        args(filters("a:b c:d"), Some(Commands::Project), Some("garden"))
    );
    assert_eq!(Ok(words(&["project"])), args(None, Some(Commands::Project), None));
    assert_eq!(
        Err(UsageError::ProjectFilterWithProject),
        args(filters("project:x"), Some(Commands::Project), Some("garden"))
    );
}

#[test]
fn all_is_passed_on_as_it_is() {
    assert_eq!(Ok(words(&["all"])), args(None, Some(Commands::All), Some("garden")));
    assert_eq!(Ok(words(&["a:b", "all"])), args(filters("a:b"), Some(Commands::All), Some("garden")));
}

#[test]
fn words_are_passed_on_as_they_are() {
    assert_eq!(
        Ok(words(&["calc", "1", "+", "2"])),
        args(None, Some(Commands::Calc { expression: words(&["1", "+", "2"]) }), Some("garden"))
    );
    assert_eq!(
        Ok(words(&["a:b", "denotate", "note"])),
        args(filters("a:b"), Some(Commands::Denotate { extra_args: words(&["note"]) }), Some("g"))
    );
    assert_eq!(
        Ok(words(&["import", "one.json", "two.json"])),
        args(None, Some(Commands::Import { files: words(&["one.json", "two.json"]) }), None)
    );
    assert_eq!(
        Ok(words(&["a:b", "export", "next"])),
        args(filters("a:b"), Some(Commands::Export { report: String::from("next") }), Some("g"))
    );
    assert_eq!(
        Ok(words(&["help", "usage"])),
        args(None, Some(Commands::TaskHelp { usage: true }), Some("g"))
    );
    assert_eq!(Ok(words(&["help"])), args(None, Some(Commands::TaskHelp { usage: false }), None));
}

#[test]
fn filters_before_a_subcommand_that_takes_none_are_refused() {
    let refusing = vec![
        Commands::Add { mods: vec![] },
        Commands::Calc { expression: vec![] },
        Commands::Calendar { extra_args: vec![] },
        Commands::Colors { extra_args: vec![] },
        Commands::Columns { extra_args: vec![] },
        Commands::Config { extra_args: vec![] },
        Commands::Context { extra_args: vec![] },
        Commands::Show { extra_args: vec![] },
        Commands::Synchronize { extra_args: vec![] },
        Commands::Execute { cmd: vec![] },
        Commands::TaskHelp { usage: false },
        Commands::Import { files: vec![] },
        Commands::Undo,
        Commands::Udas,
        Commands::Reports,
        Commands::Diagnostics,
        Commands::Commands,
        Commands::Logo,
        Commands::News,
    ];
    for command in refusing {
        assert!(takes_no_filters(&command));
        assert!(!is_report_command(&command));
        assert_eq!(
            Err(UsageError::FiltersNotAllowed),
            args(filters("a:b"), Some(command.clone()), None)
        );
        assert_eq!(Err(UsageError::FiltersNotAllowed), args(filters(""), Some(command.clone()), None));
        assert!(args(None, Some(command), None).is_ok());
    }
    assert!(!takes_no_filters(&Commands::List));
    assert!(!takes_no_filters(&Commands::Modify { mods: vec![] }));
    assert!(!takes_no_filters(&Commands::Denotate { extra_args: vec![] }));
    assert!(!takes_no_filters(&Commands::Export { report: String::new() }));
    assert!(is_report_command(&Commands::Edit));
    assert!(is_report_command(&Commands::History { history: History::Daily }));
    assert!(!is_report_command(&Commands::All));
    assert!(!is_report_command(&Commands::Project));
}

#[test]
fn no_filter_looks_at_the_filters_only() {
    assert_eq!(Ok(()), no_filter(&Commands::Undo, &None));
    assert_eq!(Err(UsageError::FiltersNotAllowed), no_filter(&Commands::Undo, &filters("")));
    assert_eq!(Err(UsageError::FiltersNotAllowed), no_filter(&Commands::List, &filters("a:b")));
}

#[test]
fn set_project_puts_the_project_in_its_place() {
    let found = Project::with_name("p");
    let mut list = words(&["a", "b"]);
    set_project(false, &mut list, Index::End, Some(&found));
    assert_eq!(words(&["a", "b", "project:p"]), list);
    let mut list = words(&["a", "b"]);
    set_project(false, &mut list, Index::Index(0), Some(&found));
    assert_eq!(words(&["project:p", "a", "b"]), list);
    let mut list = words(&["a", "b"]);
    set_project(false, &mut list, Index::Index(2), Some(&found));
    assert_eq!(words(&["a", "b", "project:p"]), list);
    let mut list = words(&["a", "b"]);
    set_project(true, &mut list, Index::Index(1), Some(&found));
    assert_eq!(words(&["a", "b"]), list);
    set_project(false, &mut list, Index::Index(1), None);
    assert_eq!(words(&["a", "b"]), list);
}

#[test]
fn projects_are_found_among_filters_and_modifiers() {
    assert!(has_project_filter(Filters::from_str("a:b proj:x").unwrap().filters()));
    assert!(!has_project_filter(Filters::from_str("a:b projects:x").unwrap().filters()));
    assert!(!has_project_filter(&[]));
    assert!(has_project_modifier(&mods("word project:x")));
    assert!(!has_project_modifier(&mods("word project a:b")));
    assert!(!has_project_modifier(&vec![]));
}

#[test]
fn usage_messages() {
    assert_eq!(
        "Subcommand 'add' does not allow preceding filters",
        UsageError::FiltersNotAllowed.message("add")
    );
    assert_eq!(
        "Usage error: project filter cannot be provided with 'project' subcommand",
        UsageError::ProjectFilterWithProject.message("project")
    );
}
