//! The command line: filters, then a subcommand with what belongs to it.

use crate::task_args::burndown::Burndown;
use crate::task_args::filter::Filters;
use crate::task_args::history::History;
use crate::task_args::modifier::Modifier;
use vstd::prelude::*;

verus! {

/// A command line as it was given.
#[derive(Debug)]
pub struct Cli {
    /// Whether the version is asked for.
    pub version: bool,
    /// The filters before the subcommand.
    pub filter: Option<Filters>,
    /// The subcommand.
    pub command: Option<Commands>,
}

/// The subcommands, each with the arguments that belong to it.
#[derive(Debug, Clone)]
pub enum Commands {
    Add {
        /// The modifiers to apply.
        mods: Vec<Modifier>,
    },
    All,
    Project,
    Annotate {
        /// The modifiers to apply.
        mods: Vec<Modifier>,
    },
    Append {
        /// The modifiers to apply.
        mods: Vec<Modifier>,
    },
    Blocked,
    Blocking,
    Burndown {
        /// The period of the chart.
        burndown: Burndown,
    },
    Calc {
        /// The words of the expression to calculate.
        expression: Vec<String>,
    },
    Calendar {
        /// Further arguments, passed on as they are.
        extra_args: Vec<String>,
    },
    Colors {
        /// Further arguments, passed on as they are.
        extra_args: Vec<String>,
    },
    Columns {
        /// Further arguments, passed on as they are.
        extra_args: Vec<String>,
    },
    Commands,
    Completed,
    Config {
        /// Further arguments, passed on as they are.
        extra_args: Vec<String>,
    },
    Context {
        /// Further arguments, passed on as they are.
        extra_args: Vec<String>,
    },
    Count,
    Delete {
        /// The modifiers to apply.
        mods: Vec<Modifier>,
    },
    Denotate {
        /// Further arguments, passed on as they are.
        extra_args: Vec<String>,
    },
    Diagnostics,
    Done {
        /// The modifiers to apply.
        mods: Vec<Modifier>,
    },
    Duplicate {
        /// The modifiers to apply.
        mods: Vec<Modifier>,
    },
    Edit,
    Execute {
        /// The command to execute and its arguments.
        cmd: Vec<String>,
    },
    Export {
        /// The report to write.
        report: String,
    },
    Ghistory {
        /// The period of the report.
        history: History,
    },
    TaskHelp {
        /// Whether only the usage section is shown.
        usage: bool,
    },
    History {
        /// The period of the report.
        history: History,
    },
    Ids,
    Import {
        /// The files to import.
        files: Vec<String>,
    },
    Information,
    Info,
    List,
    Log {
        /// The modifiers to apply.
        mods: Vec<Modifier>,
    },
    Logo,
    Long,
    Ls,
    Minimal,
    Modify {
        /// The modifiers to apply.
        mods: Vec<Modifier>,
    },
    Newest,
    News,
    Next,
    Oldest,
    Overdue,
    Prepend {
        /// The modifiers to apply.
        mods: Vec<Modifier>,
    },
    Projects,
    Purge,
    Ready,
    Recurring,
    Reports,
    Show {
        /// Further arguments, passed on as they are.
        extra_args: Vec<String>,
    },
    Start {
        /// The modifiers to apply.
        mods: Vec<Modifier>,
    },
    Stats,
    Stop {
        /// The modifiers to apply.
        mods: Vec<Modifier>,
    },
    Summary,
    Synchronize {
        /// Further arguments, passed on as they are.
        extra_args: Vec<String>,
    },
    Tags,
    Timesheet,
    Udas,
    Unblocked,
    Undo,
    Uuids,
    Waiting,
    Rm {
        /// The modifiers to apply.
        mods: Vec<Modifier>,
    },
}

impl Commands {
    /// The name under which the task program knows the subcommand. A chart
    /// or a history report is named with its period behind a dot; the two
    /// spellings of the information report share one name.
    pub open spec fn spec_name(self) -> Seq<char> {
        match self {
            Commands::Add { .. } => "add"@,
            Commands::All => "all"@,
            Commands::Project => "project"@,
            Commands::Annotate { .. } => "annotate"@,
            Commands::Append { .. } => "append"@,
            Commands::Blocked => "blocked"@,
            Commands::Blocking => "blocking"@,
            Commands::Burndown { burndown } => match burndown {
                Burndown::Daily => "burndown.daily"@,
                Burndown::Monthly => "burndown.monthly"@,
                Burndown::Weekly => "burndown.weekly"@,
            },
            Commands::Calc { .. } => "calc"@,
            Commands::Calendar { .. } => "calendar"@,
            Commands::Colors { .. } => "colors"@,
            Commands::Columns { .. } => "columns"@,
            Commands::Commands => "commands"@,
            Commands::Completed => "completed"@,
            Commands::Config { .. } => "config"@,
            Commands::Context { .. } => "context"@,
            Commands::Count => "count"@,
            Commands::Delete { .. } => "delete"@,
            Commands::Denotate { .. } => "denotate"@,
            Commands::Diagnostics => "diagnostics"@,
            Commands::Done { .. } => "done"@,
            Commands::Duplicate { .. } => "duplicate"@,
            Commands::Edit => "edit"@,
            Commands::Execute { .. } => "execute"@,
            Commands::Export { .. } => "export"@,
            Commands::Ghistory { history } => match history {
                History::Annual => "ghistory.annual"@,
                History::Daily => "ghistory.daily"@,
                History::Monthly => "ghistory.monthly"@,
                History::Weekly => "ghistory.weekly"@,
            },
            Commands::TaskHelp { .. } => "help"@,
            Commands::History { history } => match history {
                History::Annual => "history.annual"@,
                History::Daily => "history.daily"@,
                History::Monthly => "history.monthly"@,
                History::Weekly => "history.weekly"@,
            },
            Commands::Ids => "ids"@,
            Commands::Import { .. } => "import"@,
            Commands::Information => "information"@,
            Commands::Info => "information"@,
            Commands::List => "list"@,
            Commands::Log { .. } => "log"@,
            Commands::Logo => "logo"@,
            Commands::Long => "long"@,
            Commands::Ls => "ls"@,
            Commands::Minimal => "minimal"@,
            Commands::Modify { .. } => "modify"@,
            Commands::Newest => "newest"@,
            Commands::News => "news"@,
            Commands::Next => "next"@,
            Commands::Oldest => "oldest"@,
            Commands::Overdue => "overdue"@,
            Commands::Prepend { .. } => "prepend"@,
            Commands::Projects => "projects"@,
            Commands::Purge => "purge"@,
            Commands::Ready => "ready"@,
            Commands::Recurring => "recurring"@,
            Commands::Reports => "reports"@,
            Commands::Show { .. } => "show"@,
            Commands::Start { .. } => "start"@,
            Commands::Stats => "stats"@,
            Commands::Stop { .. } => "stop"@,
            Commands::Summary => "summary"@,
            Commands::Synchronize { .. } => "synchronize"@,
            Commands::Tags => "tags"@,
            Commands::Timesheet => "timesheet"@,
            Commands::Udas => "udas"@,
            Commands::Unblocked => "unblocked"@,
            Commands::Undo => "undo"@,
            Commands::Uuids => "uuids"@,
            Commands::Waiting => "waiting"@,
            Commands::Rm { .. } => "rm"@,
        }
    }

    /// The name under which the task program knows the subcommand.
    pub fn name(&self) -> (name: &'static str)
        ensures
            name@ == self.spec_name(),
    {
        match self {
            Commands::Add { .. } => "add",
            Commands::All => "all",
            Commands::Project => "project",
            Commands::Annotate { .. } => "annotate",
            Commands::Append { .. } => "append",
            Commands::Blocked => "blocked",
            Commands::Blocking => "blocking",
            Commands::Burndown { burndown } => match burndown {
                Burndown::Daily => "burndown.daily",
                Burndown::Monthly => "burndown.monthly",
                Burndown::Weekly => "burndown.weekly",
            },
            Commands::Calc { .. } => "calc",
            Commands::Calendar { .. } => "calendar",
            Commands::Colors { .. } => "colors",
            Commands::Columns { .. } => "columns",
            Commands::Commands => "commands",
            Commands::Completed => "completed",
            Commands::Config { .. } => "config",
            Commands::Context { .. } => "context",
            Commands::Count => "count",
            Commands::Delete { .. } => "delete",
            Commands::Denotate { .. } => "denotate",
            Commands::Diagnostics => "diagnostics",
            Commands::Done { .. } => "done",
            Commands::Duplicate { .. } => "duplicate",
            Commands::Edit => "edit",
            Commands::Execute { .. } => "execute",
            Commands::Export { .. } => "export",
            Commands::Ghistory { history } => match history {
                History::Annual => "ghistory.annual",
                History::Daily => "ghistory.daily",
                History::Monthly => "ghistory.monthly",
                History::Weekly => "ghistory.weekly",
            },
            Commands::TaskHelp { .. } => "help",
            Commands::History { history } => match history {
                History::Annual => "history.annual",
                History::Daily => "history.daily",
                History::Monthly => "history.monthly",
                History::Weekly => "history.weekly",
            },
            Commands::Ids => "ids",
            Commands::Import { .. } => "import",
            Commands::Information => "information",
            Commands::Info => "information",
            Commands::List => "list",
            Commands::Log { .. } => "log",
            Commands::Logo => "logo",
            Commands::Long => "long",
            Commands::Ls => "ls",
            Commands::Minimal => "minimal",
            Commands::Modify { .. } => "modify",
            Commands::Newest => "newest",
            Commands::News => "news",
            Commands::Next => "next",
            Commands::Oldest => "oldest",
            Commands::Overdue => "overdue",
            Commands::Prepend { .. } => "prepend",
            Commands::Projects => "projects",
            Commands::Purge => "purge",
            Commands::Ready => "ready",
            Commands::Recurring => "recurring",
            Commands::Reports => "reports",
            Commands::Show { .. } => "show",
            Commands::Start { .. } => "start",
            Commands::Stats => "stats",
            Commands::Stop { .. } => "stop",
            Commands::Summary => "summary",
            Commands::Synchronize { .. } => "synchronize",
            Commands::Tags => "tags",
            Commands::Timesheet => "timesheet",
            Commands::Udas => "udas",
            Commands::Unblocked => "unblocked",
            Commands::Undo => "undo",
            Commands::Uuids => "uuids",
            Commands::Waiting => "waiting",
            Commands::Rm { .. } => "rm",
        }
    }

    /// The name of the subcommand as a string of its own.
    pub fn to_string(&self) -> (text: String)
        ensures
            text@ == self.spec_name(),
    {
        String::from_str(self.name())
    }
}

} // verus!
