//! The commands of the profiler and what each of them asks for.

use crate::types::str_equal;
use vstd::prelude::*;

verus! {

/// A command of the profiler.
#[derive(Clone, Debug, PartialEq, Eq)]
pub enum ProfileCommand {
    /// Profile memory usage of a program; `format` is `json` or `text`.
    Memory { program: String, format: String },
    /// Profile the function calls of a program.
    Calls { program: String, iterations: usize },
    /// Show profiling statistics from a file.
    Stats { file: Option<String> },
}

/// The parsed command line of the profiler.
#[derive(Clone, Debug)]
pub struct ProfilerCli {
    command: ProfileCommand,
}

/// How a memory report is written.
#[derive(Clone, Copy, Debug, PartialEq, Eq, Structural)]
pub enum ReportFormat {
    Json,
    Text,
}

/// What the profiler is to do.
#[derive(Clone, Debug, PartialEq, Eq)]
pub enum ProfileAction {
    /// Run the program under the memory profiler and report in `format`.
    ProfileMemory { program: String, format: ReportFormat },
    /// Report the call statistics of the program.
    ProfileCalls { program: String, iterations: usize },
    /// Read the statistics file and show it.
    ShowStats { file: String },
    /// Say that no statistics file was given.
    ExplainStats,
}

/// The most leaks that a memory report lists.
pub const MAX_LISTED_LEAKS: usize = 10;

/// The width of the rule under the header of a call report.
pub const CALL_REPORT_WIDTH: usize = 90;

/// The format that a name stands for: `json` is JSON, anything else text.
pub open spec fn spec_report_format(name: Seq<char>) -> ReportFormat {
    if name == "json"@ {
        ReportFormat::Json
    } else {
        ReportFormat::Text
    }
}

/// What a command asks for.
pub open spec fn spec_action(command: ProfileCommand) -> ProfileAction {
    match command {
        ProfileCommand::Memory { program, format } => ProfileAction::ProfileMemory {
            program,
            format: spec_report_format(format@),
        },
        ProfileCommand::Calls { program, iterations } => ProfileAction::ProfileCalls { program, iterations },
        ProfileCommand::Stats { file } => match file {
            Some(file) => ProfileAction::ShowStats { file },
            None => ProfileAction::ExplainStats,
        },
    }
}

/// The format that a name stands for.
pub fn report_format(name: &str) -> (format: ReportFormat)
    ensures
        format == spec_report_format(name@),
{
    if str_equal(name, "json") {
        ReportFormat::Json
    } else {
        ReportFormat::Text
    }
}

/// How many of `found` leaks a memory report lists: at most
/// `MAX_LISTED_LEAKS`.
pub fn listed_leaks(found: usize) -> (listed: usize)
    ensures
        listed == if found <= MAX_LISTED_LEAKS {
            found
        } else {
            MAX_LISTED_LEAKS
        },
{
    if found <= MAX_LISTED_LEAKS {
        found
    } else {
        MAX_LISTED_LEAKS
    }
}

/// Decides what a command of the profiler asks for.
pub fn run_profiler_subcommand(command: &ProfileCommand) -> (action: ProfileAction)
    ensures
        action == spec_action(*command),
{
    match command {
        ProfileCommand::Memory { program, format } => ProfileAction::ProfileMemory {
            program: program.clone(),
            format: report_format(format.as_str()),
        },
        ProfileCommand::Calls { program, iterations } => ProfileAction::ProfileCalls {
            program: program.clone(),
            iterations: *iterations,
        },
        ProfileCommand::Stats { file } => match file {
            Some(path) => ProfileAction::ShowStats { file: path.clone() },
            None => ProfileAction::ExplainStats,
        },
    }
}

impl ProfilerCli {
    /// The command line that holds `command`.
    pub fn new(command: ProfileCommand) -> (cli: ProfilerCli)
        ensures
            cli.command() == command,
    {
        ProfilerCli { command }
    }

    /// The command of this command line.
    pub closed spec fn command(&self) -> ProfileCommand {
        self.command
    }
}

/// Decides what a parsed command line of the profiler asks for.
pub fn run_profiler(cli: &ProfilerCli) -> (action: ProfileAction)
    ensures
        action == spec_action(cli.command()),
{
    run_profiler_subcommand(&cli.command)
}

} // verus!
