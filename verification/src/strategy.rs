//! The three interchangeable print strategies.
//!
//! Each strategy turns an artifact path into one external platform command;
//! the embedding application launches the command and reports back what
//! happened. Planning and interpretation are pure: on a non-Windows host
//! planning fails with [`crate::outcome::PrintError::UnsupportedPlatform`]
//! before any command exists, so no process is spawned and no file touched.

use vstd::prelude::*;

use crate::outcome::PrintError;

verus! {

/// The host platform, as observed at run time by the embedding application.
/// Printing requires a Windows host; every other platform takes the
/// unsupported path.
#[derive(Clone, Copy, Debug, PartialEq, Eq)]
pub enum Platform {
    Windows,
    Other,
}

/// Which print strategy is configured.
#[derive(Clone, Copy, Debug, PartialEq, Eq)]
pub enum StrategyKind {
    /// Hand the path to the platform's default file-open mechanism, so a
    /// viewer application presents its own print dialog. Returns as soon as
    /// the open request is issued; the user finishes printing interactively.
    OpenDefault,
    /// Invoke the platform shell's "print" verb against the path in a hidden
    /// window, engaging the printer without user confirmation.
    ShellPrintVerb,
    /// Invoke the bundled raster viewer with its print-and-exit flag; the
    /// document must already be a raster image.
    RasterHelper,
}

/// One external command: a program and its arguments.
#[derive(Debug, PartialEq, Eq)]
pub struct PrintCommand {
    pub program: String,
    pub args: Vec<String>,
}

/// The artifact filename extension a strategy consumes: the first two
/// strategies render HTML through a viewer, the raster helper needs an image.
pub open spec fn spec_extension(kind: StrategyKind) -> Seq<char> {
    match kind {
        StrategyKind::OpenDefault => "html"@,
        StrategyKind::ShellPrintVerb => "html"@,
        StrategyKind::RasterHelper => "png"@,
    }
}

/// Returns the artifact filename extension for a strategy.
pub fn extension(kind: StrategyKind) -> (r: &'static str)
    ensures
        r@ == spec_extension(kind),
{
    match kind {
        StrategyKind::OpenDefault => "html",
        StrategyKind::ShellPrintVerb => "html",
        StrategyKind::RasterHelper => "png",
    }
}

/// The program each strategy launches.
pub open spec fn spec_command_program(kind: StrategyKind) -> Seq<char> {
    match kind {
        StrategyKind::OpenDefault => "cmd.exe"@,
        StrategyKind::ShellPrintVerb => "powershell.exe"@,
        StrategyKind::RasterHelper => "mspaint.exe"@,
    }
}

/// The argument list each strategy launches its program with.
pub open spec fn spec_command_args(kind: StrategyKind, path: Seq<char>) -> Seq<Seq<char>> {
    match kind {
        StrategyKind::OpenDefault => seq!["/C"@, "start"@, ""@, path],
        StrategyKind::ShellPrintVerb => seq![
            "-NoProfile"@,
            "-WindowStyle"@,
            "Hidden"@,
            "-Command"@,
            "Start-Process"@,
            "-FilePath"@,
            path,
            "-Verb"@,
            "Print"@,
        ],
        StrategyKind::RasterHelper => seq!["/pt"@, path],
    }
}

/// The command is exactly the one the strategy plans for the path.
pub open spec fn command_matches(kind: StrategyKind, path: Seq<char>, cmd: PrintCommand) -> bool {
    &&& cmd.program@ == spec_command_program(kind)
    &&& cmd.args@.map_values(|s: String| s@) == spec_command_args(kind, path)
}

/// Plans the external command a strategy runs against an artifact path.
///
/// On a non-Windows host every strategy fails with `UnsupportedPlatform`
/// right here, before any command exists: nothing is spawned and no file is
/// touched. On Windows the planned command is pinned per strategy.
pub fn plan_print(kind: StrategyKind, platform: Platform, path: &str) -> (r: Result<
    PrintCommand,
    PrintError,
>)
    ensures
        platform is Other ==> (r matches Err(e) && e is UnsupportedPlatform),
        platform is Windows ==> (r matches Ok(cmd) && command_matches(kind, path@, cmd)),
{
    match platform {
        Platform::Other => Err(PrintError::UnsupportedPlatform),
        Platform::Windows => {
            let mut args: Vec<String> = Vec::new();
            let program: String = match kind {
                StrategyKind::OpenDefault => {
                    args.push(String::from_str("/C"));
                    args.push(String::from_str("start"));
                    args.push(String::from_str(""));
                    args.push(String::from_str(path));
                    String::from_str("cmd.exe")
                },
                StrategyKind::ShellPrintVerb => {
                    args.push(String::from_str("-NoProfile"));
                    args.push(String::from_str("-WindowStyle"));
                    args.push(String::from_str("Hidden"));
                    args.push(String::from_str("-Command"));
                    args.push(String::from_str("Start-Process"));
                    args.push(String::from_str("-FilePath"));
                    args.push(String::from_str(path));
                    args.push(String::from_str("-Verb"));
                    args.push(String::from_str("Print"));
                    String::from_str("powershell.exe")
                },
                StrategyKind::RasterHelper => {
                    args.push(String::from_str("/pt"));
                    args.push(String::from_str(path));
                    String::from_str("mspaint.exe")
                },
            };
            proof {
                assert(args@.map_values(|s: String| s@) =~= spec_command_args(kind, path@));
            }
            Ok(PrintCommand { program, args })
        },
    }
}

/// What the embedding application observed of the launched print command.
#[derive(Debug, PartialEq, Eq)]
pub enum ProcessReport {
    /// The external mechanism could not be started at all (binary missing,
    /// spawn denied); carries the platform's diagnostic.
    LaunchFailed { detail: String },
    /// The mechanism started and finished; `success` is its exit status and
    /// `stderr` the captured standard-error text.
    Completed { success: bool, stderr: String },
}

/// How a process report is read: a failed launch is `ProcessLaunch`, a
/// non-zero completion is `PrintCommand` carrying the captured stderr, a
/// successful completion is a successful print.
pub open spec fn spec_interpret_report(report: ProcessReport) -> Result<(), PrintError> {
    match report {
        ProcessReport::LaunchFailed { detail } => Err(PrintError::ProcessLaunch { detail }),
        ProcessReport::Completed { success, stderr } => if success {
            Ok(())
        } else {
            Err(PrintError::PrintCommand { stderr })
        },
    }
}

/// Reads a process report into the strategy's result.
pub fn interpret_report(report: ProcessReport) -> (r: Result<(), PrintError>)
    ensures
        r == spec_interpret_report(report),
{
    match report {
        ProcessReport::LaunchFailed { detail } => Err(PrintError::ProcessLaunch { detail }),
        ProcessReport::Completed { success, stderr } => if success {
            Ok(())
        } else {
            Err(PrintError::PrintCommand { stderr })
        },
    }
}

/// The message a successful print reports back to the caller.
pub open spec fn spec_success_message(kind: StrategyKind) -> Seq<char> {
    match kind {
        StrategyKind::OpenDefault => "Invoice opened for printing"@,
        StrategyKind::ShellPrintVerb => "Invoice sent to printer"@,
        StrategyKind::RasterHelper => "Invoice sent to printer"@,
    }
}

/// Returns the success message for a strategy.
pub fn success_message(kind: StrategyKind) -> (r: String)
    ensures
        r@ == spec_success_message(kind),
{
    match kind {
        StrategyKind::OpenDefault => String::from_str("Invoice opened for printing"),
        StrategyKind::ShellPrintVerb => String::from_str("Invoice sent to printer"),
        StrategyKind::RasterHelper => String::from_str("Invoice sent to printer"),
    }
}

} // verus!
