//! Command-line decisions for runtime diagnostics.
//!
//! The program reads its first argument and, for the commands that need it,
//! the configuration; this module decides which lines go to standard output
//! and standard error and whether the run succeeds. Preflight fails when no
//! bot channel is enabled, and the live plan succeeds only when the preflight
//! is ready and the plan is runnable.

use vstd::prelude::*;
use crate::runtime::config::{
    RuntimeConfig, RuntimeConfigError, RuntimeConfigErrorView, RuntimeConfigView, RuntimeFlag,
    config_outcome, error_text, kv_line, summary_lines,
};
use crate::runtime::live_plan::{
    LiveLaunchPlan, LiveLaunchPlanStatus, channels_lines, plan_header, plan_status, planned,
};
use crate::runtime::preflight::{
    LivePreflightReport, LivePreflightStatus, lemma_plan_runnable_iff_preflight_ready,
    preflight_issues, preflight_status, report_lines,
};
use crate::text::{concat2, str_eq, string_views};

verus! {

/// A command-line command.
#[derive(Debug, Clone, PartialEq, Eq)]
pub enum CliCommand {
    /// `check-config`: print the secret-safe configuration summary.
    CheckConfig,
    /// `preflight`: print the summary and the preflight report.
    Preflight,
    /// `plan-live`: print the preflight report and the live launch plan.
    PlanLive,
    /// `--help` or `-h`.
    Help,
    /// Any other argument.
    Unknown(String),
    /// No argument.
    Missing,
}

/// The content of a [`CliCommand`].
pub enum CliCommandView {
    /// `check-config`.
    CheckConfig,
    /// `preflight`.
    Preflight,
    /// `plan-live`.
    PlanLive,
    /// Help.
    Help,
    /// Another argument.
    Unknown(Seq<char>),
    /// No argument.
    Missing,
}

impl View for CliCommand {
    type V = CliCommandView;

    open spec fn view(&self) -> CliCommandView {
        match self {
            CliCommand::CheckConfig => CliCommandView::CheckConfig,
            CliCommand::Preflight => CliCommandView::Preflight,
            CliCommand::PlanLive => CliCommandView::PlanLive,
            CliCommand::Help => CliCommandView::Help,
            CliCommand::Unknown(a) => CliCommandView::Unknown(a@),
            CliCommand::Missing => CliCommandView::Missing,
        }
    }
}

/// The command a first argument names.
pub open spec fn cli_command_of(arg: Option<Seq<char>>) -> CliCommandView {
    match arg {
        None => CliCommandView::Missing,
        Some(a) => if a == "check-config"@ {
            CliCommandView::CheckConfig
        } else if a == "preflight"@ {
            CliCommandView::Preflight
        } else if a == "plan-live"@ {
            CliCommandView::PlanLive
        } else if a == "--help"@ || a == "-h"@ {
            CliCommandView::Help
        } else {
            CliCommandView::Unknown(a)
        },
    }
}

/// Whether a command reads the runtime configuration.
pub open spec fn needs_config(c: CliCommandView) -> bool {
    match c {
        CliCommandView::CheckConfig | CliCommandView::Preflight | CliCommandView::PlanLive => true,
        _ => false,
    }
}

/// Read the command from the program's first argument.
pub fn parse_cli_command(arg: Option<&str>) -> (c: CliCommand)
    ensures
        c@ == cli_command_of(
            match arg {
                Some(a) => Some(a@),
                None => None,
            },
        ),
{
    match arg {
        None => CliCommand::Missing,
        Some(a) => if str_eq(a, "check-config") {
            CliCommand::CheckConfig
        } else if str_eq(a, "preflight") {
            CliCommand::Preflight
        } else if str_eq(a, "plan-live") {
            CliCommand::PlanLive
        } else if str_eq(a, "--help") || str_eq(a, "-h") {
            CliCommand::Help
        } else {
            CliCommand::Unknown(String::from_str(a))
        },
    }
}

impl CliCommand {
    /// Whether the command reads the runtime configuration.
    pub fn needs_configuration(&self) -> (r: bool)
        ensures
            r == needs_config(self@),
    {
        match self {
            CliCommand::CheckConfig | CliCommand::Preflight | CliCommand::PlanLive => true,
            _ => false,
        }
    }
}

/// What a run prints and whether it succeeds.
#[derive(Debug, Clone, PartialEq, Eq)]
pub struct CliOutcome {
    /// Lines for standard output, in order.
    pub stdout: Vec<String>,
    /// Lines for standard error, in order.
    pub stderr: Vec<String>,
    /// Whether the run succeeds (exit code zero).
    pub success: bool,
}

/// The content of a [`CliOutcome`].
pub struct CliOutcomeView {
    /// Standard output lines.
    pub stdout: Seq<Seq<char>>,
    /// Standard error lines.
    pub stderr: Seq<Seq<char>>,
    /// Success.
    pub success: bool,
}

impl View for CliOutcome {
    type V = CliOutcomeView;

    open spec fn view(&self) -> CliOutcomeView {
        CliOutcomeView {
            stdout: string_views(self.stdout@),
            stderr: string_views(self.stderr@),
            success: self.success,
        }
    }
}

/// The usage line.
pub open spec fn usage_line() -> Seq<char> {
    "usage: lingchong-bot [check-config|preflight|plan-live]"@
}

/// The line printed when no command is given.
pub open spec fn installed_line() -> Seq<char> {
    "lingchong-bot migration substrate is installed"@
}

/// The preflight report lines of a configuration.
pub open spec fn preflight_lines(c: RuntimeConfigView) -> Seq<Seq<char>> {
    report_lines(preflight_status(c), preflight_issues(c))
}

/// The live launch plan lines of a configuration.
pub open spec fn plan_lines(c: RuntimeConfigView) -> Seq<Seq<char>> {
    plan_header(plan_status(c), c.gateway_url, planned(c).len()) + channels_lines(planned(c))
}

/// The outcome of a command given the configuration it read (`None` for a
/// command that reads none): the configuration error goes to standard error
/// and fails the run; `check-config` prints the summary; `preflight` prints
/// the summary and the report and succeeds when the report is ready;
/// `plan-live` prints the report and the plan and succeeds when the report is
/// ready and the plan runnable; help prints the usage; an unknown command
/// names itself on standard error, prints the usage and fails; no command
/// prints a greeting and the usage.
pub open spec fn cli_result(
    command: CliCommandView,
    config: Option<Result<RuntimeConfigView, RuntimeConfigErrorView>>,
) -> CliOutcomeView {
    match command {
        CliCommandView::Help => CliOutcomeView {
            stdout: seq![usage_line()],
            stderr: Seq::empty(),
            success: true,
        },
        CliCommandView::Unknown(a) => CliOutcomeView {
            stdout: seq![usage_line()],
            stderr: seq!["unknown command: "@ + a],
            success: false,
        },
        CliCommandView::Missing => CliOutcomeView {
            stdout: seq![installed_line(), usage_line()],
            stderr: Seq::empty(),
            success: true,
        },
        _ => match config {
            Some(Err(e)) => CliOutcomeView {
                stdout: Seq::empty(),
                stderr: seq![error_text(e)],
                success: false,
            },
            Some(Ok(c)) => match command {
                CliCommandView::CheckConfig => CliOutcomeView {
                    stdout: summary_lines(c),
                    stderr: Seq::empty(),
                    success: true,
                },
                CliCommandView::Preflight => CliOutcomeView {
                    stdout: summary_lines(c) + preflight_lines(c),
                    stderr: Seq::empty(),
                    success: preflight_status(c) == LivePreflightStatus::Ready,
                },
                _ => CliOutcomeView {
                    stdout: preflight_lines(c) + plan_lines(c),
                    stderr: Seq::empty(),
                    success: preflight_status(c) == LivePreflightStatus::Ready && plan_status(c)
                        == LiveLaunchPlanStatus::Runnable,
                },
            },
            None => CliOutcomeView { stdout: Seq::empty(), stderr: Seq::empty(), success: false },
        },
    }
}

/// Moves the lines of `more` to the end of `lines`.
fn append_lines(lines: &mut Vec<String>, more: Vec<String>)
    ensures
        string_views(final(lines)@) == string_views(old(lines)@) + string_views(more@),
{
    let mut more = more;
    let ghost before = lines@;
    let ghost added = more@;
    lines.append(&mut more);
    assert(lines@ == before + added);
    assert(string_views(lines@) =~= string_views(before) + string_views(added));
}

fn one_line(s: String) -> (v: Vec<String>)
    ensures
        string_views(v@) == seq![s@],
{
    let mut v: Vec<String> = Vec::new();
    v.push(s);
    assert(string_views(v@) =~= seq![s@]);
    v
}

fn usage() -> (s: String)
    ensures
        s@ == usage_line(),
{
    String::from_str("usage: lingchong-bot [check-config|preflight|plan-live]")
}

/// Decide what a run of `command` prints and whether it succeeds, given the
/// configuration it read.
pub fn cli_outcome(
    command: &CliCommand,
    config: Option<&Result<RuntimeConfig, RuntimeConfigError>>,
) -> (o: CliOutcome)
    requires
        (config is Some) == needs_config(command@),
    ensures
        o@ == cli_result(
            command@,
            match config {
                Some(r) => Some(config_outcome(*r)),
                None => None,
            },
        ),
{
    match command {
        CliCommand::Help => {
            let o = CliOutcome { stdout: one_line(usage()), stderr: Vec::new(), success: true };
            assert(o@.stderr =~= Seq::<Seq<char>>::empty());
            return o;
        },
        CliCommand::Unknown(a) => {
            let o = CliOutcome {
                stdout: one_line(usage()),
                stderr: one_line(concat2("unknown command: ", a.as_str())),
                success: false,
            };
            assert(o@.stderr == seq!["unknown command: "@ + a@]);
            return o;
        },
        CliCommand::Missing => {
            let mut stdout = one_line(String::from_str("lingchong-bot migration substrate is installed"));
            append_lines(&mut stdout, one_line(usage()));
            let o = CliOutcome { stdout, stderr: Vec::new(), success: true };
            assert(o@.stdout =~= seq![installed_line(), usage_line()]);
            assert(o@.stderr =~= Seq::<Seq<char>>::empty());
            return o;
        },
        _ => {},
    }
    let result = match config {
        Some(r) => r,
        None => {
            return CliOutcome { stdout: Vec::new(), stderr: Vec::new(), success: false };
        },
    };
    let c = match result {
        Ok(c) => c,
        Err(e) => {
            let o = CliOutcome { stdout: Vec::new(), stderr: one_line(e.describe()), success: false };
            assert(o@.stdout =~= Seq::<Seq<char>>::empty());
            return o;
        },
    };
    match command {
        CliCommand::CheckConfig => {
            let o = CliOutcome { stdout: c.summary_lines(), stderr: Vec::new(), success: true };
            assert(o@.stderr =~= Seq::<Seq<char>>::empty());
            o
        },
        CliCommand::Preflight => {
            let mut stdout = c.summary_lines();
            let report = LivePreflightReport::from_config(c);
            append_lines(&mut stdout, report.render_lines());
            let o = CliOutcome { stdout, stderr: Vec::new(), success: report.is_ready() };
            assert(o@.stderr =~= Seq::<Seq<char>>::empty());
            o
        },
        _ => {
            let report = LivePreflightReport::from_config(c);
            let mut stdout = report.render_lines();
            let plan = LiveLaunchPlan::from_config(c);
            assert(plan.channels@.len() == planned(c@).len());
            append_lines(&mut stdout, plan.render_lines());
            let success = report.is_ready() && plan.is_runnable();
            let o = CliOutcome { stdout, stderr: Vec::new(), success };
            assert(o@.stderr =~= Seq::<Seq<char>>::empty());
            o
        },
    }
}

/// How each command ends: `check-config` succeeds whenever the
/// configuration loads; `preflight` and `plan-live` succeed exactly when
/// Telegram or Discord is enabled, and `preflight` prints the summary and then
/// the `ready` or `blocked` status line; a configuration that fails to load
/// fails every command that needs it, with nothing on standard output; help
/// and a bare run succeed; an unknown command fails.
pub proof fn lemma_cli_success(
    command: CliCommandView,
    c: RuntimeConfigView,
    e: RuntimeConfigErrorView,
    a: Seq<char>,
)
    ensures
        cli_result(CliCommandView::CheckConfig, Some(Ok(c))).success,
        cli_result(CliCommandView::Preflight, Some(Ok(c))).success == (c.telegram.enabled
            == RuntimeFlag::Enabled || c.discord.enabled == RuntimeFlag::Enabled),
        cli_result(CliCommandView::PlanLive, Some(Ok(c))).success == (c.telegram.enabled
            == RuntimeFlag::Enabled || c.discord.enabled == RuntimeFlag::Enabled),
        cli_result(CliCommandView::Preflight, Some(Ok(c))).stdout.take(12) == summary_lines(c),
        cli_result(CliCommandView::Preflight, Some(Ok(c))).stdout[12] == kv_line(
            "live_preflight_status"@,
            if c.telegram.enabled == RuntimeFlag::Enabled || c.discord.enabled
                == RuntimeFlag::Enabled {
                "ready"@
            } else {
                "blocked"@
            },
        ),
        needs_config(command) ==> !cli_result(command, Some(Err(e))).success && cli_result(
            command,
            Some(Err(e)),
        ).stdout.len() == 0 && cli_result(command, Some(Err(e))).stderr == seq![error_text(e)],
        cli_result(CliCommandView::Help, None).success,
        cli_result(CliCommandView::Missing, None).success,
        !cli_result(CliCommandView::Unknown(a), None).success,
{
    lemma_plan_runnable_iff_preflight_ready(c);
    let out = cli_result(CliCommandView::Preflight, Some(Ok(c))).stdout;
    assert(summary_lines(c).len() == 12);
    assert(out.take(12) =~= summary_lines(c));
}

} // verus!
