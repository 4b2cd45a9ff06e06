//! Live-gated runtime preflight checks.
//!
//! A configuration is ready for a live run when at least one bot channel is
//! enabled; otherwise the report names the missing channel as its issue.

use vstd::prelude::*;
use crate::runtime::config::{RuntimeConfig, RuntimeConfigView, RuntimeFlag, kv, kv_line};
use crate::runtime::live_plan::{LiveLaunchPlanStatus, plan_status, planned};
use crate::text::string_views;

verus! {

/// Live preflight status.
#[derive(Debug, Clone, Copy, PartialEq, Eq, Structural)]
pub enum LivePreflightStatus {
    /// Runtime has enough configuration for a live-gated bot probe.
    Ready,
    /// Runtime is missing required live-gated configuration.
    Blocked,
}

/// The stable diagnostic value of a preflight status.
pub open spec fn preflight_status_name(s: LivePreflightStatus) -> Seq<char> {
    match s {
        LivePreflightStatus::Ready => "ready"@,
        LivePreflightStatus::Blocked => "blocked"@,
    }
}

impl LivePreflightStatus {
    /// Return the stable diagnostic value.
    pub fn as_str(self) -> (s: &'static str)
        ensures
            s@ == preflight_status_name(self),
    {
        match self {
            LivePreflightStatus::Ready => "ready",
            LivePreflightStatus::Blocked => "blocked",
        }
    }
}

/// Live preflight issue.
#[derive(Debug, Clone, Copy, PartialEq, Eq, Structural)]
pub enum LivePreflightIssue {
    /// Neither Telegram nor Discord runtime is enabled.
    MissingEnabledChannel,
}

/// The diagnostic text of an issue.
pub open spec fn issue_text(i: LivePreflightIssue) -> Seq<char> {
    match i {
        LivePreflightIssue::MissingEnabledChannel => "no enabled Telegram or Discord bot channel"@,
    }
}

impl LivePreflightIssue {
    /// The diagnostic text of the issue (its `Display` form).
    pub fn describe(&self) -> (s: &'static str)
        ensures
            s@ == issue_text(*self),
    {
        match self {
            LivePreflightIssue::MissingEnabledChannel => "no enabled Telegram or Discord bot channel",
        }
    }
}

/// Whether a configuration enables at least one bot channel.
pub open spec fn has_enabled_channel(c: RuntimeConfigView) -> bool {
    c.telegram.enabled == RuntimeFlag::Enabled || c.discord.enabled == RuntimeFlag::Enabled
}

/// The issues that block a live run of a configuration.
pub open spec fn preflight_issues(c: RuntimeConfigView) -> Seq<LivePreflightIssue> {
    if has_enabled_channel(c) {
        Seq::empty()
    } else {
        seq![LivePreflightIssue::MissingEnabledChannel]
    }
}

/// The preflight status of a configuration: ready exactly when nothing
/// blocks it.
pub open spec fn preflight_status(c: RuntimeConfigView) -> LivePreflightStatus {
    if preflight_issues(c).len() == 0 {
        LivePreflightStatus::Ready
    } else {
        LivePreflightStatus::Blocked
    }
}

/// Secret-safe preflight report.
#[derive(Debug, Clone, PartialEq, Eq)]
pub struct LivePreflightReport {
    /// Preflight status.
    pub status: LivePreflightStatus,
    /// Issues that block live-gated execution.
    pub issues: Vec<LivePreflightIssue>,
}

/// The diagnostic lines of a report: its status, then one line per issue.
pub open spec fn report_lines(
    status: LivePreflightStatus,
    issues: Seq<LivePreflightIssue>,
) -> Seq<Seq<char>> {
    seq![kv_line("live_preflight_status"@, preflight_status_name(status))] + Seq::new(
        issues.len(),
        |i: int| kv_line("live_preflight_issue"@, issue_text(issues[i])),
    )
}

impl LivePreflightReport {
    /// Build a preflight report from runtime configuration.
    pub fn from_config(config: &RuntimeConfig) -> (r: Self)
        ensures
            r.issues@ == preflight_issues(config@),
            r.status == preflight_status(config@),
    {
        let has_enabled_channel = config.telegram.enabled == RuntimeFlag::Enabled
            || config.discord.enabled == RuntimeFlag::Enabled;
        let mut issues: Vec<LivePreflightIssue> = Vec::new();
        if !has_enabled_channel {
            issues.push(LivePreflightIssue::MissingEnabledChannel);
        }
        let status = if issues.len() == 0 {
            LivePreflightStatus::Ready
        } else {
            LivePreflightStatus::Blocked
        };
        assert(issues@ =~= preflight_issues(config@));
        LivePreflightReport { status, issues }
    }

    /// Return whether this report allows live-gated execution.
    pub fn is_ready(&self) -> (r: bool)
        ensures
            r == (self.status == LivePreflightStatus::Ready),
    {
        self.status == LivePreflightStatus::Ready
    }

    /// Render the report as stable diagnostic lines.
    pub fn render_lines(&self) -> (r: Vec<String>)
        ensures
            string_views(r@) == report_lines(self.status, self.issues@),
    {
        let mut lines: Vec<String> = Vec::new();
        lines.push(kv("live_preflight_status", self.status.as_str()));
        let mut i: usize = 0;
        while i < self.issues.len()
            invariant
                i <= self.issues@.len(),
                string_views(lines@) == report_lines(self.status, self.issues@.take(i as int)),
            decreases self.issues@.len() - i,
        {
            let text = self.issues[i].describe();
            let line = kv("live_preflight_issue", text);
            let ghost prev = lines@;
            lines.push(line);
            assert(string_views(lines@) =~= string_views(prev).push(line@));
            assert(self.issues@.take(i + 1) == self.issues@.take(i as int).push(self.issues@[i as int]));
            assert(report_lines(self.status, self.issues@.take(i + 1)) =~= report_lines(
                self.status,
                self.issues@.take(i as int),
            ).push(line@));
            assert(string_views(lines@) =~= report_lines(self.status, self.issues@.take(i + 1)));
            i += 1;
        }
        assert(self.issues@.take(self.issues@.len() as int) == self.issues@);
        lines
    }
}

/// A launch plan is runnable exactly when the preflight report for the same
/// configuration is ready, and both hold exactly when a channel is enabled.
pub proof fn lemma_plan_runnable_iff_preflight_ready(c: RuntimeConfigView)
    ensures
        (plan_status(c) == LiveLaunchPlanStatus::Runnable) == (preflight_status(c)
            == LivePreflightStatus::Ready),
        (preflight_status(c) == LivePreflightStatus::Ready) == has_enabled_channel(c),
        planned(c).len() <= 2,
{
}

} // verus!
