//! Live-gated bot launch planning.
//!
//! The plan lists the enabled channels, Telegram first, with the addresses
//! they will listen on. It never holds a token or a secret.

use vstd::prelude::*;
use crate::decimal::{nat_decimal, u64_to_string};
use crate::runtime::config::{
    AgentGatewayUrl, ChannelBindAddress, ChannelLocalUrl, ChannelPath, ChannelPort,
    RuntimeConfig, RuntimeConfigView, RuntimeFlag, bind_text, clone_bind, clone_path, clone_url, kv,
    kv_line, opt_text, opt_view, path_text, port_string, port_text, url_text,
};
use crate::text::string_views;

verus! {

/// Live launch plan status.
#[derive(Debug, Clone, Copy, PartialEq, Eq, Structural)]
pub enum LiveLaunchPlanStatus {
    /// At least one channel is planned.
    Runnable,
    /// No channel can be planned from current configuration.
    Empty,
}

/// The stable diagnostic value of a plan status.
pub open spec fn plan_status_name(s: LiveLaunchPlanStatus) -> Seq<char> {
    match s {
        LiveLaunchPlanStatus::Runnable => "runnable"@,
        LiveLaunchPlanStatus::Empty => "empty"@,
    }
}

impl LiveLaunchPlanStatus {
    /// Return the stable diagnostic value.
    pub fn as_str(self) -> (s: &'static str)
        ensures
            s@ == plan_status_name(self),
    {
        match self {
            LiveLaunchPlanStatus::Runnable => "runnable",
            LiveLaunchPlanStatus::Empty => "empty",
        }
    }
}

/// Live channel launch plan item.
#[derive(Debug, Clone, PartialEq, Eq)]
pub enum LiveLaunchChannel {
    /// Telegram webhook runtime.
    TelegramWebhook {
        /// Webhook bind address when configured.
        bind: Option<ChannelBindAddress>,
        /// Webhook port.
        port: Option<ChannelPort>,
        /// Webhook path.
        path: Option<ChannelPath>,
    },
    /// Discord ingress runtime.
    DiscordIngress {
        /// Ingress bind address.
        bind: Option<ChannelBindAddress>,
        /// Ingress path.
        path: Option<ChannelPath>,
        /// Local ingress URL.
        url: Option<ChannelLocalUrl>,
    },
}

/// The content of a plan item.
pub enum LiveLaunchChannelView {
    /// Telegram webhook with bind address, port and path.
    TelegramWebhook(Option<Seq<char>>, Option<u16>, Option<Seq<char>>),
    /// Discord ingress with bind address, path and local URL.
    DiscordIngress(Option<Seq<char>>, Option<Seq<char>>, Option<Seq<char>>),
}

impl View for LiveLaunchChannel {
    type V = LiveLaunchChannelView;

    open spec fn view(&self) -> LiveLaunchChannelView {
        match self {
            LiveLaunchChannel::TelegramWebhook { bind, port, path } => LiveLaunchChannelView::TelegramWebhook(
                opt_view(*bind),
                opt_view(*port),
                opt_view(*path),
            ),
            LiveLaunchChannel::DiscordIngress { bind, path, url } => LiveLaunchChannelView::DiscordIngress(
                opt_view(*bind),
                opt_view(*path),
                opt_view(*url),
            ),
        }
    }
}

/// The stable id of a plan item.
pub open spec fn channel_id(c: LiveLaunchChannelView) -> Seq<char> {
    match c {
        LiveLaunchChannelView::TelegramWebhook(..) => "telegram_webhook"@,
        LiveLaunchChannelView::DiscordIngress(..) => "discord_ingress"@,
    }
}

/// The diagnostic lines of a plan item.
pub open spec fn channel_lines(c: LiveLaunchChannelView) -> Seq<Seq<char>> {
    match c {
        LiveLaunchChannelView::TelegramWebhook(bind, port, path) => seq![
            kv_line("live_channel"@, "telegram_webhook"@),
            kv_line("telegram_webhook_bind"@, opt_text(bind)),
            kv_line("telegram_webhook_port"@, port_text(port)),
            kv_line("telegram_webhook_path"@, opt_text(path)),
        ],
        LiveLaunchChannelView::DiscordIngress(bind, path, url) => seq![
            kv_line("live_channel"@, "discord_ingress"@),
            kv_line("discord_ingress_bind"@, opt_text(bind)),
            kv_line("discord_ingress_path"@, opt_text(path)),
            kv_line("discord_ingress_url"@, opt_text(url)),
        ],
    }
}

/// The diagnostic lines of a list of plan items, item after item.
pub open spec fn channels_lines(cs: Seq<LiveLaunchChannelView>) -> Seq<Seq<char>>
    decreases cs.len(),
{
    if cs.len() == 0 {
        Seq::empty()
    } else {
        channels_lines(cs.drop_last()) + channel_lines(cs.last())
    }
}

/// The views of a list of plan items.
pub open spec fn channel_views(cs: Seq<LiveLaunchChannel>) -> Seq<LiveLaunchChannelView> {
    Seq::new(cs.len(), |i: int| cs[i]@)
}

impl LiveLaunchChannel {
    /// Return the stable channel id.
    pub fn id(&self) -> (s: &'static str)
        ensures
            s@ == channel_id(self@),
    {
        match self {
            LiveLaunchChannel::TelegramWebhook { .. } => "telegram_webhook",
            LiveLaunchChannel::DiscordIngress { .. } => "discord_ingress",
        }
    }

    fn render_lines(&self) -> (r: Vec<String>)
        ensures
            string_views(r@) == channel_lines(self@),
    {
        let mut lines: Vec<String> = Vec::new();
        match self {
            LiveLaunchChannel::TelegramWebhook { bind, port, path } => {
                lines.push(kv("live_channel", "telegram_webhook"));
                lines.push(kv("telegram_webhook_bind", bind_text(bind)));
                let p = port_string(*port);
                lines.push(kv("telegram_webhook_port", p.as_str()));
                lines.push(kv("telegram_webhook_path", path_text(path)));
            },
            LiveLaunchChannel::DiscordIngress { bind, path, url } => {
                lines.push(kv("live_channel", "discord_ingress"));
                lines.push(kv("discord_ingress_bind", bind_text(bind)));
                lines.push(kv("discord_ingress_path", path_text(path)));
                lines.push(kv("discord_ingress_url", url_text(url)));
            },
        }
        assert(string_views(lines@) =~= channel_lines(self@));
        lines
    }
}

/// The channels planned for a configuration: the Telegram webhook when
/// Telegram is enabled, then the Discord ingress when Discord is enabled.
pub open spec fn planned(c: RuntimeConfigView) -> Seq<LiveLaunchChannelView> {
    let telegram: Seq<LiveLaunchChannelView> = if c.telegram.enabled == RuntimeFlag::Enabled {
        seq![
            LiveLaunchChannelView::TelegramWebhook(
                c.telegram.inbound_bind,
                c.telegram.inbound_port,
                c.telegram.inbound_path,
            ),
        ]
    } else {
        Seq::empty()
    };
    let discord: Seq<LiveLaunchChannelView> = if c.discord.enabled == RuntimeFlag::Enabled {
        seq![
            LiveLaunchChannelView::DiscordIngress(
                c.discord.inbound_bind,
                c.discord.inbound_path,
                c.discord.inbound_url,
            ),
        ]
    } else {
        Seq::empty()
    };
    telegram + discord
}

/// The status of the plan for a configuration.
pub open spec fn plan_status(c: RuntimeConfigView) -> LiveLaunchPlanStatus {
    if planned(c).len() == 0 {
        LiveLaunchPlanStatus::Empty
    } else {
        LiveLaunchPlanStatus::Runnable
    }
}

fn planned_channels(config: &RuntimeConfig) -> (r: Vec<LiveLaunchChannel>)
    ensures
        channel_views(r@) == planned(config@),
{
    let mut channels: Vec<LiveLaunchChannel> = Vec::new();
    if config.telegram.enabled == RuntimeFlag::Enabled {
        channels.push(
            LiveLaunchChannel::TelegramWebhook {
                bind: clone_bind(&config.telegram.inbound_bind),
                port: config.telegram.inbound_port,
                path: clone_path(&config.telegram.inbound_path),
            },
        );
    }
    if config.discord.enabled == RuntimeFlag::Enabled {
        channels.push(
            LiveLaunchChannel::DiscordIngress {
                bind: clone_bind(&config.discord.inbound_bind),
                path: clone_path(&config.discord.inbound_path),
                url: clone_url(&config.discord.inbound_url),
            },
        );
    }
    assert(channel_views(channels@) =~= planned(config@));
    channels
}

/// Secret-safe live launch plan.
#[derive(Debug, Clone, PartialEq, Eq)]
pub struct LiveLaunchPlan {
    /// Plan status.
    pub status: LiveLaunchPlanStatus,
    /// External agent gateway target.
    pub gateway_url: AgentGatewayUrl,
    /// Planned live channels.
    pub channels: Vec<LiveLaunchChannel>,
}

/// The header lines of a plan: status, gateway URL and channel count.
pub open spec fn plan_header(
    status: LiveLaunchPlanStatus,
    gateway_url: Seq<char>,
    count: nat,
) -> Seq<Seq<char>> {
    seq![
        kv_line("live_plan_status"@, plan_status_name(status)),
        kv_line("live_gateway_url"@, gateway_url),
        kv_line("live_channel_count"@, nat_decimal(count)),
    ]
}

impl LiveLaunchPlan {
    /// Build a launch plan from runtime configuration.
    pub fn from_config(config: &RuntimeConfig) -> (r: Self)
        ensures
            channel_views(r.channels@) == planned(config@),
            r.status == plan_status(config@),
            r.gateway_url@ == config.agent.gateway_url@,
    {
        let channels = planned_channels(config);
        let status = if channels.len() == 0 {
            LiveLaunchPlanStatus::Empty
        } else {
            LiveLaunchPlanStatus::Runnable
        };
        LiveLaunchPlan {
            status,
            gateway_url: AgentGatewayUrl::new(config.agent.gateway_url.as_str()),
            channels,
        }
    }

    /// Return whether this plan has at least one live channel.
    pub fn is_runnable(&self) -> (r: bool)
        ensures
            r == (self.status == LiveLaunchPlanStatus::Runnable),
    {
        self.status == LiveLaunchPlanStatus::Runnable
    }

    /// Render the plan as stable diagnostic lines: the header, then the
    /// lines of each channel in order.
    pub fn render_lines(&self) -> (r: Vec<String>)
        ensures
            string_views(r@) == plan_header(
                self.status,
                self.gateway_url@,
                self.channels@.len(),
            ) + channels_lines(channel_views(self.channels@)),
    {
        let mut lines: Vec<String> = Vec::new();
        lines.push(kv("live_plan_status", self.status.as_str()));
        lines.push(kv("live_gateway_url", self.gateway_url.as_str()));
        let count = u64_to_string(self.channels.len() as u64);
        lines.push(kv("live_channel_count", count.as_str()));
        let ghost header = plan_header(self.status, self.gateway_url@, self.channels@.len());
        let ghost cs = channel_views(self.channels@);
        assert(string_views(lines@) =~= header);
        let mut i: usize = 0;
        while i < self.channels.len()
            invariant
                i <= self.channels@.len(),
                cs == channel_views(self.channels@),
                string_views(lines@) == header + channels_lines(cs.take(i as int)),
            decreases self.channels@.len() - i,
        {
            let part = self.channels[i].render_lines();
            let ghost before = lines@;
            let mut j: usize = 0;
            while j < part.len()
                invariant
                    j <= part@.len(),
                    string_views(lines@) == string_views(before) + string_views(part@).take(
                        j as int,
                    ),
                decreases part@.len() - j,
            {
                let ghost prev = lines@;
                let line = String::from_str(part[j].as_str());
                lines.push(line);
                assert(string_views(lines@) =~= string_views(prev).push(part@[j as int]@));
                assert(string_views(part@).take(j + 1) =~= string_views(part@).take(j as int).push(
                    part@[j as int]@,
                ));
                assert(string_views(lines@) =~= string_views(before) + string_views(part@).take(
                    j + 1,
                ));
                j += 1;
            }
            assert(string_views(part@).take(part@.len() as int) == string_views(part@));
            assert(cs.take(i + 1).drop_last() == cs.take(i as int));
            assert(cs.take(i + 1).last() == self.channels@[i as int]@);
            assert(string_views(lines@) =~= header + channels_lines(cs.take(i + 1)));
            i += 1;
        }
        assert(cs.take(self.channels@.len() as int) == cs);
        lines
    }
}

} // verus!
