//! Environment-backed runtime configuration.
//!
//! The configuration is read from twelve `LINGCHONG_*` variables. Values are
//! trimmed and blank values count as unset. Only the presence of tokens and
//! secrets is kept, never their values.

use vstd::prelude::*;
use crate::decimal::{nat_decimal, parse_u16, parse_u16_chars, parse_u16_str, u64_to_string};
use crate::text::{
    lemma_rfind_char, push_char, seq_eq, string_views,
    TrimClass, chars_of, concat2, concat3, is_one_of, one_of, rfind_char, rfind_char_exec,
    slice_subrange, string_of, trim, trim_chars, trim_str, trim_ws,
};

verus! {

/// Name of the variable holding the external agent gateway URL.
pub const AGENT_GATEWAY_URL_ENV: &'static str = "LINGCHONG_AGENT_GATEWAY_URL";

/// Name of the variable holding the Telegram bot token.
pub const TELEGRAM_BOT_TOKEN_ENV: &'static str = "LINGCHONG_TELEGRAM_BOT_TOKEN";

/// Name of the variable holding the Telegram webhook secret.
pub const TELEGRAM_WEBHOOK_SECRET_ENV: &'static str = "LINGCHONG_TELEGRAM_WEBHOOK_SECRET";

/// Name of the variable holding the Telegram webhook bind address.
pub const TELEGRAM_WEBHOOK_BIND_ENV: &'static str = "LINGCHONG_TELEGRAM_WEBHOOK_BIND";

/// Name of the variable holding the Telegram webhook port.
pub const TELEGRAM_WEBHOOK_PORT_ENV: &'static str = "LINGCHONG_TELEGRAM_WEBHOOK_PORT";

/// Name of the variable holding the Telegram API base URL.
pub const TELEGRAM_API_BASE_URL_ENV: &'static str = "LINGCHONG_TELEGRAM_API_BASE_URL";

/// Name of the variable holding the Discord bot token.
pub const DISCORD_BOT_TOKEN_ENV: &'static str = "LINGCHONG_DISCORD_BOT_TOKEN";

/// Name of the variable holding the Discord ingress secret.
pub const DISCORD_INGRESS_SECRET_ENV: &'static str = "LINGCHONG_DISCORD_INGRESS_SECRET";

/// Name of the variable holding the Discord ingress bind address.
pub const DISCORD_INGRESS_BIND_ENV: &'static str = "LINGCHONG_DISCORD_INGRESS_BIND";

/// Name of the variable holding the Discord ingress path.
pub const DISCORD_INGRESS_PATH_ENV: &'static str = "LINGCHONG_DISCORD_INGRESS_PATH";

/// Name of the variable holding the Discord ingress URL.
pub const DISCORD_INGRESS_URL_ENV: &'static str = "LINGCHONG_DISCORD_INGRESS_URL";

/// Name of the variable holding the Discord mention requirement.
pub const DISCORD_REQUIRE_MENTION_ENV: &'static str = "LINGCHONG_DISCORD_REQUIRE_MENTION";

/// Telegram API base URL used when none is configured.
pub const DEFAULT_TELEGRAM_API_BASE_URL: &'static str = "https://api.telegram.org";

/// Telegram webhook port used when neither the port nor the bind address
/// gives one.
pub const DEFAULT_TELEGRAM_WEBHOOK_PORT: u16 = 18081;

/// Discord ingress bind address used when none is configured.
pub const DEFAULT_DISCORD_INGRESS_BIND: &'static str = "127.0.0.1:18082";

/// Discord ingress path used when none is configured.
pub const DEFAULT_DISCORD_INGRESS_PATH: &'static str = "/discord/ingress";

/// Host that local probe URLs use in place of a wildcard or missing host.
pub const DEFAULT_LOCAL_HOST: &'static str = "127.0.0.1";

/// Path of the Telegram webhook.
pub const TELEGRAM_WEBHOOK_PATH: &'static str = "/telegram/webhook";

/// External agent gateway URL.
#[derive(Debug, Clone, PartialEq, Eq)]
pub struct AgentGatewayUrl(String);

impl View for AgentGatewayUrl {
    type V = Seq<char>;

    closed spec fn view(&self) -> Seq<char> {
        self.0@
    }
}

impl AgentGatewayUrl {
    /// Create a gateway URL value.
    pub fn new(value: &str) -> (r: Self)
        ensures
            r@ == value@,
    {
        Self(String::from_str(value))
    }

    /// Return the URL as a string slice.
    pub fn as_str(&self) -> (s: &str)
        ensures
            s@ == self@,
    {
        self.0.as_str()
    }

    fn duplicate(&self) -> (r: Self)
        ensures
            r@ == self@,
    {
        Self(self.0.clone())
    }
}

/// Channel HTTP bind address.
#[derive(Debug, Clone, PartialEq, Eq)]
pub struct ChannelBindAddress(String);

impl View for ChannelBindAddress {
    type V = Seq<char>;

    closed spec fn view(&self) -> Seq<char> {
        self.0@
    }
}

impl ChannelBindAddress {
    /// Create a bind address value.
    pub fn new(value: &str) -> (r: Self)
        ensures
            r@ == value@,
    {
        Self(String::from_str(value))
    }

    /// Return the bind address as a string slice.
    pub fn as_str(&self) -> (s: &str)
        ensures
            s@ == self@,
    {
        self.0.as_str()
    }

    fn duplicate(&self) -> (r: Self)
        ensures
            r@ == self@,
    {
        Self(self.0.clone())
    }
}

/// Channel HTTP port.
#[derive(Debug, Clone, Copy, PartialEq, Eq, Structural)]
pub struct ChannelPort(u16);

impl View for ChannelPort {
    type V = u16;

    closed spec fn view(&self) -> u16 {
        self.0
    }
}

impl ChannelPort {
    /// Create a port value.
    pub fn new(value: u16) -> (r: Self)
        ensures
            r@ == value,
    {
        Self(value)
    }

    /// Return the raw port value.
    pub fn as_u16(self) -> (v: u16)
        ensures
            v == self@,
    {
        self.0
    }
}

/// Channel HTTP path.
#[derive(Debug, Clone, PartialEq, Eq)]
pub struct ChannelPath(String);

impl View for ChannelPath {
    type V = Seq<char>;

    closed spec fn view(&self) -> Seq<char> {
        self.0@
    }
}

impl ChannelPath {
    /// Create a path value.
    pub fn new(value: &str) -> (r: Self)
        ensures
            r@ == value@,
    {
        Self(String::from_str(value))
    }

    /// Return the path as a string slice.
    pub fn as_str(&self) -> (s: &str)
        ensures
            s@ == self@,
    {
        self.0.as_str()
    }

    fn duplicate(&self) -> (r: Self)
        ensures
            r@ == self@,
    {
        Self(self.0.clone())
    }
}

/// Local channel ingress or webhook URL.
#[derive(Debug, Clone, PartialEq, Eq)]
pub struct ChannelLocalUrl(String);

impl View for ChannelLocalUrl {
    type V = Seq<char>;

    closed spec fn view(&self) -> Seq<char> {
        self.0@
    }
}

impl ChannelLocalUrl {
    /// Create a local URL value.
    pub fn new(value: &str) -> (r: Self)
        ensures
            r@ == value@,
    {
        Self(String::from_str(value))
    }

    /// Return the URL as a string slice.
    pub fn as_str(&self) -> (s: &str)
        ensures
            s@ == self@,
    {
        self.0.as_str()
    }

    fn duplicate(&self) -> (r: Self)
        ensures
            r@ == self@,
    {
        Self(self.0.clone())
    }
}

/// Channel API base URL.
#[derive(Debug, Clone, PartialEq, Eq)]
pub struct ChannelApiBaseUrl(String);

impl View for ChannelApiBaseUrl {
    type V = Seq<char>;

    closed spec fn view(&self) -> Seq<char> {
        self.0@
    }
}

impl ChannelApiBaseUrl {
    /// Create an API base URL value.
    pub fn new(value: &str) -> (r: Self)
        ensures
            r@ == value@,
    {
        Self(String::from_str(value))
    }

    /// Return the URL as a string slice.
    pub fn as_str(&self) -> (s: &str)
        ensures
            s@ == self@,
    {
        self.0.as_str()
    }

    fn duplicate(&self) -> (r: Self)
        ensures
            r@ == self@,
    {
        Self(self.0.clone())
    }
}

/// Runtime enablement state.
#[derive(Debug, Clone, Copy, PartialEq, Eq, Structural)]
pub enum RuntimeFlag {
    /// Runtime is enabled.
    Enabled,
    /// Runtime is disabled.
    Disabled,
}

/// The diagnostic value of a boolean state.
pub open spec fn bool_text(b: bool) -> Seq<char> {
    if b {
        "true"@
    } else {
        "false"@
    }
}

impl RuntimeFlag {
    fn from_bool(enabled: bool) -> (r: Self)
        ensures
            r == (if enabled {
                RuntimeFlag::Enabled
            } else {
                RuntimeFlag::Disabled
            }),
    {
        if enabled {
            RuntimeFlag::Enabled
        } else {
            RuntimeFlag::Disabled
        }
    }

    fn as_str(self) -> (s: &'static str)
        ensures
            s@ == bool_text(self == RuntimeFlag::Enabled),
    {
        match self {
            RuntimeFlag::Enabled => "true",
            RuntimeFlag::Disabled => "false",
        }
    }
}

/// Secret configuration state.
#[derive(Debug, Clone, Copy, PartialEq, Eq, Structural)]
pub enum SecretFlag {
    /// Secret is configured.
    Configured,
    /// Secret is not configured.
    Missing,
}

impl SecretFlag {
    fn from_bool(configured: bool) -> (r: Self)
        ensures
            r == (if configured {
                SecretFlag::Configured
            } else {
                SecretFlag::Missing
            }),
    {
        if configured {
            SecretFlag::Configured
        } else {
            SecretFlag::Missing
        }
    }

    fn as_str(self) -> (s: &'static str)
        ensures
            s@ == bool_text(self == SecretFlag::Configured),
    {
        match self {
            SecretFlag::Configured => "true",
            SecretFlag::Missing => "false",
        }
    }
}

/// Discord mention gate policy.
#[derive(Debug, Clone, Copy, PartialEq, Eq, Structural)]
pub enum MentionPolicy {
    /// Discord messages must mention the bot before execution.
    Required,
    /// Discord messages can execute without mention.
    NotRequired,
}

impl MentionPolicy {
    fn from_bool(required: bool) -> (r: Self)
        ensures
            r == (if required {
                MentionPolicy::Required
            } else {
                MentionPolicy::NotRequired
            }),
    {
        if required {
            MentionPolicy::Required
        } else {
            MentionPolicy::NotRequired
        }
    }

    fn as_str(self) -> (s: &'static str)
        ensures
            s@ == bool_text(self == MentionPolicy::Required),
    {
        match self {
            MentionPolicy::Required => "true",
            MentionPolicy::NotRequired => "false",
        }
    }
}

/// Runtime configuration loading error.
#[derive(Debug, Clone, PartialEq, Eq)]
pub enum RuntimeConfigError {
    /// Required environment variable is missing or blank.
    MissingRequiredEnv {
        /// Environment variable name.
        name: &'static str,
    },
    /// Boolean environment variable has an invalid value.
    InvalidBoolEnv {
        /// Environment variable name.
        name: &'static str,
        /// Invalid raw value.
        value: String,
    },
    /// Port environment variable has an invalid value.
    InvalidPortEnv {
        /// Environment variable name.
        name: &'static str,
        /// Invalid raw value.
        value: String,
    },
}

/// The content of a configuration error.
pub enum RuntimeConfigErrorView {
    /// The named required variable is missing or blank.
    MissingRequiredEnv(Seq<char>),
    /// The named boolean variable holds the given value.
    InvalidBoolEnv(Seq<char>, Seq<char>),
    /// The named port variable holds the given value.
    InvalidPortEnv(Seq<char>, Seq<char>),
}

impl View for RuntimeConfigError {
    type V = RuntimeConfigErrorView;

    open spec fn view(&self) -> RuntimeConfigErrorView {
        match self {
            RuntimeConfigError::MissingRequiredEnv { name } => RuntimeConfigErrorView::MissingRequiredEnv(
                name@,
            ),
            RuntimeConfigError::InvalidBoolEnv { name, value } => RuntimeConfigErrorView::InvalidBoolEnv(
                name@,
                value@,
            ),
            RuntimeConfigError::InvalidPortEnv { name, value } => RuntimeConfigErrorView::InvalidPortEnv(
                name@,
                value@,
            ),
        }
    }
}

/// What `{:?}` writes for a string slice: its characters between double
/// quotes, with quotes, backslashes and non-printable characters escaped.
pub uninterp spec fn debug_quoted(s: Seq<char>) -> Seq<char>;

/// The `Debug` rendering of a string slice (std `<str as Debug>::fmt`, run
/// through `format!`). Its result is named by [`debug_quoted`]; the escaping
/// rules themselves are not restated here.
#[verifier::external_body]
fn debug_str(s: &str) -> (r: String)
    ensures
        r@ == debug_quoted(s@),
{
    format!("{:?}", s)
}

/// The diagnostic text of a configuration error.
pub open spec fn error_text(e: RuntimeConfigErrorView) -> Seq<char> {
    match e {
        RuntimeConfigErrorView::MissingRequiredEnv(name) => "required environment variable "@ + name
            + " is missing"@,
        RuntimeConfigErrorView::InvalidBoolEnv(name, value) => "environment variable "@ + name
            + " has invalid boolean value "@ + debug_quoted(value),
        RuntimeConfigErrorView::InvalidPortEnv(name, value) => "environment variable "@ + name
            + " has invalid port value "@ + debug_quoted(value),
    }
}

impl RuntimeConfigError {
    /// The diagnostic text of the error (its `Display` form).
    pub fn describe(&self) -> (s: String)
        ensures
            s@ == error_text(self@),
    {
        match self {
            RuntimeConfigError::MissingRequiredEnv { name } => {
                let mut s = concat2("required environment variable ", name);
                s.append(" is missing");
                s
            },
            RuntimeConfigError::InvalidBoolEnv { name, value } => {
                let mut s = concat2("environment variable ", name);
                s.append(" has invalid boolean value ");
                let q = debug_str(value.as_str());
                s.append(q.as_str());
                s
            },
            RuntimeConfigError::InvalidPortEnv { name, value } => {
                let mut s = concat2("environment variable ", name);
                s.append(" has invalid port value ");
                let q = debug_str(value.as_str());
                s.append(q.as_str());
                s
            },
        }
    }
}

// ---------------------------------------------------------------------------
// Reading single variables
// ---------------------------------------------------------------------------

/// The views of an optional value.
pub open spec fn opt_view<T: View>(o: Option<T>) -> Option<T::V> {
    match o {
        Some(t) => Some(t@),
        None => None,
    }
}

/// A variable's setting: its value without surrounding white space, or
/// `None` when the variable is unset or blank.
pub open spec fn setting(raw: Option<Seq<char>>) -> Option<Seq<char>> {
    match raw {
        Some(v) => if trim_ws(v).len() > 0 {
            Some(trim_ws(v))
        } else {
            None
        },
        None => None,
    }
}

/// The boolean a word stands for, if it is one of the accepted spellings.
pub open spec fn flag_word(v: Seq<char>) -> Option<bool> {
    if is_one_of(v, seq!["1", "true", "TRUE", "True", "yes", "YES", "on", "ON"]) {
        Some(true)
    } else if is_one_of(v, seq!["0", "false", "FALSE", "False", "no", "NO", "off", "OFF"]) {
        Some(false)
    } else {
        None
    }
}

/// The port after the last `:` of a bind address, when it reads as a
/// non-zero `u16`.
pub open spec fn port_in_bind(bind: Seq<char>) -> Option<u16> {
    match rfind_char(bind, ':') {
        Some(i) => match parse_u16(bind.skip(i + 1)) {
            Some(p) => if p > 0 {
                Some(p)
            } else {
                None
            },
            None => None,
        },
        None => None,
    }
}

/// An ingress path, trimmed and starting with `/`; blank means the default
/// Discord ingress path.
pub open spec fn normalized_path(path: Seq<char>) -> Seq<char> {
    let t = trim_ws(path);
    if t.len() == 0 {
        DEFAULT_DISCORD_INGRESS_PATH@
    } else if t[0] == '/' {
        t
    } else {
        seq!['/'] + t
    }
}

/// The `host:port` a local probe URL uses for a bind address: a wildcard or
/// empty host becomes the loopback host, brackets around the host are
/// dropped, and a bare port gets the loopback host.
pub open spec fn local_bind(bind: Seq<char>) -> Seq<char> {
    let t = trim_ws(bind);
    if t.len() == 0 {
        DEFAULT_DISCORD_INGRESS_BIND@
    } else {
        match rfind_char(t, ':') {
            None => DEFAULT_LOCAL_HOST@.push(':') + t,
            Some(i) => {
                let host = trim(TrimClass::Bracket, trim_ws(t.take(i)));
                let h = if host.len() == 0 || host == "0.0.0.0"@ || host == "::"@ {
                    DEFAULT_LOCAL_HOST@
                } else {
                    host
                };
                h.push(':') + trim_ws(t.skip(i + 1))
            },
        }
    }
}

/// The local probe URL for a bind address and a path.
pub open spec fn local_url(bind: Seq<char>, path: Seq<char>) -> Seq<char> {
    "http://"@ + local_bind(bind) + normalized_path(path)
}

fn setting_of(raw: &Option<String>) -> (r: Option<String>)
    ensures
        opt_view(r) == setting(opt_view(*raw)),
{
    match raw {
        Some(v) => {
            let t = trim_str(v.as_str());
            if t.len() > 0 {
                Some(string_of(&t))
            } else {
                None
            }
        },
        None => None,
    }
}

fn flag_word_of(v: &str) -> (r: Option<bool>)
    ensures
        r == flag_word(v@),
{
    let cs = chars_of(v);
    let yes: [&str; 8] = ["1", "true", "TRUE", "True", "yes", "YES", "on", "ON"];
    let no: [&str; 8] = ["0", "false", "FALSE", "False", "no", "NO", "off", "OFF"];
    assert(yes@ == seq!["1", "true", "TRUE", "True", "yes", "YES", "on", "ON"]);
    assert(no@ == seq!["0", "false", "FALSE", "False", "no", "NO", "off", "OFF"]);
    if one_of(&cs, &yes) {
        Some(true)
    } else if one_of(&cs, &no) {
        Some(false)
    } else {
        None
    }
}

fn port_from_bind(bind: &str) -> (r: Option<u16>)
    ensures
        r == port_in_bind(bind@),
{
    let cs = chars_of(bind);
    proof {
        lemma_rfind_char(cs@, ':');
    }
    match rfind_char_exec(&cs, ':') {
        Some(i) => {
            let raw = slice_subrange(&cs, i + 1, cs.len());
            assert(raw@ == cs@.skip(i + 1));
            match parse_u16_chars(&raw) {
                Some(p) => if p > 0 {
                    Some(p)
                } else {
                    None
                },
                None => None,
            }
        },
        None => None,
    }
}

/// Appends the characters `cs` to `s`.
fn append_chars(s: &mut String, cs: &[char])
    ensures
        final(s)@ == old(s)@ + cs@,
{
    let t = string_of(cs);
    s.append(t.as_str());
}

fn normalize_path(path: &str) -> (r: String)
    ensures
        r@ == normalized_path(path@),
{
    let t = trim_str(path);
    if t.len() == 0 {
        String::from_str(DEFAULT_DISCORD_INGRESS_PATH)
    } else if t[0] == '/' {
        string_of(&t)
    } else {
        let mut s = String::new();
        push_char(&mut s, '/');
        append_chars(&mut s, &t);
        s
    }
}

fn normalize_bind_for_local_url(bind: &str) -> (r: String)
    ensures
        r@ == local_bind(bind@),
{
    let t = trim_str(bind);
    if t.len() == 0 {
        return String::from_str(DEFAULT_DISCORD_INGRESS_BIND);
    }
    proof {
        lemma_rfind_char(t@, ':');
    }
    match rfind_char_exec(&t, ':') {
        None => {
            let mut s = String::from_str(DEFAULT_LOCAL_HOST);
            push_char(&mut s, ':');
            append_chars(&mut s, &t);
            s
        },
        Some(i) => {
            let host_raw = slice_subrange(&t, 0, i);
            let host_ws = trim_chars(TrimClass::Whitespace, &host_raw);
            let host = trim_chars(TrimClass::Bracket, &host_ws);
            let port_raw = slice_subrange(&t, i + 1, t.len());
            let port = trim_chars(TrimClass::Whitespace, &port_raw);
            assert(host_raw@ == t@.take(i as int));
            assert(port_raw@ == t@.skip(i + 1));
            let any_v4 = chars_of("0.0.0.0");
            let any_v6 = chars_of("::");
            let mut s = if host.len() == 0 || seq_eq(&host, &any_v4) || seq_eq(&host, &any_v6) {
                String::from_str(DEFAULT_LOCAL_HOST)
            } else {
                string_of(&host)
            };
            push_char(&mut s, ':');
            append_chars(&mut s, &port);
            s
        },
    }
}

fn default_local_url(bind: &str, path: &str) -> (r: String)
    ensures
        r@ == local_url(bind@, path@),
{
    let mut s = String::from_str("http://");
    let b = normalize_bind_for_local_url(bind);
    let p = normalize_path(path);
    s.append(b.as_str());
    s.append(p.as_str());
    s
}

// ---------------------------------------------------------------------------
// Configuration
// ---------------------------------------------------------------------------

/// External agent gateway runtime configuration.
#[derive(Debug, Clone, PartialEq, Eq)]
pub struct AgentRuntimeConfig {
    /// Base URL for the external agent gateway.
    pub gateway_url: AgentGatewayUrl,
}

/// Runtime configuration for one chat channel.
#[derive(Debug, Clone, PartialEq, Eq)]
pub struct ChannelRuntimeConfig {
    /// Whether the channel has enough local configuration to start.
    pub enabled: RuntimeFlag,
    /// Whether an inbound or outbound secret was configured.
    pub secret_configured: SecretFlag,
    /// Optional inbound HTTP bind address for webhook or ingress mode.
    pub inbound_bind: Option<ChannelBindAddress>,
    /// Optional inbound HTTP port for webhook or ingress mode.
    pub inbound_port: Option<ChannelPort>,
    /// Optional inbound HTTP path for webhook or ingress mode.
    pub inbound_path: Option<ChannelPath>,
    /// Optional local URL for webhook or ingress probes.
    pub inbound_url: Option<ChannelLocalUrl>,
    /// Optional channel API base URL.
    pub api_base_url: Option<ChannelApiBaseUrl>,
    /// Whether Discord messages must mention the bot before turn execution.
    pub require_mention: MentionPolicy,
}

/// Complete bot runtime configuration.
#[derive(Debug, Clone, PartialEq, Eq)]
pub struct RuntimeConfig {
    /// External agent gateway configuration.
    pub agent: AgentRuntimeConfig,
    /// Telegram runtime configuration.
    pub telegram: ChannelRuntimeConfig,
    /// Discord runtime configuration.
    pub discord: ChannelRuntimeConfig,
}

/// The content of a channel configuration.
pub struct ChannelConfigView {
    /// Whether the channel is enabled.
    pub enabled: RuntimeFlag,
    /// Whether its secret is configured.
    pub secret_configured: SecretFlag,
    /// Inbound bind address.
    pub inbound_bind: Option<Seq<char>>,
    /// Inbound port.
    pub inbound_port: Option<u16>,
    /// Inbound path.
    pub inbound_path: Option<Seq<char>>,
    /// Local probe URL.
    pub inbound_url: Option<Seq<char>>,
    /// API base URL.
    pub api_base_url: Option<Seq<char>>,
    /// Mention policy.
    pub require_mention: MentionPolicy,
}

/// The content of a runtime configuration.
pub struct RuntimeConfigView {
    /// Gateway base URL.
    pub gateway_url: Seq<char>,
    /// Telegram channel.
    pub telegram: ChannelConfigView,
    /// Discord channel.
    pub discord: ChannelConfigView,
}

impl View for ChannelRuntimeConfig {
    type V = ChannelConfigView;

    open spec fn view(&self) -> ChannelConfigView {
        ChannelConfigView {
            enabled: self.enabled,
            secret_configured: self.secret_configured,
            inbound_bind: opt_view(self.inbound_bind),
            inbound_port: opt_view(self.inbound_port),
            inbound_path: opt_view(self.inbound_path),
            inbound_url: opt_view(self.inbound_url),
            api_base_url: opt_view(self.api_base_url),
            require_mention: self.require_mention,
        }
    }
}

impl View for RuntimeConfig {
    type V = RuntimeConfigView;

    open spec fn view(&self) -> RuntimeConfigView {
        RuntimeConfigView {
            gateway_url: self.agent.gateway_url@,
            telegram: self.telegram@,
            discord: self.discord@,
        }
    }
}

/// Raw values of the configuration variables, as an environment lookup
/// gave them (`None` for an unset variable).
#[derive(Debug, Clone, PartialEq, Eq)]
pub struct RuntimeEnv {
    /// `LINGCHONG_AGENT_GATEWAY_URL`.
    pub agent_gateway_url: Option<String>,
    /// `LINGCHONG_TELEGRAM_BOT_TOKEN`.
    pub telegram_bot_token: Option<String>,
    /// `LINGCHONG_TELEGRAM_WEBHOOK_SECRET`.
    pub telegram_webhook_secret: Option<String>,
    /// `LINGCHONG_TELEGRAM_WEBHOOK_BIND`.
    pub telegram_webhook_bind: Option<String>,
    /// `LINGCHONG_TELEGRAM_WEBHOOK_PORT`.
    pub telegram_webhook_port: Option<String>,
    /// `LINGCHONG_TELEGRAM_API_BASE_URL`.
    pub telegram_api_base_url: Option<String>,
    /// `LINGCHONG_DISCORD_BOT_TOKEN`.
    pub discord_bot_token: Option<String>,
    /// `LINGCHONG_DISCORD_INGRESS_SECRET`.
    pub discord_ingress_secret: Option<String>,
    /// `LINGCHONG_DISCORD_INGRESS_BIND`.
    pub discord_ingress_bind: Option<String>,
    /// `LINGCHONG_DISCORD_INGRESS_PATH`.
    pub discord_ingress_path: Option<String>,
    /// `LINGCHONG_DISCORD_INGRESS_URL`.
    pub discord_ingress_url: Option<String>,
    /// `LINGCHONG_DISCORD_REQUIRE_MENTION`.
    pub discord_require_mention: Option<String>,
}

/// The content of a [`RuntimeEnv`].
pub struct RuntimeEnvView {
    /// Gateway URL variable.
    pub agent_gateway_url: Option<Seq<char>>,
    /// Telegram token variable.
    pub telegram_bot_token: Option<Seq<char>>,
    /// Telegram secret variable.
    pub telegram_webhook_secret: Option<Seq<char>>,
    /// Telegram bind variable.
    pub telegram_webhook_bind: Option<Seq<char>>,
    /// Telegram port variable.
    pub telegram_webhook_port: Option<Seq<char>>,
    /// Telegram API variable.
    pub telegram_api_base_url: Option<Seq<char>>,
    /// Discord token variable.
    pub discord_bot_token: Option<Seq<char>>,
    /// Discord secret variable.
    pub discord_ingress_secret: Option<Seq<char>>,
    /// Discord bind variable.
    pub discord_ingress_bind: Option<Seq<char>>,
    /// Discord path variable.
    pub discord_ingress_path: Option<Seq<char>>,
    /// Discord URL variable.
    pub discord_ingress_url: Option<Seq<char>>,
    /// Discord mention variable.
    pub discord_require_mention: Option<Seq<char>>,
}

impl View for RuntimeEnv {
    type V = RuntimeEnvView;

    open spec fn view(&self) -> RuntimeEnvView {
        RuntimeEnvView {
            agent_gateway_url: opt_view(self.agent_gateway_url),
            telegram_bot_token: opt_view(self.telegram_bot_token),
            telegram_webhook_secret: opt_view(self.telegram_webhook_secret),
            telegram_webhook_bind: opt_view(self.telegram_webhook_bind),
            telegram_webhook_port: opt_view(self.telegram_webhook_port),
            telegram_api_base_url: opt_view(self.telegram_api_base_url),
            discord_bot_token: opt_view(self.discord_bot_token),
            discord_ingress_secret: opt_view(self.discord_ingress_secret),
            discord_ingress_bind: opt_view(self.discord_ingress_bind),
            discord_ingress_path: opt_view(self.discord_ingress_path),
            discord_ingress_url: opt_view(self.discord_ingress_url),
            discord_require_mention: opt_view(self.discord_require_mention),
        }
    }
}

impl RuntimeEnv {
    /// Whether every field holds what `lookup` may return for its variable.
    pub open spec fn read_by<F: Fn(&str) -> Option<String>>(&self, lookup: F) -> bool {
        &&& call_ensures(lookup, (AGENT_GATEWAY_URL_ENV,), self.agent_gateway_url)
        &&& call_ensures(lookup, (TELEGRAM_BOT_TOKEN_ENV,), self.telegram_bot_token)
        &&& call_ensures(lookup, (TELEGRAM_WEBHOOK_SECRET_ENV,), self.telegram_webhook_secret)
        &&& call_ensures(lookup, (TELEGRAM_WEBHOOK_BIND_ENV,), self.telegram_webhook_bind)
        &&& call_ensures(lookup, (TELEGRAM_WEBHOOK_PORT_ENV,), self.telegram_webhook_port)
        &&& call_ensures(lookup, (TELEGRAM_API_BASE_URL_ENV,), self.telegram_api_base_url)
        &&& call_ensures(lookup, (DISCORD_BOT_TOKEN_ENV,), self.discord_bot_token)
        &&& call_ensures(lookup, (DISCORD_INGRESS_SECRET_ENV,), self.discord_ingress_secret)
        &&& call_ensures(lookup, (DISCORD_INGRESS_BIND_ENV,), self.discord_ingress_bind)
        &&& call_ensures(lookup, (DISCORD_INGRESS_PATH_ENV,), self.discord_ingress_path)
        &&& call_ensures(lookup, (DISCORD_INGRESS_URL_ENV,), self.discord_ingress_url)
        &&& call_ensures(lookup, (DISCORD_REQUIRE_MENTION_ENV,), self.discord_require_mention)
    }

    /// Look every configuration variable up once.
    pub fn read<F: Fn(&str) -> Option<String>>(lookup: F) -> (env: Self)
        requires
            forall|k: &str| call_requires(lookup, (k,)),
        ensures
            env.read_by(lookup),
    {
        RuntimeEnv {
            agent_gateway_url: lookup(AGENT_GATEWAY_URL_ENV),
            telegram_bot_token: lookup(TELEGRAM_BOT_TOKEN_ENV),
            telegram_webhook_secret: lookup(TELEGRAM_WEBHOOK_SECRET_ENV),
            telegram_webhook_bind: lookup(TELEGRAM_WEBHOOK_BIND_ENV),
            telegram_webhook_port: lookup(TELEGRAM_WEBHOOK_PORT_ENV),
            telegram_api_base_url: lookup(TELEGRAM_API_BASE_URL_ENV),
            discord_bot_token: lookup(DISCORD_BOT_TOKEN_ENV),
            discord_ingress_secret: lookup(DISCORD_INGRESS_SECRET_ENV),
            discord_ingress_bind: lookup(DISCORD_INGRESS_BIND_ENV),
            discord_ingress_path: lookup(DISCORD_INGRESS_PATH_ENV),
            discord_ingress_url: lookup(DISCORD_INGRESS_URL_ENV),
            discord_require_mention: lookup(DISCORD_REQUIRE_MENTION_ENV),
        }
    }
}

/// The Telegram webhook port: the port variable when set (it must read as a
/// non-zero `u16`), else the port in the bind address, else the default.
pub open spec fn telegram_port(e: RuntimeEnvView) -> Result<u16, RuntimeConfigErrorView> {
    match setting(e.telegram_webhook_port) {
        Some(v) => match parse_u16(v) {
            Some(p) => if p > 0 {
                Ok(p)
            } else {
                Err(RuntimeConfigErrorView::InvalidPortEnv(TELEGRAM_WEBHOOK_PORT_ENV@, v))
            },
            None => Err(RuntimeConfigErrorView::InvalidPortEnv(TELEGRAM_WEBHOOK_PORT_ENV@, v)),
        },
        None => match setting(e.telegram_webhook_bind) {
            Some(b) => match port_in_bind(b) {
                Some(p) => Ok(p),
                None => Ok(DEFAULT_TELEGRAM_WEBHOOK_PORT),
            },
            None => Ok(DEFAULT_TELEGRAM_WEBHOOK_PORT),
        },
    }
}

/// Whether Discord requires a mention: the boolean variable when set,
/// `true` otherwise.
pub open spec fn mention_setting(e: RuntimeEnvView) -> Result<bool, RuntimeConfigErrorView> {
    match setting(e.discord_require_mention) {
        Some(v) => match flag_word(v) {
            Some(b) => Ok(b),
            None => Err(RuntimeConfigErrorView::InvalidBoolEnv(DISCORD_REQUIRE_MENTION_ENV@, v)),
        },
        None => Ok(true),
    }
}

/// The Discord ingress bind address.
pub open spec fn discord_bind(e: RuntimeEnvView) -> Seq<char> {
    match setting(e.discord_ingress_bind) {
        Some(b) => b,
        None => DEFAULT_DISCORD_INGRESS_BIND@,
    }
}

/// The Discord ingress path.
pub open spec fn discord_path(e: RuntimeEnvView) -> Seq<char> {
    match setting(e.discord_ingress_path) {
        Some(p) => normalized_path(p),
        None => DEFAULT_DISCORD_INGRESS_PATH@,
    }
}

/// The Discord local ingress URL: the URL variable when set, else the URL
/// made of the bind address and the path.
pub open spec fn discord_url(e: RuntimeEnvView) -> Seq<char> {
    match setting(e.discord_ingress_url) {
        Some(u) => u,
        None => local_url(discord_bind(e), discord_path(e)),
    }
}

/// The Telegram channel of a configuration read with webhook port `port`.
pub open spec fn telegram_channel(e: RuntimeEnvView, port: u16) -> ChannelConfigView {
    ChannelConfigView {
        enabled: if setting(e.telegram_bot_token) is Some {
            RuntimeFlag::Enabled
        } else {
            RuntimeFlag::Disabled
        },
        secret_configured: if setting(e.telegram_webhook_secret) is Some {
            SecretFlag::Configured
        } else {
            SecretFlag::Missing
        },
        inbound_bind: setting(e.telegram_webhook_bind),
        inbound_port: Some(port),
        inbound_path: Some(TELEGRAM_WEBHOOK_PATH@),
        inbound_url: None,
        api_base_url: match setting(e.telegram_api_base_url) {
            Some(u) => Some(u),
            None => Some(DEFAULT_TELEGRAM_API_BASE_URL@),
        },
        require_mention: MentionPolicy::NotRequired,
    }
}

/// The Discord channel of a configuration read with mention requirement
/// `mention`.
pub open spec fn discord_channel(e: RuntimeEnvView, mention: bool) -> ChannelConfigView {
    ChannelConfigView {
        enabled: if setting(e.discord_bot_token) is Some {
            RuntimeFlag::Enabled
        } else {
            RuntimeFlag::Disabled
        },
        secret_configured: if setting(e.discord_ingress_secret) is Some {
            SecretFlag::Configured
        } else {
            SecretFlag::Missing
        },
        inbound_bind: Some(discord_bind(e)),
        inbound_port: None,
        inbound_path: Some(discord_path(e)),
        inbound_url: Some(discord_url(e)),
        api_base_url: None,
        require_mention: if mention {
            MentionPolicy::Required
        } else {
            MentionPolicy::NotRequired
        },
    }
}

/// The configuration that the variables `e` give, or the first error: a
/// missing gateway URL, then an invalid Telegram port, then an invalid
/// mention flag.
pub open spec fn config_of(e: RuntimeEnvView) -> Result<RuntimeConfigView, RuntimeConfigErrorView> {
    match setting(e.agent_gateway_url) {
        None => Err(RuntimeConfigErrorView::MissingRequiredEnv(AGENT_GATEWAY_URL_ENV@)),
        Some(url) => match telegram_port(e) {
            Err(err) => Err(err),
            Ok(port) => match mention_setting(e) {
                Err(err) => Err(err),
                Ok(mention) => Ok(
                    RuntimeConfigView {
                        gateway_url: url,
                        telegram: telegram_channel(e, port),
                        discord: discord_channel(e, mention),
                    },
                ),
            },
        },
    }
}

/// The content of a configuration result.
pub open spec fn config_outcome(r: Result<RuntimeConfig, RuntimeConfigError>) -> Result<
    RuntimeConfigView,
    RuntimeConfigErrorView,
> {
    match r {
        Ok(c) => Ok(c@),
        Err(e) => Err(e@),
    }
}

fn resolve_telegram_port(env: &RuntimeEnv, bind: &Option<String>) -> (r: Result<
    u16,
    RuntimeConfigError,
>)
    requires
        opt_view(*bind) == setting(env@.telegram_webhook_bind),
    ensures
        match r {
            Ok(p) => telegram_port(env@) == Ok::<u16, RuntimeConfigErrorView>(p),
            Err(e) => telegram_port(env@) == Err::<u16, RuntimeConfigErrorView>(e@),
        },
{
    match setting_of(&env.telegram_webhook_port) {
        Some(v) => match parse_u16_str(v.as_str()) {
            Some(p) => if p > 0 {
                Ok(p)
            } else {
                Err(RuntimeConfigError::InvalidPortEnv { name: TELEGRAM_WEBHOOK_PORT_ENV, value: v })
            },
            None => Err(
                RuntimeConfigError::InvalidPortEnv { name: TELEGRAM_WEBHOOK_PORT_ENV, value: v },
            ),
        },
        None => match bind {
            Some(b) => match port_from_bind(b.as_str()) {
                Some(p) => Ok(p),
                None => Ok(DEFAULT_TELEGRAM_WEBHOOK_PORT),
            },
            None => Ok(DEFAULT_TELEGRAM_WEBHOOK_PORT),
        },
    }
}

fn resolve_mention(env: &RuntimeEnv) -> (r: Result<bool, RuntimeConfigError>)
    ensures
        match r {
            Ok(b) => mention_setting(env@) == Ok::<bool, RuntimeConfigErrorView>(b),
            Err(e) => mention_setting(env@) == Err::<bool, RuntimeConfigErrorView>(e@),
        },
{
    match setting_of(&env.discord_require_mention) {
        Some(v) => match flag_word_of(v.as_str()) {
            Some(b) => Ok(b),
            None => Err(
                RuntimeConfigError::InvalidBoolEnv { name: DISCORD_REQUIRE_MENTION_ENV, value: v },
            ),
        },
        None => Ok(true),
    }
}

fn or_default(v: Option<String>, default: &str) -> (r: String)
    ensures
        r@ == match opt_view(v) {
            Some(s) => s,
            None => default@,
        },
{
    match v {
        Some(s) => s,
        None => String::from_str(default),
    }
}

impl RuntimeConfig {
    /// Build the configuration from the raw values of the variables.
    ///
    /// Returns [`RuntimeConfigError`] when the gateway URL is missing or a
    /// value is invalid, exactly as [`config_of`] says.
    pub fn from_env_values(env: &RuntimeEnv) -> (r: Result<Self, RuntimeConfigError>)
        ensures
            config_outcome(r) == config_of(env@),
    {
        let gateway_url = match setting_of(&env.agent_gateway_url) {
            Some(v) => v,
            None => {
                return Err(RuntimeConfigError::MissingRequiredEnv { name: AGENT_GATEWAY_URL_ENV });
            },
        };
        let telegram_token = setting_of(&env.telegram_bot_token);
        let telegram_secret = setting_of(&env.telegram_webhook_secret);
        let telegram_bind = setting_of(&env.telegram_webhook_bind);
        let telegram_port = match resolve_telegram_port(env, &telegram_bind) {
            Ok(p) => p,
            Err(e) => {
                return Err(e);
            },
        };
        let telegram_api = or_default(
            setting_of(&env.telegram_api_base_url),
            DEFAULT_TELEGRAM_API_BASE_URL,
        );
        let discord_token = setting_of(&env.discord_bot_token);
        let discord_secret = setting_of(&env.discord_ingress_secret);
        let discord_bind = or_default(
            setting_of(&env.discord_ingress_bind),
            DEFAULT_DISCORD_INGRESS_BIND,
        );
        let discord_path = match setting_of(&env.discord_ingress_path) {
            Some(p) => normalize_path(p.as_str()),
            None => String::from_str(DEFAULT_DISCORD_INGRESS_PATH),
        };
        let discord_url = match setting_of(&env.discord_ingress_url) {
            Some(u) => u,
            None => default_local_url(discord_bind.as_str(), discord_path.as_str()),
        };
        let mention = match resolve_mention(env) {
            Ok(b) => b,
            Err(e) => {
                return Err(e);
            },
        };
        let telegram_bind = match telegram_bind {
            Some(b) => Some(ChannelBindAddress::new(b.as_str())),
            None => None,
        };
        let config = RuntimeConfig {
            agent: AgentRuntimeConfig { gateway_url: AgentGatewayUrl::new(gateway_url.as_str()) },
            telegram: ChannelRuntimeConfig {
                enabled: RuntimeFlag::from_bool(telegram_token.is_some()),
                secret_configured: SecretFlag::from_bool(telegram_secret.is_some()),
                inbound_bind: telegram_bind,
                inbound_port: Some(ChannelPort::new(telegram_port)),
                inbound_path: Some(ChannelPath::new(TELEGRAM_WEBHOOK_PATH)),
                inbound_url: None,
                api_base_url: Some(ChannelApiBaseUrl::new(telegram_api.as_str())),
                require_mention: MentionPolicy::NotRequired,
            },
            discord: ChannelRuntimeConfig {
                enabled: RuntimeFlag::from_bool(discord_token.is_some()),
                secret_configured: SecretFlag::from_bool(discord_secret.is_some()),
                inbound_bind: Some(ChannelBindAddress::new(discord_bind.as_str())),
                inbound_port: None,
                inbound_path: Some(ChannelPath::new(discord_path.as_str())),
                inbound_url: Some(ChannelLocalUrl::new(discord_url.as_str())),
                api_base_url: None,
                require_mention: MentionPolicy::from_bool(mention),
            },
        };
        assert(config@.telegram == telegram_channel(env@, telegram_port));
        assert(config@.discord == discord_channel(env@, mention));
        Ok(config)
    }

    /// Load runtime configuration from an injected environment lookup, which
    /// is asked once for each variable.
    ///
    /// Returns [`RuntimeConfigError`] when required configuration is missing
    /// or a value is invalid: the result is what [`config_of`] gives for the
    /// values that the lookup returned.
    pub fn from_env_lookup<F: Fn(&str) -> Option<String>>(lookup: F) -> (r: Result<
        Self,
        RuntimeConfigError,
    >)
        requires
            forall|k: &str| call_requires(lookup, (k,)),
        ensures
            exists|env: RuntimeEnv| #[trigger] env.read_by(lookup) && config_outcome(r) == config_of(
                env@,
            ),
    {
        let env = RuntimeEnv::read(lookup);
        let r = Self::from_env_values(&env);
        assert(env.read_by(lookup) && config_outcome(r) == config_of(env@));
        r
    }
}

// ---------------------------------------------------------------------------
// Secret-safe summary
// ---------------------------------------------------------------------------

/// Secret-safe runtime configuration summary.
#[derive(Debug, Clone, PartialEq, Eq)]
pub struct RuntimeConfigSummary {
    /// Base URL for the external agent gateway.
    pub agent_gateway_url: AgentGatewayUrl,
    /// Whether Telegram runtime is enabled.
    pub telegram_runtime: RuntimeFlag,
    /// Whether Telegram webhook secret is configured.
    pub telegram_webhook_secret: SecretFlag,
    /// Telegram webhook bind address.
    pub telegram_webhook_bind: Option<ChannelBindAddress>,
    /// Telegram webhook port.
    pub telegram_webhook_port: Option<ChannelPort>,
    /// Telegram API base URL.
    pub telegram_api_base_url: Option<ChannelApiBaseUrl>,
    /// Whether Discord runtime is enabled.
    pub discord_runtime: RuntimeFlag,
    /// Whether Discord ingress secret is configured.
    pub discord_ingress_secret: SecretFlag,
    /// Discord ingress bind address.
    pub discord_ingress_bind: Option<ChannelBindAddress>,
    /// Discord ingress path.
    pub discord_ingress_path: Option<ChannelPath>,
    /// Discord local ingress URL.
    pub discord_ingress_url: Option<ChannelLocalUrl>,
    /// Whether Discord requires bot mention before handling a message.
    pub discord_mention_policy: MentionPolicy,
}

/// A copy of an optional value.
pub(crate) fn clone_bind(o: &Option<ChannelBindAddress>) -> (r: Option<ChannelBindAddress>)
    ensures
        opt_view(r) == opt_view(*o),
{
    match o {
        Some(v) => Some(v.duplicate()),
        None => None,
    }
}

/// A copy of an optional value.
pub(crate) fn clone_path(o: &Option<ChannelPath>) -> (r: Option<ChannelPath>)
    ensures
        opt_view(r) == opt_view(*o),
{
    match o {
        Some(v) => Some(v.duplicate()),
        None => None,
    }
}

/// A copy of an optional value.
pub(crate) fn clone_url(o: &Option<ChannelLocalUrl>) -> (r: Option<ChannelLocalUrl>)
    ensures
        opt_view(r) == opt_view(*o),
{
    match o {
        Some(v) => Some(v.duplicate()),
        None => None,
    }
}

fn clone_api(o: &Option<ChannelApiBaseUrl>) -> (r: Option<ChannelApiBaseUrl>)
    ensures
        opt_view(r) == opt_view(*o),
{
    match o {
        Some(v) => Some(v.duplicate()),
        None => None,
    }
}

impl RuntimeConfig {
    /// Return a secret-safe summary for CLI and diagnostics: the gateway
    /// URL, the flags and the addresses, and nothing else.
    pub fn summary(&self) -> (r: RuntimeConfigSummary)
        ensures
            r.agent_gateway_url@ == self.agent.gateway_url@,
            r.telegram_runtime == self.telegram.enabled,
            r.telegram_webhook_secret == self.telegram.secret_configured,
            opt_view(r.telegram_webhook_bind) == opt_view(self.telegram.inbound_bind),
            opt_view(r.telegram_webhook_port) == opt_view(self.telegram.inbound_port),
            opt_view(r.telegram_api_base_url) == opt_view(self.telegram.api_base_url),
            r.discord_runtime == self.discord.enabled,
            r.discord_ingress_secret == self.discord.secret_configured,
            opt_view(r.discord_ingress_bind) == opt_view(self.discord.inbound_bind),
            opt_view(r.discord_ingress_path) == opt_view(self.discord.inbound_path),
            opt_view(r.discord_ingress_url) == opt_view(self.discord.inbound_url),
            r.discord_mention_policy == self.discord.require_mention,
    {
        RuntimeConfigSummary {
            agent_gateway_url: self.agent.gateway_url.duplicate(),
            telegram_runtime: self.telegram.enabled,
            telegram_webhook_secret: self.telegram.secret_configured,
            telegram_webhook_bind: clone_bind(&self.telegram.inbound_bind),
            telegram_webhook_port: self.telegram.inbound_port,
            telegram_api_base_url: clone_api(&self.telegram.api_base_url),
            discord_runtime: self.discord.enabled,
            discord_ingress_secret: self.discord.secret_configured,
            discord_ingress_bind: clone_bind(&self.discord.inbound_bind),
            discord_ingress_path: clone_path(&self.discord.inbound_path),
            discord_ingress_url: clone_url(&self.discord.inbound_url),
            discord_mention_policy: self.discord.require_mention,
        }
    }
}

/// The text of an optional value; empty when absent.
pub open spec fn opt_text(o: Option<Seq<char>>) -> Seq<char> {
    match o {
        Some(s) => s,
        None => Seq::empty(),
    }
}

/// The decimal text of an optional port; empty when absent.
pub open spec fn port_text(o: Option<u16>) -> Seq<char> {
    match o {
        Some(p) => nat_decimal(p as nat),
        None => Seq::empty(),
    }
}

/// A `key=value` diagnostic line.
pub open spec fn kv_line(key: Seq<char>, value: Seq<char>) -> Seq<char> {
    key + "="@ + value
}

/// Builds the line `key=value`.
pub(crate) fn kv(key: &str, value: &str) -> (r: String)
    ensures
        r@ == kv_line(key@, value@),
{
    concat3(key, "=", value)
}

/// Text of an optional bind address.
pub(crate) fn bind_text(o: &Option<ChannelBindAddress>) -> (r: &str)
    ensures
        r@ == opt_text(opt_view(*o)),
{
    match o {
        Some(v) => v.as_str(),
        None => {
            proof {
                reveal_strlit("");
            }
            ""
        },
    }
}

/// Text of an optional path.
pub(crate) fn path_text(o: &Option<ChannelPath>) -> (r: &str)
    ensures
        r@ == opt_text(opt_view(*o)),
{
    match o {
        Some(v) => v.as_str(),
        None => {
            proof {
                reveal_strlit("");
            }
            ""
        },
    }
}

/// Text of an optional local URL.
pub(crate) fn url_text(o: &Option<ChannelLocalUrl>) -> (r: &str)
    ensures
        r@ == opt_text(opt_view(*o)),
{
    match o {
        Some(v) => v.as_str(),
        None => {
            proof {
                reveal_strlit("");
            }
            ""
        },
    }
}

fn api_text(o: &Option<ChannelApiBaseUrl>) -> (r: &str)
    ensures
        r@ == opt_text(opt_view(*o)),
{
    match o {
        Some(v) => v.as_str(),
        None => {
            proof {
                reveal_strlit("");
            }
            ""
        },
    }
}

/// Decimal text of an optional port.
pub(crate) fn port_string(o: Option<ChannelPort>) -> (r: String)
    ensures
        r@ == port_text(opt_view(o)),
{
    match o {
        Some(p) => u64_to_string(p.as_u16() as u64),
        None => String::new(),
    }
}

impl RuntimeConfigSummary {
    /// Render the summary as stable diagnostic lines, one `key=value` line
    /// per field, in declaration order.
    pub fn render_lines(&self) -> (r: Vec<String>)
        ensures
            string_views(r@) == seq![
                kv_line("agent_gateway_url"@, self.agent_gateway_url@),
                kv_line("telegram_enabled"@, bool_text(self.telegram_runtime == RuntimeFlag::Enabled)),
                kv_line(
                    "telegram_webhook_secret_configured"@,
                    bool_text(self.telegram_webhook_secret == SecretFlag::Configured),
                ),
                kv_line("telegram_webhook_bind"@, opt_text(opt_view(self.telegram_webhook_bind))),
                kv_line("telegram_webhook_port"@, port_text(opt_view(self.telegram_webhook_port))),
                kv_line("telegram_api_base_url"@, opt_text(opt_view(self.telegram_api_base_url))),
                kv_line("discord_enabled"@, bool_text(self.discord_runtime == RuntimeFlag::Enabled)),
                kv_line(
                    "discord_ingress_secret_configured"@,
                    bool_text(self.discord_ingress_secret == SecretFlag::Configured),
                ),
                kv_line("discord_ingress_bind"@, opt_text(opt_view(self.discord_ingress_bind))),
                kv_line("discord_ingress_path"@, opt_text(opt_view(self.discord_ingress_path))),
                kv_line("discord_ingress_url"@, opt_text(opt_view(self.discord_ingress_url))),
                kv_line(
                    "discord_require_mention"@,
                    bool_text(self.discord_mention_policy == MentionPolicy::Required),
                ),
            ],
    {
        let mut lines: Vec<String> = Vec::new();
        lines.push(kv("agent_gateway_url", self.agent_gateway_url.as_str()));
        lines.push(kv("telegram_enabled", self.telegram_runtime.as_str()));
        lines.push(kv("telegram_webhook_secret_configured", self.telegram_webhook_secret.as_str()));
        lines.push(kv("telegram_webhook_bind", bind_text(&self.telegram_webhook_bind)));
        let port = port_string(self.telegram_webhook_port);
        lines.push(kv("telegram_webhook_port", port.as_str()));
        lines.push(kv("telegram_api_base_url", api_text(&self.telegram_api_base_url)));
        lines.push(kv("discord_enabled", self.discord_runtime.as_str()));
        lines.push(kv("discord_ingress_secret_configured", self.discord_ingress_secret.as_str()));
        lines.push(kv("discord_ingress_bind", bind_text(&self.discord_ingress_bind)));
        lines.push(kv("discord_ingress_path", path_text(&self.discord_ingress_path)));
        lines.push(kv("discord_ingress_url", url_text(&self.discord_ingress_url)));
        lines.push(kv("discord_require_mention", self.discord_mention_policy.as_str()));
        assert(string_views(lines@) =~= seq![
            kv_line("agent_gateway_url"@, self.agent_gateway_url@),
            kv_line("telegram_enabled"@, bool_text(self.telegram_runtime == RuntimeFlag::Enabled)),
            kv_line(
                "telegram_webhook_secret_configured"@,
                bool_text(self.telegram_webhook_secret == SecretFlag::Configured),
            ),
            kv_line("telegram_webhook_bind"@, opt_text(opt_view(self.telegram_webhook_bind))),
            kv_line("telegram_webhook_port"@, port_text(opt_view(self.telegram_webhook_port))),
            kv_line("telegram_api_base_url"@, opt_text(opt_view(self.telegram_api_base_url))),
            kv_line("discord_enabled"@, bool_text(self.discord_runtime == RuntimeFlag::Enabled)),
            kv_line(
                "discord_ingress_secret_configured"@,
                bool_text(self.discord_ingress_secret == SecretFlag::Configured),
            ),
            kv_line("discord_ingress_bind"@, opt_text(opt_view(self.discord_ingress_bind))),
            kv_line("discord_ingress_path"@, opt_text(opt_view(self.discord_ingress_path))),
            kv_line("discord_ingress_url"@, opt_text(opt_view(self.discord_ingress_url))),
            kv_line(
                "discord_require_mention"@,
                bool_text(self.discord_mention_policy == MentionPolicy::Required),
            ),
        ]);
        lines
    }
}

/// The summary lines of a configuration, as
/// [`RuntimeConfigSummary::render_lines`] writes them for its summary.
pub open spec fn summary_lines(c: RuntimeConfigView) -> Seq<Seq<char>> {
    seq![
        kv_line("agent_gateway_url"@, c.gateway_url),
        kv_line("telegram_enabled"@, bool_text(c.telegram.enabled == RuntimeFlag::Enabled)),
        kv_line(
            "telegram_webhook_secret_configured"@,
            bool_text(c.telegram.secret_configured == SecretFlag::Configured),
        ),
        kv_line("telegram_webhook_bind"@, opt_text(c.telegram.inbound_bind)),
        kv_line("telegram_webhook_port"@, port_text(c.telegram.inbound_port)),
        kv_line("telegram_api_base_url"@, opt_text(c.telegram.api_base_url)),
        kv_line("discord_enabled"@, bool_text(c.discord.enabled == RuntimeFlag::Enabled)),
        kv_line(
            "discord_ingress_secret_configured"@,
            bool_text(c.discord.secret_configured == SecretFlag::Configured),
        ),
        kv_line("discord_ingress_bind"@, opt_text(c.discord.inbound_bind)),
        kv_line("discord_ingress_path"@, opt_text(c.discord.inbound_path)),
        kv_line("discord_ingress_url"@, opt_text(c.discord.inbound_url)),
        kv_line("discord_require_mention"@, bool_text(c.discord.require_mention == MentionPolicy::Required)),
    ]
}

impl RuntimeConfig {
    /// The summary lines of the configuration (its summary, rendered).
    pub(crate) fn summary_lines(&self) -> (r: Vec<String>)
        ensures
            string_views(r@) == summary_lines(self@),
    {
        let lines = self.summary().render_lines();
        assert(string_views(lines@) =~= summary_lines(self@));
        lines
    }
}

/// Tokens and secrets are never part of the configuration: two sets of
/// variables that differ only in the values of the bot tokens and secrets,
/// with the same ones set, give the same configuration (or the same error).
pub proof fn lemma_config_ignores_secret_values(e1: RuntimeEnvView, e2: RuntimeEnvView)
    requires
        e1.agent_gateway_url == e2.agent_gateway_url,
        e1.telegram_webhook_bind == e2.telegram_webhook_bind,
        e1.telegram_webhook_port == e2.telegram_webhook_port,
        e1.telegram_api_base_url == e2.telegram_api_base_url,
        e1.discord_ingress_bind == e2.discord_ingress_bind,
        e1.discord_ingress_path == e2.discord_ingress_path,
        e1.discord_ingress_url == e2.discord_ingress_url,
        e1.discord_require_mention == e2.discord_require_mention,
        setting(e1.telegram_bot_token) is Some == setting(e2.telegram_bot_token) is Some,
        setting(e1.telegram_webhook_secret) is Some == setting(e2.telegram_webhook_secret) is Some,
        setting(e1.discord_bot_token) is Some == setting(e2.discord_bot_token) is Some,
        setting(e1.discord_ingress_secret) is Some == setting(e2.discord_ingress_secret) is Some,
    ensures
        config_of(e1) == config_of(e2),
{
    assert(telegram_port(e1) == telegram_port(e2));
    assert(mention_setting(e1) == mention_setting(e2));
    assert(discord_url(e1) == discord_url(e2));
}

/// Whether two environment lookups give the same value for every variable
/// but the bot tokens and secrets, and set the same tokens and secrets
/// (whatever their values), on every call.
pub open spec fn lookups_differ_only_in_secret_values<
    F1: Fn(&str) -> Option<String>,
    F2: Fn(&str) -> Option<String>,
>(l1: F1, l2: F2) -> bool {
    &&& forall|v1: Option<String>, v2: Option<String>|
        #![trigger call_ensures(l1, (AGENT_GATEWAY_URL_ENV,), v1), call_ensures(l2, (AGENT_GATEWAY_URL_ENV,), v2)]
        call_ensures(l1, (AGENT_GATEWAY_URL_ENV,), v1) && call_ensures(l2, (AGENT_GATEWAY_URL_ENV,), v2) ==> opt_view(v1) == opt_view(v2)
    &&& forall|v1: Option<String>, v2: Option<String>|
        #![trigger call_ensures(l1, (TELEGRAM_WEBHOOK_BIND_ENV,), v1), call_ensures(l2, (TELEGRAM_WEBHOOK_BIND_ENV,), v2)]
        call_ensures(l1, (TELEGRAM_WEBHOOK_BIND_ENV,), v1) && call_ensures(l2, (TELEGRAM_WEBHOOK_BIND_ENV,), v2) ==> opt_view(v1) == opt_view(v2)
    &&& forall|v1: Option<String>, v2: Option<String>|
        #![trigger call_ensures(l1, (TELEGRAM_WEBHOOK_PORT_ENV,), v1), call_ensures(l2, (TELEGRAM_WEBHOOK_PORT_ENV,), v2)]
        call_ensures(l1, (TELEGRAM_WEBHOOK_PORT_ENV,), v1) && call_ensures(l2, (TELEGRAM_WEBHOOK_PORT_ENV,), v2) ==> opt_view(v1) == opt_view(v2)
    &&& forall|v1: Option<String>, v2: Option<String>|
        #![trigger call_ensures(l1, (TELEGRAM_API_BASE_URL_ENV,), v1), call_ensures(l2, (TELEGRAM_API_BASE_URL_ENV,), v2)]
        call_ensures(l1, (TELEGRAM_API_BASE_URL_ENV,), v1) && call_ensures(l2, (TELEGRAM_API_BASE_URL_ENV,), v2) ==> opt_view(v1) == opt_view(v2)
    &&& forall|v1: Option<String>, v2: Option<String>|
        #![trigger call_ensures(l1, (DISCORD_INGRESS_BIND_ENV,), v1), call_ensures(l2, (DISCORD_INGRESS_BIND_ENV,), v2)]
        call_ensures(l1, (DISCORD_INGRESS_BIND_ENV,), v1) && call_ensures(l2, (DISCORD_INGRESS_BIND_ENV,), v2) ==> opt_view(v1) == opt_view(v2)
    &&& forall|v1: Option<String>, v2: Option<String>|
        #![trigger call_ensures(l1, (DISCORD_INGRESS_PATH_ENV,), v1), call_ensures(l2, (DISCORD_INGRESS_PATH_ENV,), v2)]
        call_ensures(l1, (DISCORD_INGRESS_PATH_ENV,), v1) && call_ensures(l2, (DISCORD_INGRESS_PATH_ENV,), v2) ==> opt_view(v1) == opt_view(v2)
    &&& forall|v1: Option<String>, v2: Option<String>|
        #![trigger call_ensures(l1, (DISCORD_INGRESS_URL_ENV,), v1), call_ensures(l2, (DISCORD_INGRESS_URL_ENV,), v2)]
        call_ensures(l1, (DISCORD_INGRESS_URL_ENV,), v1) && call_ensures(l2, (DISCORD_INGRESS_URL_ENV,), v2) ==> opt_view(v1) == opt_view(v2)
    &&& forall|v1: Option<String>, v2: Option<String>|
        #![trigger call_ensures(l1, (DISCORD_REQUIRE_MENTION_ENV,), v1), call_ensures(l2, (DISCORD_REQUIRE_MENTION_ENV,), v2)]
        call_ensures(l1, (DISCORD_REQUIRE_MENTION_ENV,), v1) && call_ensures(l2, (DISCORD_REQUIRE_MENTION_ENV,), v2) ==> opt_view(v1) == opt_view(v2)
    &&& forall|v1: Option<String>, v2: Option<String>|
        #![trigger call_ensures(l1, (TELEGRAM_BOT_TOKEN_ENV,), v1), call_ensures(l2, (TELEGRAM_BOT_TOKEN_ENV,), v2)]
        call_ensures(l1, (TELEGRAM_BOT_TOKEN_ENV,), v1) && call_ensures(l2, (TELEGRAM_BOT_TOKEN_ENV,), v2) ==> (setting(opt_view(v1))
            is Some) == (setting(opt_view(v2)) is Some)
    &&& forall|v1: Option<String>, v2: Option<String>|
        #![trigger call_ensures(l1, (TELEGRAM_WEBHOOK_SECRET_ENV,), v1), call_ensures(l2, (TELEGRAM_WEBHOOK_SECRET_ENV,), v2)]
        call_ensures(l1, (TELEGRAM_WEBHOOK_SECRET_ENV,), v1) && call_ensures(l2, (TELEGRAM_WEBHOOK_SECRET_ENV,), v2) ==> (setting(opt_view(v1))
            is Some) == (setting(opt_view(v2)) is Some)
    &&& forall|v1: Option<String>, v2: Option<String>|
        #![trigger call_ensures(l1, (DISCORD_BOT_TOKEN_ENV,), v1), call_ensures(l2, (DISCORD_BOT_TOKEN_ENV,), v2)]
        call_ensures(l1, (DISCORD_BOT_TOKEN_ENV,), v1) && call_ensures(l2, (DISCORD_BOT_TOKEN_ENV,), v2) ==> (setting(opt_view(v1))
            is Some) == (setting(opt_view(v2)) is Some)
    &&& forall|v1: Option<String>, v2: Option<String>|
        #![trigger call_ensures(l1, (DISCORD_INGRESS_SECRET_ENV,), v1), call_ensures(l2, (DISCORD_INGRESS_SECRET_ENV,), v2)]
        call_ensures(l1, (DISCORD_INGRESS_SECRET_ENV,), v1) && call_ensures(l2, (DISCORD_INGRESS_SECRET_ENV,), v2) ==> (setting(opt_view(v1))
            is Some) == (setting(opt_view(v2)) is Some)
}

/// Tokens and secrets never reach the configuration, stated over lookups:
/// two loads through lookups that differ only in the values of the tokens
/// and secrets give the same configuration (or the same error), so the same
/// summary lines.
pub proof fn lemma_lookup_ignores_secret_values<
    F1: Fn(&str) -> Option<String>,
    F2: Fn(&str) -> Option<String>,
>(
    l1: F1,
    l2: F2,
    r1: Result<RuntimeConfig, RuntimeConfigError>,
    r2: Result<RuntimeConfig, RuntimeConfigError>,
)
    requires
        lookups_differ_only_in_secret_values(l1, l2),
        exists|env: RuntimeEnv| #[trigger] env.read_by(l1) && config_outcome(r1) == config_of(env@),
        exists|env: RuntimeEnv| #[trigger] env.read_by(l2) && config_outcome(r2) == config_of(env@),
    ensures
        config_outcome(r1) == config_outcome(r2),
        r1 is Ok ==> r2 is Ok && summary_lines(r1->Ok_0@) == summary_lines(r2->Ok_0@),
{
    let e1 = choose|env: RuntimeEnv| #[trigger] env.read_by(l1) && config_outcome(r1) == config_of(env@);
    let e2 = choose|env: RuntimeEnv| #[trigger] env.read_by(l2) && config_outcome(r2) == config_of(env@);
    lemma_config_ignores_secret_values(e1@, e2@);
}

} // verus!
