//! Discord ACL command-reply validation helpers and the ACL probe catalog.

use vstd::prelude::*;
use super::discord_ingress::DiscordUserId;
use crate::text::{
    chars_of, concat2, dedup, is_one_of, lemma_dedup, lemma_trim_lower_plain, one_of, str_eq,
    string_of, trim_lower, trim_lower_str,
};

verus! {

/// Discord ACL reply observation extracted from runtime logs.
#[derive(Debug, Clone, PartialEq, Eq)]
pub struct DiscordAclReplyObservation {
    /// Event name emitted by the command handler.
    pub event: String,
    /// Recipient channel/user id.
    pub recipient: String,
    /// Runtime session key.
    pub session_key: String,
}

/// Discord ACL JSON summary observation extracted from runtime logs.
#[derive(Debug, Clone, PartialEq, Eq)]
pub struct DiscordAclJsonSummaryObservation {
    /// Event name emitted by the command handler.
    pub event: String,
    /// Recipient channel/user id.
    pub recipient: String,
    /// Runtime session key.
    pub session_key: String,
    /// JSON session scope returned by the command summary.
    pub json_session_scope: String,
}

/// Discord ACL probe case identifier.
#[derive(Debug, Clone, Copy, PartialEq, Eq, Structural)]
pub enum DiscordAclProbeCaseId {
    /// `/session admin add ...` should require admin authorization.
    ControlAdminDenied,
    /// `/session memory` slash-style command should require permission.
    SlashPermissionDenied,
}

/// Discord ACL probe suite identifier.
#[derive(Debug, Clone, Copy, PartialEq, Eq, Structural)]
pub enum DiscordAclProbeSuite {
    /// All suites.
    All,
    /// Core ACL behavior.
    Core,
}

/// Discord ACL runtime event identifier.
#[derive(Debug, Clone, Copy, PartialEq, Eq, Structural)]
pub enum DiscordAclEventName {
    /// Admin-only control command reply.
    ControlAdminRequiredReply,
    /// Slash permission required reply.
    SlashPermissionRequiredReply,
}

/// Discord ACL probe selector parse failure.
#[derive(Debug, Clone, PartialEq, Eq)]
pub enum DiscordAclProbeParseError {
    /// Case id is not part of the ACL probe catalog.
    InvalidCaseId(String),
    /// Suite id is not part of the ACL probe catalog.
    InvalidSuite(String),
}

/// A selector token as compared against the catalog: trimmed, lower-cased,
/// with `-` read as `_`.
pub open spec fn normalized_selector(value: Seq<char>) -> Seq<char> {
    trim_lower(value).map_values(|c: char| if c == '-' { '_' } else { c })
}

fn normalize_selector_token(value: &str) -> (r: Vec<char>)
    ensures
        r@ == normalized_selector(value@),
{
    let t = trim_lower_str(value);
    let mut r: Vec<char> = Vec::new();
    let mut i: usize = 0;
    while i < t.len()
        invariant
            i <= t@.len(),
            r@.len() == i,
            forall|j: int| 0 <= j < i ==> r@[j] == (if t@[j] == '-' { '_' } else { t@[j] }),
        decreases t@.len() - i,
    {
        let c = t[i];
        r.push(if c == '-' { '_' } else { c });
        i += 1;
    }
    assert(r@ =~= normalized_selector(value@));
    r
}

/// The catalog case a selector names.
pub open spec fn parse_case_id(value: Seq<char>) -> Option<DiscordAclProbeCaseId> {
    let v = normalized_selector(value);
    if is_one_of(v, seq!["discord_control_admin_denied", "control_admin_denied", "admin_denied"]) {
        Some(DiscordAclProbeCaseId::ControlAdminDenied)
    } else if is_one_of(
        v,
        seq!["discord_slash_permission_denied", "slash_permission_denied", "permission_denied"],
    ) {
        Some(DiscordAclProbeCaseId::SlashPermissionDenied)
    } else {
        None
    }
}

/// The stable id of a case.
pub open spec fn case_id_name(id: DiscordAclProbeCaseId) -> Seq<char> {
    match id {
        DiscordAclProbeCaseId::ControlAdminDenied => "discord_control_admin_denied"@,
        DiscordAclProbeCaseId::SlashPermissionDenied => "discord_slash_permission_denied"@,
    }
}

impl DiscordAclProbeCaseId {
    /// Return the stable case id.
    pub fn as_str(self) -> (s: &'static str)
        ensures
            s@ == case_id_name(self),
    {
        match self {
            DiscordAclProbeCaseId::ControlAdminDenied => "discord_control_admin_denied",
            DiscordAclProbeCaseId::SlashPermissionDenied => "discord_slash_permission_denied",
        }
    }

    /// Parse a case selector (the `FromStr` form); an unknown one is
    /// [`DiscordAclProbeParseError::InvalidCaseId`] with the raw value.
    pub fn parse_str(value: &str) -> (r: Result<Self, DiscordAclProbeParseError>)
        ensures
            match parse_case_id(value@) {
                Some(id) => r == Ok::<Self, DiscordAclProbeParseError>(id),
                None => r is Err && r->Err_0.is_invalid_case_id(value@),
            },
    {
        let v = normalize_selector_token(value);
        if one_of(&v, &["discord_control_admin_denied", "control_admin_denied", "admin_denied"]) {
            Ok(DiscordAclProbeCaseId::ControlAdminDenied)
        } else if one_of(
            &v,
            &["discord_slash_permission_denied", "slash_permission_denied", "permission_denied"],
        ) {
            Ok(DiscordAclProbeCaseId::SlashPermissionDenied)
        } else {
            Err(DiscordAclProbeParseError::InvalidCaseId(String::from_str(value)))
        }
    }
}

impl core::str::FromStr for DiscordAclProbeCaseId {
    type Err = DiscordAclProbeParseError;

    fn from_str(value: &str) -> (r: Result<Self, Self::Err>)
        ensures
            match parse_case_id(value@) {
                Some(id) => r == Ok::<Self, DiscordAclProbeParseError>(id),
                None => r is Err && r->Err_0.is_invalid_case_id(value@),
            },
    {
        Self::parse_str(value)
    }
}

/// The suite a selector names; an empty selector means all suites.
pub open spec fn parse_suite(value: Seq<char>) -> Option<DiscordAclProbeSuite> {
    let v = normalized_selector(value);
    if is_one_of(v, seq!["", "all"]) {
        Some(DiscordAclProbeSuite::All)
    } else if is_one_of(v, seq!["core"]) {
        Some(DiscordAclProbeSuite::Core)
    } else {
        None
    }
}

/// The stable id of a suite.
pub open spec fn suite_name(suite: DiscordAclProbeSuite) -> Seq<char> {
    match suite {
        DiscordAclProbeSuite::All => "all"@,
        DiscordAclProbeSuite::Core => "core"@,
    }
}

impl DiscordAclProbeSuite {
    /// Return the stable suite id.
    pub fn as_str(self) -> (s: &'static str)
        ensures
            s@ == suite_name(self),
    {
        match self {
            DiscordAclProbeSuite::All => "all",
            DiscordAclProbeSuite::Core => "core",
        }
    }

    /// Parse a suite selector (the `FromStr` form); an unknown one is
    /// [`DiscordAclProbeParseError::InvalidSuite`] with the raw value.
    pub fn parse_str(value: &str) -> (r: Result<Self, DiscordAclProbeParseError>)
        ensures
            match parse_suite(value@) {
                Some(s) => r == Ok::<Self, DiscordAclProbeParseError>(s),
                None => r is Err && r->Err_0.is_invalid_suite(value@),
            },
    {
        let v = normalize_selector_token(value);
        let all_names: [&str; 2] = ["", "all"];
        let core_names: [&str; 1] = ["core"];
        assert(all_names@ == seq!["", "all"]);
        assert(core_names@ == seq!["core"]);
        if one_of(&v, &all_names) {
            Ok(DiscordAclProbeSuite::All)
        } else if one_of(&v, &core_names) {
            Ok(DiscordAclProbeSuite::Core)
        } else {
            Err(DiscordAclProbeParseError::InvalidSuite(String::from_str(value)))
        }
    }
}

impl core::str::FromStr for DiscordAclProbeSuite {
    type Err = DiscordAclProbeParseError;

    fn from_str(value: &str) -> (r: Result<Self, Self::Err>)
        ensures
            match parse_suite(value@) {
                Some(s) => r == Ok::<Self, DiscordAclProbeParseError>(s),
                None => r is Err && r->Err_0.is_invalid_suite(value@),
            },
    {
        Self::parse_str(value)
    }
}

impl DiscordAclProbeParseError {
    /// The error names the unknown case selector `value`.
    pub open spec fn is_invalid_case_id(self, value: Seq<char>) -> bool {
        match self {
            DiscordAclProbeParseError::InvalidCaseId(v) => v@ == value,
            _ => false,
        }
    }

    /// The error names the unknown suite selector `value`.
    pub open spec fn is_invalid_suite(self, value: Seq<char>) -> bool {
        match self {
            DiscordAclProbeParseError::InvalidSuite(v) => v@ == value,
            _ => false,
        }
    }

    /// The diagnostic text of the error (its `Display` form).
    pub fn describe(&self) -> (s: String)
        ensures
            s@ == match self {
                DiscordAclProbeParseError::InvalidCaseId(v) => "invalid Discord ACL case id: "@
                    + v@,
                DiscordAclProbeParseError::InvalidSuite(v) => "invalid Discord ACL suite: "@
                    + v@,
            },
    {
        match self {
            DiscordAclProbeParseError::InvalidCaseId(v) => concat2(
                "invalid Discord ACL case id: ",
                v.as_str(),
            ),
            DiscordAclProbeParseError::InvalidSuite(v) => concat2(
                "invalid Discord ACL suite: ",
                v.as_str(),
            ),
        }
    }
}

/// The stable id of every case parses back to that case.
pub proof fn lemma_case_id_name_roundtrip(id: DiscordAclProbeCaseId)
    ensures
        parse_case_id(case_id_name(id)) == Some(id),
{
    reveal_strlit("discord_control_admin_denied");
    reveal_strlit("control_admin_denied");
    reveal_strlit("admin_denied");
    reveal_strlit("discord_slash_permission_denied");
    let name = case_id_name(id);
    lemma_trim_lower_plain(name);
    assert(normalized_selector(name) =~= name);
    let a1 = seq!["discord_control_admin_denied", "control_admin_denied", "admin_denied"];
    let a2 = seq!["discord_slash_permission_denied", "slash_permission_denied", "permission_denied"];
    match id {
        DiscordAclProbeCaseId::ControlAdminDenied => {
            assert(a1[0]@ == name);
        },
        DiscordAclProbeCaseId::SlashPermissionDenied => {
            reveal_strlit("slash_permission_denied");
            reveal_strlit("permission_denied");
            assert(!is_one_of(name, a1));
            assert(a2[0]@ == name);
        },
    }
}

/// The stable id of every suite parses back to that suite.
pub proof fn lemma_suite_name_roundtrip(suite: DiscordAclProbeSuite)
    ensures
        parse_suite(suite_name(suite)) == Some(suite),
{
    reveal_strlit("");
    reveal_strlit("all");
    reveal_strlit("core");
    let name = suite_name(suite);
    lemma_trim_lower_plain(name);
    assert(normalized_selector(name) =~= name);
    let a1 = seq!["", "all"];
    let a2 = seq!["core"];
    match suite {
        DiscordAclProbeSuite::All => {
            assert(a1[1]@ == name);
        },
        DiscordAclProbeSuite::Core => {
            assert(!is_one_of(name, a1));
            assert(a2[0]@ == name);
        },
    }
}


/// The runtime event name of an ACL event.
pub open spec fn event_name_text(event: DiscordAclEventName) -> Seq<char> {
    match event {
        DiscordAclEventName::ControlAdminRequiredReply => "discord.command.control_admin_required.replied"@,
        DiscordAclEventName::SlashPermissionRequiredReply => "discord.command.slash_permission_required.replied"@,
    }
}

impl DiscordAclEventName {
    /// Return the runtime event name.
    pub fn as_str(self) -> (s: &'static str)
        ensures
            s@ == event_name_text(self),
    {
        match self {
            DiscordAclEventName::ControlAdminRequiredReply => "discord.command.control_admin_required.replied",
            DiscordAclEventName::SlashPermissionRequiredReply => "discord.command.slash_permission_required.replied",
        }
    }
}

/// Definition of a Discord ACL probe case.
#[derive(Debug, Clone, PartialEq, Eq)]
pub struct DiscordAclProbeCase {
    case_id: DiscordAclProbeCaseId,
    prompt: String,
    event_name: DiscordAclEventName,
    suites: Vec<DiscordAclProbeSuite>,
}

/// The content of a probe case.
pub struct DiscordAclProbeCaseView {
    /// The case id.
    pub case_id: DiscordAclProbeCaseId,
    /// The prompt sent to Discord ingress.
    pub prompt: Seq<char>,
    /// The expected runtime event.
    pub event_name: DiscordAclEventName,
    /// The suites the case belongs to.
    pub suites: Seq<DiscordAclProbeSuite>,
}

impl View for DiscordAclProbeCase {
    type V = DiscordAclProbeCaseView;

    closed spec fn view(&self) -> DiscordAclProbeCaseView {
        DiscordAclProbeCaseView {
            case_id: self.case_id,
            prompt: self.prompt@,
            event_name: self.event_name,
            suites: self.suites@,
        }
    }
}

/// The contents of a sequence of probe cases.
pub open spec fn case_views(cases: Seq<DiscordAclProbeCase>) -> Seq<DiscordAclProbeCaseView> {
    Seq::new(cases.len(), |i: int| cases[i]@)
}

impl DiscordAclProbeCase {
    /// Return the stable case id.
    pub fn case_id(&self) -> (id: DiscordAclProbeCaseId)
        ensures
            id == self@.case_id,
    {
        self.case_id
    }

    /// Return the prompt to send to Discord ingress.
    pub fn prompt(&self) -> (p: &str)
        ensures
            p@ == self@.prompt,
    {
        self.prompt.as_str()
    }

    /// Return the expected runtime event.
    pub fn event_name(&self) -> (e: DiscordAclEventName)
        ensures
            e == self@.event_name,
    {
        self.event_name
    }

    /// Return the suites this case belongs to.
    pub fn suites(&self) -> (s: &[DiscordAclProbeSuite])
        ensures
            s@ == self@.suites,
    {
        self.suites.as_slice()
    }

    /// A copy of the case.
    fn duplicate(&self) -> (c: Self)
        ensures
            c@ == self@,
    {
        let mut suites: Vec<DiscordAclProbeSuite> = Vec::new();
        let mut i: usize = 0;
        while i < self.suites.len()
            invariant
                i <= self.suites@.len(),
                suites@ == self.suites@.take(i as int),
            decreases self.suites@.len() - i,
        {
            suites.push(self.suites[i]);
            assert(self.suites@.take(i + 1) == self.suites@.take(i as int).push(self.suites@[i as int]));
            i += 1;
        }
        assert(self.suites@.take(self.suites@.len() as int) == self.suites@);
        DiscordAclProbeCase {
            case_id: self.case_id,
            prompt: self.prompt.clone(),
            event_name: self.event_name,
            suites,
        }
    }
}

/// Request used to filter Discord ACL probe cases.
#[derive(Debug, Clone, Copy, PartialEq, Eq)]
pub struct DiscordAclProbeCaseFilterRequest<'a> {
    /// Selected suites.
    pub suites: &'a [DiscordAclProbeSuite],
    /// Explicit selected case ids.
    pub requested_case_ids: &'a [DiscordAclProbeCaseId],
}

/// Discord ACL validation failure.
#[derive(Debug, Clone, PartialEq, Eq)]
pub enum DiscordAclValidationError {
    /// Target event/recipient pair was not observed.
    MissingTargetReply,
    /// Reply session key was outside the expected scope set.
    ReplySessionMismatch {
        /// Observed runtime session key.
        observed_session: String,
    },
    /// JSON summary session key was outside the expected scope set.
    JsonSummarySessionMismatch {
        /// Observed runtime session key.
        observed_session: String,
    },
    /// JSON summary session scope was outside the expected scope set.
    JsonSummaryScopeMismatch {
        /// Observed JSON session scope.
        observed_scope: String,
    },
}

impl DiscordAclValidationError {
    /// The error reports the reply session key `key`.
    pub open spec fn is_reply_session_mismatch(self, key: Seq<char>) -> bool {
        match self {
            DiscordAclValidationError::ReplySessionMismatch { observed_session } => observed_session@
                == key,
            _ => false,
        }
    }

    /// The error reports the summary session key `key`.
    pub open spec fn is_summary_session_mismatch(self, key: Seq<char>) -> bool {
        match self {
            DiscordAclValidationError::JsonSummarySessionMismatch { observed_session } =>
                observed_session@ == key,
            _ => false,
        }
    }

    /// The error reports the summary session scope `scope`.
    pub open spec fn is_summary_scope_mismatch(self, scope: Seq<char>) -> bool {
        match self {
            DiscordAclValidationError::JsonSummaryScopeMismatch { observed_scope } => observed_scope@
                == scope,
            _ => false,
        }
    }

    /// The diagnostic text of the error (its `Display` form).
    pub fn describe(&self) -> (s: String)
        ensures
            s@ == match self {
                DiscordAclValidationError::MissingTargetReply => "missing target command reply"@,
                DiscordAclValidationError::ReplySessionMismatch { observed_session } =>
                    "command reply session mismatch: "@ + observed_session@,
                DiscordAclValidationError::JsonSummarySessionMismatch { observed_session } =>
                    "command reply JSON summary session mismatch: "@ + observed_session@,
                DiscordAclValidationError::JsonSummaryScopeMismatch { observed_scope } =>
                    "command reply JSON summary scope mismatch: "@ + observed_scope@,
            },
    {
        match self {
            DiscordAclValidationError::MissingTargetReply => String::from_str(
                "missing target command reply",
            ),
            DiscordAclValidationError::ReplySessionMismatch { observed_session } => concat2(
                "command reply session mismatch: ",
                observed_session.as_str(),
            ),
            DiscordAclValidationError::JsonSummarySessionMismatch { observed_session } => concat2(
                "command reply JSON summary session mismatch: ",
                observed_session.as_str(),
            ),
            DiscordAclValidationError::JsonSummaryScopeMismatch { observed_scope } => concat2(
                "command reply JSON summary scope mismatch: ",
                observed_scope.as_str(),
            ),
        }
    }
}

/// Request used to validate a target Discord ACL reply.
#[derive(Debug, Clone, Copy, PartialEq, Eq)]
pub struct DiscordAclReplyValidationRequest<'a> {
    /// Expected event name.
    pub event_name: &'a str,
    /// Expected recipient id.
    pub expected_recipient: &'a str,
    /// Accepted runtime session keys.
    pub expected_sessions: &'a [&'a str],
}

/// Request used to validate a target Discord ACL JSON summary.
#[derive(Debug, Clone, Copy, PartialEq, Eq)]
pub struct DiscordAclJsonSummaryValidationRequest<'a> {
    /// Expected event name.
    pub event_name: &'a str,
    /// Expected recipient id.
    pub expected_recipient: &'a str,
    /// Accepted runtime session keys.
    pub expected_sessions: &'a [&'a str],
    /// Accepted JSON session scopes.
    pub expected_session_scopes: &'a [&'a str],
}


fn suites_contain(v: &[DiscordAclProbeSuite], x: DiscordAclProbeSuite) -> (r: bool)
    ensures
        r == v@.contains(x),
{
    let mut i: usize = 0;
    while i < v.len()
        invariant
            i <= v@.len(),
            forall|j: int| 0 <= j < i ==> v@[j] != x,
        decreases v@.len() - i,
    {
        if v[i] == x {
            assert(v@[i as int] == x);
            return true;
        }
        i += 1;
    }
    false
}

fn case_ids_contain(v: &[DiscordAclProbeCaseId], x: DiscordAclProbeCaseId) -> (r: bool)
    ensures
        r == v@.contains(x),
{
    let mut i: usize = 0;
    while i < v.len()
        invariant
            i <= v@.len(),
            forall|j: int| 0 <= j < i ==> v@[j] != x,
        decreases v@.len() - i,
    {
        if v[i] == x {
            assert(v@[i as int] == x);
            return true;
        }
        i += 1;
    }
    false
}

/// The suites that `values` select, in order, or the first value that names
/// no suite.
pub open spec fn parse_suite_values(values: Seq<Seq<char>>) -> Result<Seq<DiscordAclProbeSuite>, Seq<char>>
    decreases values.len(),
{
    if values.len() == 0 {
        Ok(seq![])
    } else {
        match parse_suite_values(values.drop_last()) {
            Err(bad) => Err(bad),
            Ok(parsed) => match parse_suite(values.last()) {
                Some(suite) => Ok(parsed.push(suite)),
                None => Err(values.last()),
            },
        }
    }
}

/// The cases that `values` select, in order, or the first value that names
/// no case.
pub open spec fn parse_case_id_values(values: Seq<Seq<char>>) -> Result<Seq<DiscordAclProbeCaseId>, Seq<char>>
    decreases values.len(),
{
    if values.len() == 0 {
        Ok(seq![])
    } else {
        match parse_case_id_values(values.drop_last()) {
            Err(bad) => Err(bad),
            Ok(parsed) => match parse_case_id(values.last()) {
                Some(id) => Ok(parsed.push(id)),
                None => Err(values.last()),
            },
        }
    }
}

/// The character sequences of a sequence of string slices.
pub open spec fn str_views(values: Seq<&str>) -> Seq<Seq<char>> {
    Seq::new(values.len(), |i: int| values[i]@)
}

/// The suite selection: the distinct suites named, in first-seen order, or
/// just [`DiscordAclProbeSuite::All`] when none is named or `All` is among
/// them.
pub open spec fn normalized_suites(parsed: Seq<DiscordAclProbeSuite>) -> Seq<DiscordAclProbeSuite> {
    let d = dedup(parsed);
    if d.len() == 0 || d.contains(DiscordAclProbeSuite::All) {
        seq![DiscordAclProbeSuite::All]
    } else {
        d
    }
}

/// Parse and normalize selected Discord ACL suites.
///
/// Returns an error naming the first selector that is not part of the ACL
/// probe catalog.
pub fn parse_discord_acl_probe_suites(values: &[&str]) -> (r: Result<
    Vec<DiscordAclProbeSuite>,
    DiscordAclProbeParseError,
>)
    ensures
        match parse_suite_values(str_views(values@)) {
            Ok(parsed) => r is Ok && r->Ok_0@ == normalized_suites(parsed),
            Err(bad) => r is Err && r->Err_0.is_invalid_suite(bad),
        },
{
    let ghost vs = str_views(values@);
    let mut selected: Vec<DiscordAclProbeSuite> = Vec::new();
    let mut i: usize = 0;
    while i < values.len()
        invariant
            i <= values@.len(),
            vs == str_views(values@),
            parse_suite_values(vs.take(i as int)) is Ok,
            selected@ == dedup(parse_suite_values(vs.take(i as int))->Ok_0),
        decreases values@.len() - i,
    {
        assert(vs.take(i + 1).drop_last() == vs.take(i as int));
        assert(vs.take(i + 1).last() == values@[i as int]@);
        let parsed = match DiscordAclProbeSuite::parse_str(values[i]) {
            Ok(p) => p,
            Err(e) => {
                proof {
                    lemma_parse_suite_values_prefix_err(vs, i + 1);
                }
                return Err(e);
            },
        };
        let ghost prev = parse_suite_values(vs.take(i as int))->Ok_0;
        assert(parse_suite_values(vs.take(i + 1)) == Ok::<Seq<DiscordAclProbeSuite>, Seq<char>>(prev.push(parsed)));
        assert(prev.push(parsed).drop_last() == prev);
        if !suites_contain(&selected, parsed) {
            selected.push(parsed);
        }
        i += 1;
    }
    assert(vs.take(values@.len() as int) == vs);
    if selected.len() == 0 || suites_contain(&selected, DiscordAclProbeSuite::All) {
        let mut all: Vec<DiscordAclProbeSuite> = Vec::new();
        all.push(DiscordAclProbeSuite::All);
        Ok(all)
    } else {
        Ok(selected)
    }
}

/// A failure on a prefix of the values is the failure on all of them.
proof fn lemma_parse_suite_values_prefix_err(values: Seq<Seq<char>>, k: int)
    requires
        0 <= k <= values.len(),
        parse_suite_values(values.take(k)) is Err,
    ensures
        parse_suite_values(values) == parse_suite_values(values.take(k)),
    decreases values.len(),
{
    if k < values.len() {
        assert(values.drop_last().take(k) == values.take(k));
        lemma_parse_suite_values_prefix_err(values.drop_last(), k);
    } else {
        assert(values.take(k) == values);
    }
}

/// A failure on a prefix of the values is the failure on all of them.
proof fn lemma_parse_case_id_values_prefix_err(values: Seq<Seq<char>>, k: int)
    requires
        0 <= k <= values.len(),
        parse_case_id_values(values.take(k)) is Err,
    ensures
        parse_case_id_values(values) == parse_case_id_values(values.take(k)),
    decreases values.len(),
{
    if k < values.len() {
        assert(values.drop_last().take(k) == values.take(k));
        lemma_parse_case_id_values_prefix_err(values.drop_last(), k);
    } else {
        assert(values.take(k) == values);
    }
}

/// Parse and normalize selected Discord ACL case ids: the distinct cases
/// named, in first-seen order.
///
/// Returns an error naming the first selector that is not part of the ACL
/// probe catalog.
pub fn parse_discord_acl_probe_case_ids(values: &[&str]) -> (r: Result<
    Vec<DiscordAclProbeCaseId>,
    DiscordAclProbeParseError,
>)
    ensures
        match parse_case_id_values(str_views(values@)) {
            Ok(parsed) => r is Ok && r->Ok_0@ == dedup(parsed),
            Err(bad) => r is Err && r->Err_0.is_invalid_case_id(bad),
        },
{
    let ghost vs = str_views(values@);
    let mut selected: Vec<DiscordAclProbeCaseId> = Vec::new();
    let mut i: usize = 0;
    while i < values.len()
        invariant
            i <= values@.len(),
            vs == str_views(values@),
            parse_case_id_values(vs.take(i as int)) is Ok,
            selected@ == dedup(parse_case_id_values(vs.take(i as int))->Ok_0),
        decreases values@.len() - i,
    {
        assert(vs.take(i + 1).drop_last() == vs.take(i as int));
        assert(vs.take(i + 1).last() == values@[i as int]@);
        let parsed = match DiscordAclProbeCaseId::parse_str(values[i]) {
            Ok(p) => p,
            Err(e) => {
                proof {
                    lemma_parse_case_id_values_prefix_err(vs, i + 1);
                }
                return Err(e);
            },
        };
        let ghost prev = parse_case_id_values(vs.take(i as int))->Ok_0;
        assert(parse_case_id_values(vs.take(i + 1)) == Ok::<Seq<DiscordAclProbeCaseId>, Seq<char>>(prev.push(parsed)));
        assert(prev.push(parsed).drop_last() == prev);
        if !case_ids_contain(&selected, parsed) {
            selected.push(parsed);
        }
        i += 1;
    }
    assert(vs.take(values@.len() as int) == vs);
    Ok(selected)
}

/// A normalized suite selection is never empty, names no suite twice, and
/// is exactly `[All]` whenever it includes `All`.
pub proof fn lemma_normalized_suites(parsed: Seq<DiscordAclProbeSuite>)
    ensures
        normalized_suites(parsed).len() > 0,
        normalized_suites(parsed).no_duplicates(),
        normalized_suites(parsed).contains(DiscordAclProbeSuite::All) ==> normalized_suites(parsed)
            == seq![DiscordAclProbeSuite::All],
{
    lemma_dedup(parsed);
    let d = dedup(parsed);
    if !(d.len() == 0 || d.contains(DiscordAclProbeSuite::All)) {
        assert(!normalized_suites(parsed).contains(DiscordAclProbeSuite::All));
    } else {
        assert(seq![DiscordAclProbeSuite::All][0] == DiscordAclProbeSuite::All);
    }
}


/// The default ACL probe catalog for a target user: the admin-add command
/// for that user and the session-memory command, both in the core suite.
pub open spec fn default_probe_cases(target_user_id: Seq<char>) -> Seq<DiscordAclProbeCaseView> {
    seq![
        DiscordAclProbeCaseView {
            case_id: DiscordAclProbeCaseId::ControlAdminDenied,
            prompt: "/session admin add "@ + target_user_id,
            event_name: DiscordAclEventName::ControlAdminRequiredReply,
            suites: seq![DiscordAclProbeSuite::Core],
        },
        DiscordAclProbeCaseView {
            case_id: DiscordAclProbeCaseId::SlashPermissionDenied,
            prompt: "/session memory"@,
            event_name: DiscordAclEventName::SlashPermissionRequiredReply,
            suites: seq![DiscordAclProbeSuite::Core],
        },
    ]
}

/// Build the default Discord ACL probe case set.
pub fn build_discord_acl_probe_cases(target_user_id: &DiscordUserId) -> (cases: Vec<
    DiscordAclProbeCase,
>)
    ensures
        case_views(cases@) == default_probe_cases(target_user_id@),
{
    let mut core_a: Vec<DiscordAclProbeSuite> = Vec::new();
    core_a.push(DiscordAclProbeSuite::Core);
    let mut core_b: Vec<DiscordAclProbeSuite> = Vec::new();
    core_b.push(DiscordAclProbeSuite::Core);
    let mut cases: Vec<DiscordAclProbeCase> = Vec::new();
    cases.push(
        DiscordAclProbeCase {
            case_id: DiscordAclProbeCaseId::ControlAdminDenied,
            prompt: concat2("/session admin add ", target_user_id.as_str()),
            event_name: DiscordAclEventName::ControlAdminRequiredReply,
            suites: core_a,
        },
    );
    cases.push(
        DiscordAclProbeCase {
            case_id: DiscordAclProbeCaseId::SlashPermissionDenied,
            prompt: String::from_str("/session memory"),
            event_name: DiscordAclEventName::SlashPermissionRequiredReply,
            suites: core_b,
        },
    );
    assert(case_views(cases@) =~= default_probe_cases(target_user_id@));
    cases
}

/// Whether a case passes a filter: it is among the requested cases (any
/// case when none is requested), and the selection includes `All` or one of
/// its suites.
pub open spec fn case_selected(
    suites: Seq<DiscordAclProbeSuite>,
    requested: Seq<DiscordAclProbeCaseId>,
    case: DiscordAclProbeCaseView,
) -> bool {
    &&& (requested.len() == 0 || requested.contains(case.case_id))
    &&& (suites.contains(DiscordAclProbeSuite::All) || exists|i: int|
        0 <= i < case.suites.len() && suites.contains(#[trigger] case.suites[i]))
}

/// The cases that pass a filter, in order.
pub open spec fn selected_cases(
    suites: Seq<DiscordAclProbeSuite>,
    requested: Seq<DiscordAclProbeCaseId>,
    cases: Seq<DiscordAclProbeCaseView>,
) -> Seq<DiscordAclProbeCaseView>
    decreases cases.len(),
{
    if cases.len() == 0 {
        seq![]
    } else {
        let rest = selected_cases(suites, requested, cases.drop_last());
        if case_selected(suites, requested, cases.last()) {
            rest.push(cases.last())
        } else {
            rest
        }
    }
}

fn shares_suite(selection: &[DiscordAclProbeSuite], case_suites: &[DiscordAclProbeSuite]) -> (r: bool)
    ensures
        r == exists|i: int| 0 <= i < case_suites@.len() && selection@.contains(#[trigger] case_suites@[i]),
{
    let mut i: usize = 0;
    while i < case_suites.len()
        invariant
            i <= case_suites@.len(),
            forall|j: int| 0 <= j < i ==> !selection@.contains(#[trigger] case_suites@[j]),
        decreases case_suites@.len() - i,
    {
        if suites_contain(selection, case_suites[i]) {
            return true;
        }
        i += 1;
    }
    false
}

/// Filter Discord ACL probe cases by suite and explicit case id selection.
pub fn filter_discord_acl_probe_cases(
    request: DiscordAclProbeCaseFilterRequest<'_>,
    cases: &[DiscordAclProbeCase],
) -> (r: Vec<DiscordAclProbeCase>)
    ensures
        case_views(r@) == selected_cases(
            request.suites@,
            request.requested_case_ids@,
            case_views(cases@),
        ),
{
    let ghost cv = case_views(cases@);
    let mut out: Vec<DiscordAclProbeCase> = Vec::new();
    let mut i: usize = 0;
    while i < cases.len()
        invariant
            i <= cases@.len(),
            cv == case_views(cases@),
            case_views(out@) == selected_cases(
                request.suites@,
                request.requested_case_ids@,
                cv.take(i as int),
            ),
        decreases cases@.len() - i,
    {
        let case = &cases[i];
        assert(cv.take(i + 1).drop_last() == cv.take(i as int));
        assert(cv.take(i + 1).last() == case@);
        let by_id = request.requested_case_ids.len() == 0 || case_ids_contain(
            request.requested_case_ids,
            case.case_id,
        );
        let by_suite = suites_contain(request.suites, DiscordAclProbeSuite::All) || shares_suite(
            request.suites,
            case.suites.as_slice(),
        );
        assert(case@.suites == case.suites@);
        assert((by_id && by_suite) == case_selected(
            request.suites@,
            request.requested_case_ids@,
            case@,
        ));
        if by_id && by_suite {
            let ghost before = out@;
            out.push(case.duplicate());
            assert(case_views(out@) =~= case_views(before).push(case@));
        }
        i += 1;
    }
    assert(cv.take(cases@.len() as int) == cv);
    out
}

/// Index of the first observation with the given event and recipient.
pub open spec fn first_reply_target(
    observations: Seq<DiscordAclReplyObservation>,
    event: Seq<char>,
    recipient: Seq<char>,
    from: int,
) -> Option<int>
    decreases observations.len() - from,
{
    if from < 0 || from >= observations.len() {
        None
    } else if observations[from].event@ == event && observations[from].recipient@ == recipient {
        Some(from)
    } else {
        first_reply_target(observations, event, recipient, from + 1)
    }
}

/// Whether a session key (or scope) is accepted: it is among `expected`.
pub open spec fn session_accepted(key: Seq<char>, expected: Seq<&str>) -> bool {
    is_one_of(key, expected)
}

fn session_accepted_exec(key: &str, expected: &[&str]) -> (r: bool)
    ensures
        r == session_accepted(key@, expected@),
{
    let k = chars_of(key);
    one_of(&k, expected)
}

/// Validate that a target Discord command reply belongs to an expected
/// session: the first observation with the expected event and recipient is
/// returned when its session key is among the expected ones.
pub fn validate_discord_acl_reply<'a>(
    request: DiscordAclReplyValidationRequest<'_>,
    observations: &'a [DiscordAclReplyObservation],
) -> (r: Result<&'a DiscordAclReplyObservation, DiscordAclValidationError>)
    ensures
        match first_reply_target(observations@, request.event_name@, request.expected_recipient@, 0) {
            None => r == Err::<&DiscordAclReplyObservation, DiscordAclValidationError>(
                DiscordAclValidationError::MissingTargetReply,
            ),
            Some(k) => if session_accepted(observations@[k].session_key@, request.expected_sessions@) {
                r is Ok && *r->Ok_0 == observations@[k]
            } else {
                r is Err && r->Err_0.is_reply_session_mismatch(observations@[k].session_key@)
            },
        },
{
    let mut i: usize = 0;
    while i < observations.len()
        invariant
            i <= observations@.len(),
            first_reply_target(observations@, request.event_name@, request.expected_recipient@, 0)
                == first_reply_target(
                observations@,
                request.event_name@,
                request.expected_recipient@,
                i as int,
            ),
        decreases observations@.len() - i,
    {
        let o = &observations[i];
        if str_eq(o.event.as_str(), request.event_name) && str_eq(
            o.recipient.as_str(),
            request.expected_recipient,
        ) {
            if !session_accepted_exec(o.session_key.as_str(), request.expected_sessions) {
                return Err(
                    DiscordAclValidationError::ReplySessionMismatch {
                        observed_session: o.session_key.clone(),
                    },
                );
            }
            return Ok(o);
        }
        i += 1;
    }
    Err(DiscordAclValidationError::MissingTargetReply)
}

/// Index of the first summary with the given event and recipient.
pub open spec fn first_summary_target(
    summaries: Seq<DiscordAclJsonSummaryObservation>,
    event: Seq<char>,
    recipient: Seq<char>,
    from: int,
) -> Option<int>
    decreases summaries.len() - from,
{
    if from < 0 || from >= summaries.len() {
        None
    } else if summaries[from].event@ == event && summaries[from].recipient@ == recipient {
        Some(from)
    } else {
        first_summary_target(summaries, event, recipient, from + 1)
    }
}

/// Validate optional JSON summary scope for a Discord command reply: the
/// first summary with the expected event and recipient, if any, must have an
/// expected session key and an expected JSON session scope, checked in that
/// order.
pub fn validate_discord_acl_json_summary<'a>(
    request: DiscordAclJsonSummaryValidationRequest<'_>,
    summaries: &'a [DiscordAclJsonSummaryObservation],
) -> (r: Result<Option<&'a DiscordAclJsonSummaryObservation>, DiscordAclValidationError>)
    ensures
        match first_summary_target(summaries@, request.event_name@, request.expected_recipient@, 0) {
            None => r == Ok::<Option<&DiscordAclJsonSummaryObservation>, DiscordAclValidationError>(
                None,
            ),
            Some(k) => if !session_accepted(summaries@[k].session_key@, request.expected_sessions@) {
                r is Err && r->Err_0.is_summary_session_mismatch(summaries@[k].session_key@)
            } else if !session_accepted(
                summaries@[k].json_session_scope@,
                request.expected_session_scopes@,
            ) {
                r is Err && r->Err_0.is_summary_scope_mismatch(summaries@[k].json_session_scope@)
            } else {
                r is Ok && r->Ok_0 is Some && *r->Ok_0->Some_0 == summaries@[k]
            },
        },
{
    let mut i: usize = 0;
    while i < summaries.len()
        invariant
            i <= summaries@.len(),
            first_summary_target(summaries@, request.event_name@, request.expected_recipient@, 0)
                == first_summary_target(
                summaries@,
                request.event_name@,
                request.expected_recipient@,
                i as int,
            ),
        decreases summaries@.len() - i,
    {
        let o = &summaries[i];
        if str_eq(o.event.as_str(), request.event_name) && str_eq(
            o.recipient.as_str(),
            request.expected_recipient,
        ) {
            if !session_accepted_exec(o.session_key.as_str(), request.expected_sessions) {
                return Err(
                    DiscordAclValidationError::JsonSummarySessionMismatch {
                        observed_session: o.session_key.clone(),
                    },
                );
            }
            if !session_accepted_exec(o.json_session_scope.as_str(), request.expected_session_scopes) {
                return Err(
                    DiscordAclValidationError::JsonSummaryScopeMismatch {
                        observed_scope: o.json_session_scope.clone(),
                    },
                );
            }
            return Ok(Some(o));
        }
        i += 1;
    }
    Ok(None)
}

} // verus!
