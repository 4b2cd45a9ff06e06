//! Channel session partition and mention-gate policies.

use vstd::prelude::*;
use crate::decimal::{i64_to_string, int_decimal};
use crate::text::{
    chars_of, concat2, concat3, contains, is_one_of, lemma_trim_lower_plain, one_of, str_contains,
    str_eq, string_views, trim_lower, trim_lower_str,
};

verus! {

/// How incoming Telegram messages map to a logical conversation session.
#[derive(Debug, Clone, Copy, PartialEq, Eq, Structural)]
pub enum TelegramSessionPartition {
    /// Share one session for everyone in the same chat.
    ChatOnly,
    /// Isolate by chat and user.
    ChatUser,
    /// Share one session for the same user across all chats.
    UserOnly,
    /// Isolate by chat, thread, and user.
    ChatThreadUser,
}

impl Default for TelegramSessionPartition {
    fn default() -> (p: Self)
        ensures
            p == TelegramSessionPartition::ChatOnly,
    {
        TelegramSessionPartition::ChatOnly
    }
}

/// Telegram forum-topic thread identifier used for session keys.
#[derive(Debug, Clone, Copy, PartialEq, Eq, Structural)]
pub struct TelegramThreadId(i64);

impl TelegramThreadId {
    /// The raw identifier.
    pub closed spec fn raw(self) -> i64 {
        self.0
    }

    /// Build a Telegram thread identifier.
    pub fn new(value: i64) -> (t: Self)
        ensures
            t.raw() == value,
    {
        Self(value)
    }

    /// Return the raw Telegram thread id.
    pub fn into_raw(self) -> (v: i64)
        ensures
            v == self.raw(),
    {
        self.0
    }
}

/// The Telegram session key of a partition: `chat`, `chat:user`, `user` or
/// `chat:thread:user`, with thread `0` when there is none.
pub open spec fn telegram_session_key(
    partition: TelegramSessionPartition,
    chat_id: Seq<char>,
    user_identity: Seq<char>,
    thread_id: Option<i64>,
) -> Seq<char> {
    match partition {
        TelegramSessionPartition::ChatOnly => chat_id,
        TelegramSessionPartition::ChatUser => chat_id + ":"@ + user_identity,
        TelegramSessionPartition::UserOnly => user_identity,
        TelegramSessionPartition::ChatThreadUser => {
            let thread = match thread_id {
                Some(t) => t as int,
                None => 0,
            };
            chat_id + ":"@ + int_decimal(thread) + ":"@ + user_identity
        },
    }
}

/// The stable name of a Telegram partition.
pub open spec fn telegram_partition_name(p: TelegramSessionPartition) -> Seq<char> {
    match p {
        TelegramSessionPartition::ChatOnly => "chat"@,
        TelegramSessionPartition::ChatUser => "chat_user"@,
        TelegramSessionPartition::UserOnly => "user"@,
        TelegramSessionPartition::ChatThreadUser => "chat_thread_user"@,
    }
}

/// The Telegram partition that a configuration value selects: the value is
/// trimmed and lower-cased, then looked up among the accepted aliases.
pub open spec fn parse_telegram_partition(value: Seq<char>) -> Option<TelegramSessionPartition> {
    let v = trim_lower(value);
    if is_one_of(v, seq!["chat", "chat_only", "chat-only", "chatonly"]) {
        Some(TelegramSessionPartition::ChatOnly)
    } else if is_one_of(v, seq!["chat_user", "chat-user", "chatuser"]) {
        Some(TelegramSessionPartition::ChatUser)
    } else if is_one_of(v, seq!["user", "user_only", "user-only", "useronly"]) {
        Some(TelegramSessionPartition::UserOnly)
    } else if is_one_of(
        v,
        seq![
            "chat_thread_user",
            "chat-thread-user",
            "chatthreaduser",
            "topic_user",
            "topic-user",
            "topicuser",
        ],
    ) {
        Some(TelegramSessionPartition::ChatThreadUser)
    } else {
        None
    }
}

impl TelegramSessionPartition {
    /// Build a session key from Telegram identifiers.
    pub fn build_session_key(
        self,
        chat_id: &str,
        user_identity: &str,
        thread_id: Option<TelegramThreadId>,
    ) -> (key: String)
        ensures
            key@ == telegram_session_key(
                self,
                chat_id@,
                user_identity@,
                match thread_id {
                    Some(t) => Some(t.raw()),
                    None => None,
                },
            ),
    {
        match self {
            TelegramSessionPartition::ChatOnly => String::from_str(chat_id),
            TelegramSessionPartition::ChatUser => concat3(chat_id, ":", user_identity),
            TelegramSessionPartition::UserOnly => String::from_str(user_identity),
            TelegramSessionPartition::ChatThreadUser => {
                let thread: i64 = match thread_id {
                    Some(t) => t.into_raw(),
                    None => 0,
                };
                let digits = i64_to_string(thread);
                let mut key = concat3(chat_id, ":", digits.as_str());
                key.append(":");
                key.append(user_identity);
                key
            },
        }
    }

    /// The stable name of the partition (its `Display` form).
    pub fn as_str(self) -> (s: &'static str)
        ensures
            s@ == telegram_partition_name(self),
    {
        match self {
            TelegramSessionPartition::ChatOnly => "chat",
            TelegramSessionPartition::ChatUser => "chat_user",
            TelegramSessionPartition::UserOnly => "user",
            TelegramSessionPartition::ChatThreadUser => "chat_thread_user",
        }
    }

    /// Parse a partition from a configuration value (its `FromStr` form).
    pub fn parse_str(value: &str) -> (r: Result<Self, SessionPartitionParseError>)
        ensures
            match parse_telegram_partition(value@) {
                Some(p) => r == Ok::<Self, SessionPartitionParseError>(p),
                None => r is Err,
            },
    {
        let v = trim_lower_str(value);
        if one_of(&v, &["chat", "chat_only", "chat-only", "chatonly"]) {
            Ok(TelegramSessionPartition::ChatOnly)
        } else if one_of(&v, &["chat_user", "chat-user", "chatuser"]) {
            Ok(TelegramSessionPartition::ChatUser)
        } else if one_of(&v, &["user", "user_only", "user-only", "useronly"]) {
            Ok(TelegramSessionPartition::UserOnly)
        } else if one_of(
            &v,
            &[
                "chat_thread_user",
                "chat-thread-user",
                "chatthreaduser",
                "topic_user",
                "topic-user",
                "topicuser",
            ],
        ) {
            Ok(TelegramSessionPartition::ChatThreadUser)
        } else {
            Err(SessionPartitionParseError)
        }
    }
}

impl core::str::FromStr for TelegramSessionPartition {
    type Err = SessionPartitionParseError;

    fn from_str(value: &str) -> (r: Result<Self, Self::Err>)
        ensures
            match parse_telegram_partition(value@) {
                Some(p) => r == Ok::<Self, SessionPartitionParseError>(p),
                None => r is Err,
            },
    {
        Self::parse_str(value)
    }
}

/// The name of every Telegram partition parses back to that partition.
pub proof fn lemma_telegram_partition_name_roundtrip(p: TelegramSessionPartition)
    ensures
        parse_telegram_partition(telegram_partition_name(p)) == Some(p),
{
    reveal_strlit("chat");
    reveal_strlit("chat_only");
    reveal_strlit("chat-only");
    reveal_strlit("chatonly");
    reveal_strlit("chat_user");
    reveal_strlit("chat-user");
    reveal_strlit("chatuser");
    reveal_strlit("user");
    reveal_strlit("user_only");
    reveal_strlit("user-only");
    reveal_strlit("useronly");
    reveal_strlit("chat_thread_user");
    reveal_strlit("chat-thread-user");
    reveal_strlit("chatthreaduser");
    reveal_strlit("topic_user");
    reveal_strlit("topic-user");
    reveal_strlit("topicuser");
    let name = telegram_partition_name(p);
    lemma_trim_lower_plain(name);
    let a1 = seq!["chat", "chat_only", "chat-only", "chatonly"];
    let a2 = seq!["chat_user", "chat-user", "chatuser"];
    let a3 = seq!["user", "user_only", "user-only", "useronly"];
    match p {
        TelegramSessionPartition::ChatOnly => {
            assert(a1[0]@ == name);
        },
        TelegramSessionPartition::ChatUser => {
            assert(a2[0]@ == name);
            assert(!is_one_of(name, a1));
        },
        TelegramSessionPartition::UserOnly => {
            assert(a3[0]@ == name);
            assert(!is_one_of(name, a1));
            assert(!is_one_of(name, a2));
        },
        TelegramSessionPartition::ChatThreadUser => {
            assert(!is_one_of(name, a1));
            assert(!is_one_of(name, a2));
            assert(!is_one_of(name, a3));
            assert(seq![
                "chat_thread_user",
                "chat-thread-user",
                "chatthreaduser",
                "topic_user",
                "topic-user",
                "topicuser",
            ][0]@ == name);
        },
    }
}

/// How incoming Discord messages map to a logical conversation session.
#[derive(Debug, Clone, Copy, PartialEq, Eq, Structural)]
pub enum DiscordSessionPartition {
    /// Isolate by guild or DM scope, channel, and user.
    GuildChannelUser,
    /// Share one session per channel.
    ChannelOnly,
    /// Share one session per user across all guilds and channels.
    UserOnly,
    /// Share one session per user within one guild or DM scope.
    GuildUser,
}

impl Default for DiscordSessionPartition {
    fn default() -> (p: Self)
        ensures
            p == DiscordSessionPartition::GuildChannelUser,
    {
        DiscordSessionPartition::GuildChannelUser
    }
}

/// The Discord session key of a partition: `scope:channel:user`,
/// `scope:channel`, `user` or `scope:user`.
pub open spec fn discord_session_key(
    partition: DiscordSessionPartition,
    scope: Seq<char>,
    channel_id: Seq<char>,
    user_identity: Seq<char>,
) -> Seq<char> {
    match partition {
        DiscordSessionPartition::GuildChannelUser => scope + ":"@ + channel_id + ":"@
            + user_identity,
        DiscordSessionPartition::ChannelOnly => scope + ":"@ + channel_id,
        DiscordSessionPartition::UserOnly => user_identity,
        DiscordSessionPartition::GuildUser => scope + ":"@ + user_identity,
    }
}

/// The stable name of a Discord partition.
pub open spec fn discord_partition_name(p: DiscordSessionPartition) -> Seq<char> {
    match p {
        DiscordSessionPartition::GuildChannelUser => "guild_channel_user"@,
        DiscordSessionPartition::ChannelOnly => "channel"@,
        DiscordSessionPartition::UserOnly => "user"@,
        DiscordSessionPartition::GuildUser => "guild_user"@,
    }
}

/// The Discord partition that a configuration value selects: the value is
/// trimmed and lower-cased, then looked up among the accepted aliases.
pub open spec fn parse_discord_partition(value: Seq<char>) -> Option<DiscordSessionPartition> {
    let v = trim_lower(value);
    if is_one_of(
        v,
        seq![
            "guild_channel_user",
            "guild-channel-user",
            "guildchanneluser",
            "channel_user",
            "channel-user",
            "channeluser",
        ],
    ) {
        Some(DiscordSessionPartition::GuildChannelUser)
    } else if is_one_of(v, seq!["channel", "channel_only", "channel-only", "channelonly"]) {
        Some(DiscordSessionPartition::ChannelOnly)
    } else if is_one_of(v, seq!["user", "user_only", "user-only", "useronly"]) {
        Some(DiscordSessionPartition::UserOnly)
    } else if is_one_of(v, seq!["guild_user", "guild-user", "guilduser"]) {
        Some(DiscordSessionPartition::GuildUser)
    } else {
        None
    }
}

impl DiscordSessionPartition {
    /// Build a session key from Discord identifiers.
    pub fn build_session_key(self, scope: &str, channel_id: &str, user_identity: &str) -> (key:
        String)
        ensures
            key@ == discord_session_key(self, scope@, channel_id@, user_identity@),
    {
        match self {
            DiscordSessionPartition::GuildChannelUser => {
                let mut key = concat3(scope, ":", channel_id);
                key.append(":");
                key.append(user_identity);
                key
            },
            DiscordSessionPartition::ChannelOnly => concat3(scope, ":", channel_id),
            DiscordSessionPartition::UserOnly => String::from_str(user_identity),
            DiscordSessionPartition::GuildUser => concat3(scope, ":", user_identity),
        }
    }

    /// Build a session scope value from a prefix and Discord identifiers:
    /// the prefix followed by the session key.
    pub fn build_session_scope(
        self,
        prefix: &str,
        scope: &str,
        channel_id: &str,
        user_identity: &str,
    ) -> (value: String)
        ensures
            value@ == prefix@ + discord_session_key(self, scope@, channel_id@, user_identity@),
    {
        let key = self.build_session_key(scope, channel_id, user_identity);
        concat2(prefix, key.as_str())
    }

    /// The stable name of the partition (its `Display` form).
    pub fn as_str(self) -> (s: &'static str)
        ensures
            s@ == discord_partition_name(self),
    {
        match self {
            DiscordSessionPartition::GuildChannelUser => "guild_channel_user",
            DiscordSessionPartition::ChannelOnly => "channel",
            DiscordSessionPartition::UserOnly => "user",
            DiscordSessionPartition::GuildUser => "guild_user",
        }
    }

    /// Parse a partition from a configuration value (its `FromStr` form).
    pub fn parse_str(value: &str) -> (r: Result<Self, SessionPartitionParseError>)
        ensures
            match parse_discord_partition(value@) {
                Some(p) => r == Ok::<Self, SessionPartitionParseError>(p),
                None => r is Err,
            },
    {
        let v = trim_lower_str(value);
        if one_of(
            &v,
            &[
                "guild_channel_user",
                "guild-channel-user",
                "guildchanneluser",
                "channel_user",
                "channel-user",
                "channeluser",
            ],
        ) {
            Ok(DiscordSessionPartition::GuildChannelUser)
        } else if one_of(&v, &["channel", "channel_only", "channel-only", "channelonly"]) {
            Ok(DiscordSessionPartition::ChannelOnly)
        } else if one_of(&v, &["user", "user_only", "user-only", "useronly"]) {
            Ok(DiscordSessionPartition::UserOnly)
        } else if one_of(&v, &["guild_user", "guild-user", "guilduser"]) {
            Ok(DiscordSessionPartition::GuildUser)
        } else {
            Err(SessionPartitionParseError)
        }
    }
}

impl core::str::FromStr for DiscordSessionPartition {
    type Err = SessionPartitionParseError;

    fn from_str(value: &str) -> (r: Result<Self, Self::Err>)
        ensures
            match parse_discord_partition(value@) {
                Some(p) => r == Ok::<Self, SessionPartitionParseError>(p),
                None => r is Err,
            },
    {
        Self::parse_str(value)
    }
}

/// The name of every Discord partition parses back to that partition.
pub proof fn lemma_discord_partition_name_roundtrip(p: DiscordSessionPartition)
    ensures
        parse_discord_partition(discord_partition_name(p)) == Some(p),
{
    reveal_strlit("guild_channel_user");
    reveal_strlit("guild-channel-user");
    reveal_strlit("guildchanneluser");
    reveal_strlit("channel_user");
    reveal_strlit("channel-user");
    reveal_strlit("channeluser");
    reveal_strlit("channel");
    reveal_strlit("channel_only");
    reveal_strlit("channel-only");
    reveal_strlit("channelonly");
    reveal_strlit("user");
    reveal_strlit("user_only");
    reveal_strlit("user-only");
    reveal_strlit("useronly");
    reveal_strlit("guild_user");
    reveal_strlit("guild-user");
    reveal_strlit("guilduser");
    let name = discord_partition_name(p);
    lemma_trim_lower_plain(name);
    let a1 = seq![
        "guild_channel_user",
        "guild-channel-user",
        "guildchanneluser",
        "channel_user",
        "channel-user",
        "channeluser",
    ];
    let a2 = seq!["channel", "channel_only", "channel-only", "channelonly"];
    let a3 = seq!["user", "user_only", "user-only", "useronly"];
    let a4 = seq!["guild_user", "guild-user", "guilduser"];
    match p {
        DiscordSessionPartition::GuildChannelUser => {
            assert(a1[0]@ == name);
        },
        DiscordSessionPartition::ChannelOnly => {
            assert(!is_one_of(name, a1));
            assert(a2[0]@ == name);
        },
        DiscordSessionPartition::UserOnly => {
            assert(!is_one_of(name, a1));
            assert(!is_one_of(name, a2));
            assert(a3[0]@ == name);
        },
        DiscordSessionPartition::GuildUser => {
            assert(!is_one_of(name, a1));
            assert(!is_one_of(name, a2));
            assert(!is_one_of(name, a3));
            assert(a4[0]@ == name);
        },
    }
}

/// Whether a Discord message may enter the bot turn pipeline: always when no
/// mention is required; otherwise only when the bot id is known and the
/// message mentions it, structurally or inline as `<@id>` or `<@!id>`.
pub open spec fn discord_gate_accepts(
    require_mention: bool,
    bot_user_id: Option<Seq<char>>,
    content: Seq<char>,
    mentioned: Seq<Seq<char>>,
) -> bool {
    if !require_mention {
        true
    } else {
        match bot_user_id {
            None => false,
            Some(bot) => {
                ||| exists|i: int| 0 <= i < mentioned.len() && mentioned[i] == bot
                ||| contains(content, "<@"@ + bot + ">"@)
                ||| contains(content, "<@!"@ + bot + ">"@)
            },
        }
    }
}

/// Discord mention gate for foreground channel turns.
#[derive(Debug, Clone, PartialEq, Eq)]
pub struct DiscordMentionGate {
    /// Whether a bot mention is required before handling the message.
    pub require_mention: bool,
    /// Discord bot user id, without mention markup.
    pub bot_user_id: Option<String>,
}

impl DiscordMentionGate {
    /// Decide whether a Discord message should enter the bot turn pipeline.
    pub fn accepts_message(&self, content: &str, mentioned_user_ids: &[String]) -> (r: bool)
        ensures
            r == discord_gate_accepts(
                self.require_mention,
                self.bot_user_id.deep_view(),
                content@,
                string_views(mentioned_user_ids@),
            ),
    {
        if !self.require_mention {
            return true;
        }
        let bot_user_id = match &self.bot_user_id {
            Some(b) => b.as_str(),
            None => {
                return false;
            },
        };
        assert(self.bot_user_id.deep_view() == Some(bot_user_id@));
        let ghost ids = string_views(mentioned_user_ids@);
        let mut i: usize = 0;
        while i < mentioned_user_ids.len()
            invariant
                i <= mentioned_user_ids@.len(),
                ids == string_views(mentioned_user_ids@),
                self.require_mention,
                self.bot_user_id.deep_view() == Some(bot_user_id@),
                forall|j: int| 0 <= j < i ==> ids[j] != bot_user_id@,
            decreases mentioned_user_ids@.len() - i,
        {
            if str_eq(mentioned_user_ids[i].as_str(), bot_user_id) {
                assert(ids[i as int] == bot_user_id@);
                assert(exists|j: int| 0 <= j < ids.len() && ids[j] == bot_user_id@);
                return true;
            }
            i += 1;
        }
        let plain = concat3("<@", bot_user_id, ">");
        let bang = concat3("<@!", bot_user_id, ">");
        str_contains(content, plain.as_str()) || str_contains(content, bang.as_str())
    }
}

/// Session partition parse failure.
#[derive(Debug, Clone, Copy, PartialEq, Eq, Structural)]
pub struct SessionPartitionParseError;

impl SessionPartitionParseError {
    /// The diagnostic text of the error (its `Display` form).
    pub fn as_str(&self) -> (s: &'static str)
        ensures
            s@ == "invalid session partition"@,
    {
        "invalid session partition"
    }
}

} // verus!
