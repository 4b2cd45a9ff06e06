//! Telegram group profile extraction from runtime logs.
//!
//! Each log line that records a parsed Telegram message yields the group
//! evidence it carries; the profile keeps, per group title, the evidence of
//! the last such line.

use vstd::prelude::*;
use crate::decimal::{parse_i64, parse_i64_chars};
use crate::text::{
    chars_of, concat2, find, find_chars, find_ws_from, find_ws_from_exec, join, join_strings,
    lemma_text_lt_total, lemma_text_lt_trans, seq_eq, slice_subrange, str_eq, string_of,
    string_views, text_less, text_lt,
};

verus! {

/// Telegram chat id.
#[derive(Debug, Clone, Copy, PartialEq, Eq, Structural)]
pub struct TelegramChatId(i64);

impl TelegramChatId {
    /// The raw identifier.
    pub closed spec fn raw(self) -> i64 {
        self.0
    }

    /// Build a Telegram chat id.
    pub fn new(value: i64) -> (id: Self)
        ensures
            id.raw() == value,
    {
        Self(value)
    }

    /// Return the raw id.
    pub fn into_raw(self) -> (v: i64)
        ensures
            v == self.raw(),
    {
        self.0
    }
}

/// Telegram forum topic/thread id.
#[derive(Debug, Clone, Copy, PartialEq, Eq, Structural)]
pub struct TelegramProfileThreadId(i64);

impl TelegramProfileThreadId {
    /// The raw identifier.
    pub closed spec fn raw(self) -> i64 {
        self.0
    }

    /// Build a Telegram thread id.
    pub fn new(value: i64) -> (id: Self)
        ensures
            id.raw() == value,
    {
        Self(value)
    }

    /// Return the raw id.
    pub fn into_raw(self) -> (v: i64)
        ensures
            v == self.raw(),
    {
        self.0
    }
}

/// Telegram runtime session key extracted from logs.
#[derive(Debug, Clone, PartialEq, Eq)]
pub struct TelegramSessionKey(String);

impl View for TelegramSessionKey {
    type V = Seq<char>;

    closed spec fn view(&self) -> Seq<char> {
        self.0@
    }
}

impl TelegramSessionKey {
    /// Build a session key.
    pub fn new(value: &str) -> (k: Self)
        ensures
            k@ == value@,
    {
        Self(String::from_str(value))
    }

    /// Return the raw session key.
    pub fn as_str(&self) -> (s: &str)
        ensures
            s@ == self@,
    {
        self.0.as_str()
    }
}

/// Telegram chat type from runtime logs.
#[derive(Debug, Clone, Copy, PartialEq, Eq, Structural)]
pub enum TelegramChatType {
    /// Private chat.
    Private,
    /// Group chat.
    Group,
    /// Supergroup chat.
    Supergroup,
    /// Channel chat.
    Channel,
}

/// The chat type a log value names, matched exactly.
pub open spec fn chat_type_of(value: Seq<char>) -> Option<TelegramChatType> {
    if value == "private"@ {
        Some(TelegramChatType::Private)
    } else if value == "group"@ {
        Some(TelegramChatType::Group)
    } else if value == "supergroup"@ {
        Some(TelegramChatType::Supergroup)
    } else if value == "channel"@ {
        Some(TelegramChatType::Channel)
    } else {
        None
    }
}

/// The name the runtime logs give a chat type.
pub open spec fn chat_type_log_name(t: TelegramChatType) -> Seq<char> {
    match t {
        TelegramChatType::Private => "private"@,
        TelegramChatType::Group => "group"@,
        TelegramChatType::Supergroup => "supergroup"@,
        TelegramChatType::Channel => "channel"@,
    }
}

/// A chat type is read back from its log name, and a log value is read as a
/// chat type only when it is that type's name: reading is one-to-one.
pub proof fn lemma_chat_type_log_name_roundtrip(t: TelegramChatType, value: Seq<char>)
    ensures
        chat_type_of(chat_type_log_name(t)) == Some(t),
        chat_type_of(value) == Some(t) ==> value == chat_type_log_name(t),
{
    reveal_strlit("private");
    reveal_strlit("group");
    reveal_strlit("supergroup");
    reveal_strlit("channel");
    assert("private"@.len() == 7 && "group"@.len() == 5 && "supergroup"@.len() == 10
        && "channel"@.len() == 7);
    assert("private"@[0] != "channel"@[0]);
}

/// The group a log line gives has the chat type named in the line's
/// `chat_type=Some("...")` field.
pub proof fn lemma_group_chat_type_named_in_line(line: Seq<char>)
    ensures
        group_of_line(line) matches Some(g) ==> quoted_after(line, "chat_type=Some(\""@) == Some(
            chat_type_log_name(g.chat_type),
        ),
{
    if let Some(g) = group_of_line(line) {
        let kind = quoted_after(line, "chat_type=Some(\""@).unwrap();
        lemma_chat_type_log_name_roundtrip(g.chat_type, kind);
    }
}

impl TelegramChatType {
    fn parse(value: &[char]) -> (r: Option<Self>)
        ensures
            r == chat_type_of(value@),
    {
        if seq_eq(value, &chars_of("private")) {
            Some(TelegramChatType::Private)
        } else if seq_eq(value, &chars_of("group")) {
            Some(TelegramChatType::Group)
        } else if seq_eq(value, &chars_of("supergroup")) {
            Some(TelegramChatType::Supergroup)
        } else if seq_eq(value, &chars_of("channel")) {
            Some(TelegramChatType::Channel)
        } else {
            None
        }
    }
}

/// Telegram group evidence extracted from a log line.
#[derive(Debug, Clone, PartialEq, Eq)]
pub struct TelegramGroup {
    /// Telegram chat id.
    pub chat_id: TelegramChatId,
    /// Telegram group title.
    pub title: String,
    /// Telegram chat type from the log line.
    pub chat_type: TelegramChatType,
    /// Session key used by the channel runtime.
    pub session_key: TelegramSessionKey,
    /// Optional Telegram forum topic/thread id.
    pub thread_id: Option<TelegramProfileThreadId>,
}

/// The content of a group's evidence.
pub struct TelegramGroupView {
    /// Telegram chat id.
    pub chat_id: i64,
    /// Telegram group title.
    pub title: Seq<char>,
    /// Telegram chat type.
    pub chat_type: TelegramChatType,
    /// Session key used by the channel runtime.
    pub session_key: Seq<char>,
    /// Optional Telegram forum topic/thread id.
    pub thread_id: Option<i64>,
}

impl View for TelegramGroup {
    type V = TelegramGroupView;

    open spec fn view(&self) -> TelegramGroupView {
        TelegramGroupView {
            chat_id: self.chat_id.raw(),
            title: self.title@,
            chat_type: self.chat_type,
            session_key: self.session_key@,
            thread_id: match self.thread_id {
                Some(t) => Some(t.raw()),
                None => None,
            },
        }
    }
}

// ---------------------------------------------------------------------------
// Reading one log line
// ---------------------------------------------------------------------------

/// What follows the first occurrence of `marker` in `line`.
pub open spec fn after_marker(line: Seq<char>, marker: Seq<char>) -> Option<Seq<char>> {
    match find(line, marker) {
        Some(k) => Some(line.skip(k + marker.len())),
        None => None,
    }
}

/// The integer between `marker` and the next `)`.
pub open spec fn i64_after(line: Seq<char>, marker: Seq<char>) -> Option<i64> {
    match after_marker(line, marker) {
        Some(rest) => match find(rest, ")"@) {
            Some(end) => parse_i64(rest.take(end)),
            None => None,
        },
        None => None,
    }
}

/// The text between `marker` and the next `"`.
pub open spec fn quoted_after(line: Seq<char>, marker: Seq<char>) -> Option<Seq<char>> {
    match after_marker(line, marker) {
        Some(rest) => match find(rest, "\""@) {
            Some(end) => Some(rest.take(end)),
            None => None,
        },
        None => None,
    }
}

/// The text between `marker` and the next white space or the end of the
/// line.
pub open spec fn token_after(line: Seq<char>, marker: Seq<char>) -> Option<Seq<char>> {
    match after_marker(line, marker) {
        Some(rest) => match find_ws_from(rest, 0) {
            Some(end) => Some(rest.take(end)),
            None => Some(rest),
        },
        None => None,
    }
}

/// The group evidence a log line carries: a chat id, a title, a known chat
/// type and a session key are required; the thread id is optional.
pub open spec fn group_of_line(line: Seq<char>) -> Option<TelegramGroupView> {
    match i64_after(line, "chat_id=Some("@) {
        None => None,
        Some(chat_id) => match quoted_after(line, "chat_title=Some(\""@) {
            None => None,
            Some(title) => match quoted_after(line, "chat_type=Some(\""@) {
                None => None,
                Some(kind) => match chat_type_of(kind) {
                    None => None,
                    Some(chat_type) => match token_after(line, "session_key="@) {
                        None => None,
                        Some(session_key) => Some(
                            TelegramGroupView {
                                chat_id,
                                title,
                                chat_type,
                                session_key,
                                thread_id: i64_after(line, "message_thread_id=Some("@),
                            },
                        ),
                    },
                },
            },
        },
    }
}

fn rest_after_marker(line: &[char], marker: &str) -> (r: Option<Vec<char>>)
    ensures
        match r {
            Some(rest) => after_marker(line@, marker@) == Some(rest@),
            None => after_marker(line@, marker@) is None,
        },
{
    let m = chars_of(marker);
    let n = line.len();
    match find_chars(line, &m) {
        Some(k) => {
            proof {
                crate::text::lemma_find_from(line@, m@, 0);
            }
            assert(k + m@.len() <= n);
            Some(slice_subrange(line, k + m.len(), n))
        },
        None => None,
    }
}

fn parse_i64_after(line: &[char], marker: &str) -> (r: Option<i64>)
    ensures
        r == i64_after(line@, marker@),
{
    let rest = rest_after_marker(line, marker)?;
    let close = chars_of(")");
    let end = find_chars(&rest, &close)?;
    proof {
        crate::text::lemma_find_from(rest@, close@, 0);
    }
    let digits = slice_subrange(&rest, 0, end);
    parse_i64_chars(&digits)
}

fn parse_quoted_after(line: &[char], marker: &str) -> (r: Option<Vec<char>>)
    ensures
        match r {
            Some(v) => quoted_after(line@, marker@) == Some(v@),
            None => quoted_after(line@, marker@) is None,
        },
{
    let rest = rest_after_marker(line, marker)?;
    let quote = chars_of("\"");
    let end = find_chars(&rest, &quote)?;
    proof {
        crate::text::lemma_find_from(rest@, quote@, 0);
    }
    Some(slice_subrange(&rest, 0, end))
}

fn parse_token_after(line: &[char], marker: &str) -> (r: Option<Vec<char>>)
    ensures
        match r {
            Some(v) => token_after(line@, marker@) == Some(v@),
            None => token_after(line@, marker@) is None,
        },
{
    let rest = rest_after_marker(line, marker)?;
    let end = match find_ws_from_exec(&rest, 0) {
        Some(e) => {
            proof {
                lemma_find_ws_from(rest@, 0);
            }
            e
        },
        None => rest.len(),
    };
    assert(rest@.take(rest@.len() as int) == rest@);
    Some(slice_subrange(&rest, 0, end))
}

proof fn lemma_find_ws_from(s: Seq<char>, from: int)
    requires
        0 <= from,
    ensures
        find_ws_from(s, from) matches Some(k) ==> from <= k < s.len(),
    decreases s.len() - from,
{
    if from < s.len() && !crate::text::is_whitespace(s[from]) {
        lemma_find_ws_from(s, from + 1);
    }
}

fn parse_thread_id(line: &[char]) -> (r: Option<i64>)
    ensures
        r == i64_after(line@, "message_thread_id=Some("@),
{
    parse_i64_after(line, "message_thread_id=Some(")
}

fn parse_group_line(line: &[char]) -> (r: Option<TelegramGroup>)
    ensures
        match r {
            Some(g) => group_of_line(line@) == Some(g@),
            None => group_of_line(line@) is None,
        },
{
    let chat_id = TelegramChatId::new(parse_i64_after(line, "chat_id=Some(")?);
    let title = parse_quoted_after(line, "chat_title=Some(\"")?;
    let kind = parse_quoted_after(line, "chat_type=Some(\"")?;
    let chat_type = TelegramChatType::parse(&kind)?;
    let session_key = parse_token_after(line, "session_key=")?;
    let thread_id = match parse_thread_id(line) {
        Some(t) => Some(TelegramProfileThreadId::new(t)),
        None => None,
    };
    let key_text = string_of(&session_key);
    let g = TelegramGroup {
        chat_id,
        title: string_of(&title),
        chat_type,
        session_key: TelegramSessionKey::new(key_text.as_str()),
        thread_id,
    };
    Some(g)
}


// ---------------------------------------------------------------------------
// Lines of a log
// ---------------------------------------------------------------------------

/// Index of the first newline at or after `from`, or the text's length.
pub open spec fn next_newline(s: Seq<char>, from: int) -> int
    decreases s.len() - from,
{
    if from < 0 || from >= s.len() {
        s.len() as int
    } else if s[from] == '\n' {
        from
    } else {
        next_newline(s, from + 1)
    }
}

proof fn lemma_next_newline(s: Seq<char>, from: int)
    requires
        0 <= from <= s.len(),
    ensures
        from <= next_newline(s, from) <= s.len(),
    decreases s.len() - from,
{
    if from < s.len() && s[from] != '\n' {
        lemma_next_newline(s, from + 1);
    }
}

/// A line's text: a line that ended with a newline loses a trailing `\r`.
pub open spec fn line_text(raw: Seq<char>, ended_by_newline: bool) -> Seq<char> {
    if ended_by_newline && raw.len() > 0 && raw.last() == '\r' {
        raw.drop_last()
    } else {
        raw
    }
}

/// The lines of `s` from index `start` on (`str::lines`): split at `\n`,
/// a `\r` before the `\n` dropped, and no empty line after a final newline.
pub open spec fn lines_from(s: Seq<char>, start: int) -> Seq<Seq<char>>
    decreases s.len() + 1 - start,
{
    if start < 0 || start >= s.len() {
        seq![]
    } else {
        let end = next_newline(s, start);
        if end < start || end > s.len() {
            seq![]
        } else {
            seq![line_text(s.subrange(start, end), end < s.len())] + lines_from(s, end + 1)
        }
    }
}

/// The lines of `s` (`str::lines`).
pub open spec fn lines(s: Seq<char>) -> Seq<Seq<char>> {
    lines_from(s, 0)
}

/// The group evidence of each line that carries some, in order.
pub open spec fn groups_of_lines(ls: Seq<Seq<char>>) -> Seq<TelegramGroupView>
    decreases ls.len(),
{
    if ls.len() == 0 {
        seq![]
    } else {
        let rest = groups_of_lines(ls.drop_last());
        match group_of_line(ls.last()) {
            Some(g) => rest.push(g),
            None => rest,
        }
    }
}

/// Group evidence keyed by title, later evidence replacing earlier.
pub open spec fn groups_by_title(gs: Seq<TelegramGroupView>) -> Map<Seq<char>, TelegramGroupView>
    decreases gs.len(),
{
    if gs.len() == 0 {
        Map::empty()
    } else {
        groups_by_title(gs.drop_last()).insert(gs.last().title, gs.last())
    }
}

/// The groups a runtime log records, keyed by title: for each title, the
/// evidence of the last line that names it.
pub open spec fn log_profile(log: Seq<char>) -> Map<Seq<char>, TelegramGroupView> {
    groups_by_title(groups_of_lines(lines(log)))
}

// ---------------------------------------------------------------------------
// The profile
// ---------------------------------------------------------------------------

/// Titles strictly increase along `gs`.
pub open spec fn sorted_by_title(gs: Seq<TelegramGroup>) -> bool {
    forall|i: int, j: int| 0 <= i < j < gs.len() ==> text_lt(gs[i].title@, gs[j].title@)
}

/// The groups of `gs` keyed by title.
pub open spec fn group_map(gs: Seq<TelegramGroup>) -> Map<Seq<char>, TelegramGroupView> {
    Map::new(
        |t: Seq<char>| exists|i: int| 0 <= i < gs.len() && gs[i].title@ == t,
        |t: Seq<char>| gs[choose|i: int| 0 <= i < gs.len() && gs[i].title@ == t]@,
    )
}

/// Under sorted titles, the group at index `i` is the one its title maps to.
proof fn lemma_group_map_at(gs: Seq<TelegramGroup>, i: int)
    requires
        sorted_by_title(gs),
        0 <= i < gs.len(),
    ensures
        group_map(gs).dom().contains(gs[i].title@),
        group_map(gs)[gs[i].title@] == gs[i]@,
{
    let t = gs[i].title@;
    assert(0 <= i < gs.len() && gs[i].title@ == t);
    let k = choose|k: int| 0 <= k < gs.len() && gs[k].title@ == t;
    lemma_text_lt_total(t, t);
    if k < i {
        assert(text_lt(gs[k].title@, gs[i].title@));
    } else if i < k {
        assert(text_lt(gs[i].title@, gs[k].title@));
    }
}

/// Parsed Telegram group profile keyed by title.
#[derive(Debug, PartialEq, Eq)]
pub struct TelegramGroupProfile {
    groups: Vec<TelegramGroup>,
}

impl TelegramGroupProfile {
    #[verifier::type_invariant]
    spec fn titles_sorted(self) -> bool {
        sorted_by_title(self.groups@)
    }
}

impl View for TelegramGroupProfile {
    type V = Map<Seq<char>, TelegramGroupView>;

    closed spec fn view(&self) -> Map<Seq<char>, TelegramGroupView> {
        group_map(self.groups@)
    }
}

/// Record `g` in the title-sorted `groups`, replacing the group with the
/// same title.
fn insert_group(groups: &mut Vec<TelegramGroup>, g: TelegramGroup)
    requires
        sorted_by_title(old(groups)@),
    ensures
        sorted_by_title(final(groups)@),
        group_map(final(groups)@) == group_map(old(groups)@).insert(g.title@, g@),
{
    let ghost old_gs = groups@;
    let t = chars_of(g.title.as_str());
    let mut p: usize = 0;
    while p < groups.len() && text_less(&chars_of(groups[p].title.as_str()), &t)
        invariant
            p <= groups@.len(),
            groups@ == old_gs,
            t@ == g.title@,
            forall|i: int| 0 <= i < p ==> text_lt(#[trigger] groups@[i].title@, g.title@),
        decreases groups@.len() - p,
    {
        p += 1;
    }
    let ghost tn = g.title@;
    if p < groups.len() && str_eq(groups[p].title.as_str(), g.title.as_str()) {
        let ghost gv = g@;
        groups.set(p, g);
        proof {
            let new_gs = groups@;
            assert(new_gs == old_gs.update(p as int, new_gs[p as int]));
            assert forall|i: int, j: int| 0 <= i < j < new_gs.len() implies text_lt(
                new_gs[i].title@,
                new_gs[j].title@,
            ) by {
                assert(old_gs[i].title@ == new_gs[i].title@);
                assert(old_gs[j].title@ == new_gs[j].title@);
            }
            assert forall|u: Seq<char>| #[trigger] group_map(new_gs).dom().contains(u)
                <==> group_map(old_gs).insert(tn, gv).dom().contains(u) by {
                if group_map(old_gs).dom().contains(u) {
                    let k = choose|k: int| 0 <= k < old_gs.len() && old_gs[k].title@ == u;
                    assert(new_gs[k].title@ == u);
                }
                if group_map(new_gs).dom().contains(u) {
                    let k = choose|k: int| 0 <= k < new_gs.len() && new_gs[k].title@ == u;
                    assert(old_gs[k].title@ == u);
                }
            }
            assert forall|u: Seq<char>| #[trigger] group_map(new_gs).dom().contains(u) implies group_map(
                new_gs,
            )[u] == group_map(old_gs).insert(tn, gv)[u] by {
                let k = choose|k: int| 0 <= k < new_gs.len() && new_gs[k].title@ == u;
                lemma_group_map_at(new_gs, k);
                if k != p {
                    lemma_group_map_at(old_gs, k);
                    if u == tn {
                        lemma_group_map_at(new_gs, p as int);
                    }
                } else {
                    assert(u == tn);
                }
            }
            assert(group_map(new_gs) =~= group_map(old_gs).insert(tn, gv));
        }
    } else {
        proof {
            if p < old_gs.len() {
                lemma_text_lt_total(old_gs[p as int].title@, tn);
                assert(text_lt(tn, old_gs[p as int].title@));
            }
        }
        let ghost gv = g@;
        groups.insert(p, g);
        proof {
            let new_gs = groups@;
            assert(new_gs == old_gs.insert(p as int, new_gs[p as int]));
            assert forall|i: int, j: int| 0 <= i < j < new_gs.len() implies text_lt(
                new_gs[i].title@,
                new_gs[j].title@,
            ) by {
                if j < p {
                    assert(new_gs[j] == old_gs[j]);
                    assert(new_gs[i] == old_gs[i]);
                } else if i < p && j == p {
                } else if i < p && j > p {
                    assert(new_gs[j] == old_gs[j - 1]);
                    assert(old_gs[i].title@ == new_gs[i].title@);
                } else if i == p {
                    assert(new_gs[j] == old_gs[j - 1]);
                    if j - 1 > p {
                        lemma_text_lt_trans(tn, old_gs[p as int].title@, old_gs[j - 1].title@);
                    }
                } else {
                    assert(new_gs[j] == old_gs[j - 1]);
                    assert(new_gs[i] == old_gs[i - 1]);
                }
            }
            assert forall|k: int| 0 <= k < old_gs.len() implies old_gs[k].title@ != tn by {
                if k < p {
                    lemma_text_lt_total(old_gs[k].title@, tn);
                } else {
                    if k > p {
                        lemma_text_lt_trans(tn, old_gs[p as int].title@, old_gs[k].title@);
                    }
                    lemma_text_lt_total(tn, old_gs[k].title@);
                }
            }
            assert forall|u: Seq<char>| #[trigger] group_map(new_gs).dom().contains(u)
                <==> group_map(old_gs).insert(tn, gv).dom().contains(u) by {
                if group_map(old_gs).dom().contains(u) {
                    let k = choose|k: int| 0 <= k < old_gs.len() && old_gs[k].title@ == u;
                    if k < p {
                        assert(new_gs[k].title@ == u);
                    } else {
                        assert(new_gs[k + 1].title@ == u);
                    }
                }
                if u == tn {
                    assert(new_gs[p as int].title@ == u);
                }
                if group_map(new_gs).dom().contains(u) {
                    let k = choose|k: int| 0 <= k < new_gs.len() && new_gs[k].title@ == u;
                    if k < p {
                        assert(old_gs[k].title@ == u);
                    } else if k > p {
                        assert(old_gs[k - 1].title@ == u);
                    }
                }
            }
            assert forall|u: Seq<char>| #[trigger] group_map(new_gs).dom().contains(u) implies group_map(
                new_gs,
            )[u] == group_map(old_gs).insert(tn, gv)[u] by {
                let k = choose|k: int| 0 <= k < new_gs.len() && new_gs[k].title@ == u;
                lemma_group_map_at(new_gs, k);
                if k < p {
                    lemma_group_map_at(old_gs, k);
                } else if k > p {
                    assert(new_gs[k] == old_gs[k - 1]);
                    lemma_group_map_at(old_gs, k - 1);
                }
            }
            assert(group_map(new_gs) =~= group_map(old_gs).insert(tn, gv));
        }
    }
}


/// The groups of every line of `log`, kept sorted by title.
fn parse_groups_by_title(log_text: &str) -> (groups: Vec<TelegramGroup>)
    ensures
        sorted_by_title(groups@),
        group_map(groups@) == log_profile(log_text@),
{
    let cs = chars_of(log_text);
    let ghost s = cs@;
    let n = cs.len();
    let mut groups: Vec<TelegramGroup> = Vec::new();
    let ghost mut done: Seq<Seq<char>> = seq![];
    let mut pos: usize = 0;
    assert(group_map(groups@) =~= Map::<Seq<char>, TelegramGroupView>::empty());
    while pos < n
        invariant
            n == s.len(),
            s == cs@,
            s == log_text@,
            pos <= n,
            lines(s) == done + lines_from(s, pos as int),
            sorted_by_title(groups@),
            group_map(groups@) == groups_by_title(groups_of_lines(done)),
        decreases n - pos,
    {
        let mut end: usize = pos;
        while end < n && cs[end] != '\n'
            invariant
                pos <= end <= n,
                n == s.len(),
                s == cs@,
                next_newline(s, pos as int) == next_newline(s, end as int),
            decreases n - end,
        {
            end += 1;
        }
        proof {
            lemma_next_newline(s, pos as int);
        }
        assert(end == next_newline(s, pos as int));
        let mut stop = end;
        if end < n && end > pos && cs[end - 1] == '\r' {
            stop = end - 1;
        }
        let line = slice_subrange(&cs, pos, stop);
        let ghost text = line_text(s.subrange(pos as int, end as int), end < n);
        assert(line@ == text);
        proof {
            assert(lines_from(s, pos as int) == seq![text] + lines_from(s, end + 1));
            assert(done + (seq![text] + lines_from(s, end + 1)) == done.push(text) + lines_from(
                s,
                end + 1,
            ));
            assert(done.push(text).drop_last() == done);
        }
        let ghost prev = done;
        proof {
            done = done.push(text);
        }
        match parse_group_line(&line) {
            Some(g) => {
                let ghost gv = g@;
                insert_group(&mut groups, g);
                proof {
                    let gs = groups_of_lines(prev);
                    assert(groups_of_lines(done) == gs.push(gv));
                    assert(gs.push(gv).drop_last() == gs);
                }
            },
            None => {
                assert(groups_of_lines(done) == groups_of_lines(prev));
            },
        }
        if end >= n {
            pos = n;
            assert(lines_from(s, end + 1) == Seq::<Seq<char>>::empty());
            assert(lines_from(s, n as int) == Seq::<Seq<char>>::empty());
        } else {
            pos = end + 1;
        }
    }
    assert(lines_from(s, pos as int) == Seq::<Seq<char>>::empty());
    assert(done + Seq::<Seq<char>>::empty() == done);
    groups
}

/// The required titles that `profile` lacks, in order.
pub open spec fn missing_titles(
    profile: Map<Seq<char>, TelegramGroupView>,
    required: Seq<Seq<char>>,
) -> Seq<Seq<char>>
    decreases required.len(),
{
    if required.len() == 0 {
        seq![]
    } else {
        let rest = missing_titles(profile, required.drop_last());
        if profile.dom().contains(required.last()) {
            rest
        } else {
            rest.push(required.last())
        }
    }
}

/// Profile extraction failure.
#[derive(Debug, Clone, PartialEq, Eq)]
pub enum TelegramGroupProfileError {
    /// At least one requested title was not present.
    MissingTitles(Vec<String>),
}

impl TelegramGroupProfileError {
    /// The missing titles the error reports.
    pub open spec fn titles(self) -> Seq<Seq<char>> {
        match self {
            TelegramGroupProfileError::MissingTitles(titles) => string_views(titles@),
        }
    }

    /// The diagnostic text of the error (its `Display` form): the missing
    /// titles, comma separated.
    pub fn describe(&self) -> (s: String)
        ensures
            s@ == "missing group titles in log: "@ + join(self.titles(), ", "@),
    {
        match self {
            TelegramGroupProfileError::MissingTitles(titles) => {
                let joined = join_strings(titles.as_slice(), ", ");
                concat2("missing group titles in log: ", joined.as_str())
            },
        }
    }
}

/// The character sequences of a sequence of string slices.
pub open spec fn title_views(values: Seq<&str>) -> Seq<Seq<char>> {
    Seq::new(values.len(), |i: int| values[i]@)
}

impl TelegramGroupProfile {
    /// Parse a profile from runtime log text.
    ///
    /// Returns an error listing the requested titles, in request order, that
    /// no log line records.
    pub fn parse_required(log_text: &str, required_titles: &[&str]) -> (r: Result<
        Self,
        TelegramGroupProfileError,
    >)
        ensures
            missing_titles(log_profile(log_text@), title_views(required_titles@)).len() == 0
                <==> r is Ok,
            match r {
                Ok(profile) => profile@ == log_profile(log_text@),
                Err(e) => e.titles() == missing_titles(
                    log_profile(log_text@),
                    title_views(required_titles@),
                ),
            },
    {
        let groups = parse_groups_by_title(log_text);
        let ghost req = title_views(required_titles@);
        let ghost m = log_profile(log_text@);
        let mut missing: Vec<String> = Vec::new();
        let mut i: usize = 0;
        while i < required_titles.len()
            invariant
                i <= required_titles@.len(),
                req == title_views(required_titles@),
                m == log_profile(log_text@),
                sorted_by_title(groups@),
                group_map(groups@) == m,
                string_views(missing@) == missing_titles(m, req.take(i as int)),
            decreases required_titles@.len() - i,
        {
            let title = required_titles[i];
            assert(req.take(i + 1).drop_last() == req.take(i as int));
            assert(req.take(i + 1).last() == title@);
            if !Self::contains_title(&groups, title) {
                let ghost before = missing@;
                missing.push(String::from_str(title));
                assert(string_views(missing@) =~= string_views(before).push(title@));
            }
            i += 1;
        }
        assert(req.take(required_titles@.len() as int) == req);
        if missing.len() == 0 {
            Ok(TelegramGroupProfile { groups })
        } else {
            Err(TelegramGroupProfileError::MissingTitles(missing))
        }
    }

    /// Index of the group titled `title`.
    fn index_of(groups: &Vec<TelegramGroup>, title: &str) -> (r: Option<usize>)
        ensures
            match r {
                Some(i) => i < groups@.len() && groups@[i as int].title@ == title@,
                None => forall|i: int| 0 <= i < groups@.len() ==> groups@[i].title@ != title@,
            },
    {
        let mut i: usize = 0;
        while i < groups.len()
            invariant
                i <= groups@.len(),
                forall|j: int| 0 <= j < i ==> groups@[j].title@ != title@,
            decreases groups@.len() - i,
        {
            if str_eq(groups[i].title.as_str(), title) {
                return Some(i);
            }
            i += 1;
        }
        None
    }

    /// Whether some group is titled `title`.
    fn contains_title(groups: &Vec<TelegramGroup>, title: &str) -> (r: bool)
        ensures
            r == group_map(groups@).dom().contains(title@),
    {
        Self::index_of(groups, title).is_some()
    }

    /// Return a group by exact title.
    pub fn group(&self, title: &str) -> (r: Option<&TelegramGroup>)
        ensures
            match r {
                Some(g) => self@.dom().contains(title@) && g@ == self@[title@],
                None => !self@.dom().contains(title@),
            },
    {
        proof {
            use_type_invariant(self);
        }
        match Self::index_of(&self.groups, title) {
            Some(i) => {
                proof {
                    lemma_group_map_at(self.groups@, i as int);
                }
                Some(&self.groups[i])
            },
            None => None,
        }
    }

    /// Return titles present in sorted order: each title once, in increasing
    /// text order.
    pub fn present_titles(&self) -> (titles: Vec<&str>)
        ensures
            forall|i: int, j: int|
                0 <= i < j < titles@.len() ==> text_lt(titles@[i]@, titles@[j]@),
            forall|t: Seq<char>|
                self@.dom().contains(t) <==> exists|i: int|
                    0 <= i < titles@.len() && titles@[i]@ == t,
    {
        proof {
            use_type_invariant(self);
        }
        let mut titles: Vec<&str> = Vec::new();
        let mut i: usize = 0;
        while i < self.groups.len()
            invariant
                i <= self.groups@.len(),
                titles@.len() == i,
                forall|j: int| 0 <= j < i ==> titles@[j]@ == self.groups@[j].title@,
            decreases self.groups@.len() - i,
        {
            titles.push(self.groups[i].title.as_str());
            i += 1;
        }
        proof {
            assert forall|t: Seq<char>| self@.dom().contains(t) <==> exists|i: int|
                0 <= i < titles@.len() && titles@[i]@ == t by {
                if self@.dom().contains(t) {
                    let k = choose|k: int| 0 <= k < self.groups@.len() && self.groups@[k].title@ == t;
                    assert(titles@[k]@ == t);
                }
                if exists|i: int| 0 <= i < titles@.len() && titles@[i]@ == t {
                    let k = choose|k: int| 0 <= k < titles@.len() && titles@[k]@ == t;
                    assert(self.groups@[k].title@ == t);
                }
            }
        }
        titles
    }
}

} // verus!
