//! Telegram session-matrix planning helpers.

use vstd::prelude::*;
use crate::channels::TelegramSessionPartition;
use crate::channels::session::telegram_session_key;
use crate::decimal::{i64_to_string, int_decimal, parse_i64, parse_i64_chars};
use crate::text::{concat2, dedup, lemma_dedup, trim_str, trim_ws};

verus! {

/// Telegram chat id used by session-matrix planning.
#[derive(Debug, Clone, Copy, PartialEq, Eq, Structural)]
pub struct TelegramMatrixChatId(i64);

impl TelegramMatrixChatId {
    /// The raw identifier.
    pub closed spec fn raw(self) -> i64 {
        self.0
    }

    /// Build a chat id.
    pub fn new(value: i64) -> (id: Self)
        ensures
            id.raw() == value,
    {
        Self(value)
    }

    /// Parse a chat id string: the trimmed value read as an `i64`.
    pub fn parse(value: &str) -> (id: Option<Self>)
        ensures
            match parse_i64(trim_ws(value@)) {
                Some(v) => id is Some && id->Some_0.raw() == v,
                None => id is None,
            },
    {
        let t = trim_str(value);
        match parse_i64_chars(&t) {
            Some(v) => Some(Self(v)),
            None => None,
        }
    }

    /// Return the raw id.
    pub fn into_raw(self) -> (v: i64)
        ensures
            v == self.raw(),
    {
        self.0
    }

    /// Group chats have negative ids.
    fn is_group_chat(self) -> (r: bool)
        ensures
            r == (self.raw() < 0),
    {
        self.0 < 0
    }
}

/// Telegram user id used by session-matrix planning.
#[derive(Debug, Clone, Copy, PartialEq, Eq, Structural)]
pub struct TelegramMatrixUserId(i64);

impl TelegramMatrixUserId {
    /// The raw identifier.
    pub closed spec fn raw(self) -> i64 {
        self.0
    }

    /// Build a user id.
    pub fn new(value: i64) -> (id: Self)
        ensures
            id.raw() == value,
    {
        Self(value)
    }

    /// Return the raw id.
    pub fn into_raw(self) -> (v: i64)
        ensures
            v == self.raw(),
    {
        self.0
    }
}

/// Telegram topic/thread id used by session-matrix planning.
#[derive(Debug, Clone, Copy, PartialEq, Eq, Structural)]
pub struct TelegramMatrixThreadId(i64);

impl TelegramMatrixThreadId {
    /// The raw identifier.
    pub closed spec fn raw(self) -> i64 {
        self.0
    }

    /// Build a thread id.
    pub fn new(value: i64) -> (id: Self)
        ensures
            id.raw() == value,
    {
        Self(value)
    }

    /// Return the raw id.
    pub fn into_raw(self) -> (v: i64)
        ensures
            v == self.raw(),
    {
        self.0
    }
}

/// Request used to build the expected Telegram session key.
#[derive(Debug, Clone, Copy, PartialEq, Eq)]
pub struct TelegramMatrixSessionKeyRequest {
    /// Session partition mode.
    pub partition: TelegramSessionPartition,
    /// Telegram chat id.
    pub chat_id: TelegramMatrixChatId,
    /// Telegram user id.
    pub user_id: TelegramMatrixUserId,
    /// Optional Telegram thread id.
    pub thread_id: Option<TelegramMatrixThreadId>,
}

/// Request used to select group chats for admin matrix probes.
#[derive(Debug, Clone, PartialEq, Eq)]
pub struct TelegramAdminMatrixChatSelectionRequest {
    /// Explicit matrix chat ids.
    pub explicit_matrix_chat_ids: Vec<TelegramMatrixChatId>,
    /// Primary group chat id.
    pub group_chat_id: Option<TelegramMatrixChatId>,
    /// Allowed chat ids parsed from profile/environment configuration.
    pub allow_chat_ids: Vec<TelegramMatrixChatId>,
}

/// The session key of a matrix case: the partition's key over the decimal
/// chat and user ids.
pub open spec fn matrix_session_key(request: TelegramMatrixSessionKeyRequest) -> Seq<char> {
    telegram_session_key(
        request.partition,
        int_decimal(request.chat_id.raw() as int),
        int_decimal(request.user_id.raw() as int),
        match request.thread_id {
            Some(t) => Some(t.raw()),
            None => None,
        },
    )
}

/// A matrix case expects the key that the Telegram runtime builds for the
/// case's partition from the decimal chat and user ids: the chat id alone for
/// a chat partition, the user id alone for a user partition, `chat:user`, or
/// `chat:thread:user` with thread `0` when there is none.
pub proof fn lemma_matrix_key_is_partition_key(request: TelegramMatrixSessionKeyRequest)
    ensures
        ({
            let chat = int_decimal(request.chat_id.raw() as int);
            let user = int_decimal(request.user_id.raw() as int);
            let thread: int = match request.thread_id {
                Some(t) => t.raw() as int,
                None => 0,
            };
            let key = matrix_session_key(request);
            &&& key == telegram_session_key(
                request.partition,
                chat,
                user,
                match request.thread_id {
                    Some(t) => Some(t.raw()),
                    None => None,
                },
            )
            &&& request.partition == TelegramSessionPartition::ChatOnly ==> key == chat
            &&& request.partition == TelegramSessionPartition::UserOnly ==> key == user
            &&& request.partition == TelegramSessionPartition::ChatUser ==> key == chat + seq![':']
                + user
            &&& request.partition == TelegramSessionPartition::ChatThreadUser ==> key == chat
                + seq![':'] + int_decimal(thread) + seq![':'] + user
        }),
{
    reveal_strlit(":");
    assert(":"@ =~= seq![':']);
}

/// Build the expected session key for a Telegram matrix case. It is the key
/// that the partition builds from the decimal chat and user ids.
pub fn build_telegram_matrix_session_key(request: TelegramMatrixSessionKeyRequest) -> (key:
    String)
    ensures
        key@ == matrix_session_key(request),
{
    let chat_id = i64_to_string(request.chat_id.into_raw());
    let user_id = i64_to_string(request.user_id.into_raw());
    let thread_id = match request.thread_id {
        Some(t) => Some(crate::channels::TelegramThreadId::new(t.into_raw())),
        None => None,
    };
    request.partition.build_session_key(chat_id.as_str(), user_id.as_str(), thread_id)
}

/// Build expected JSON fields for `/session memory json` assertions.
pub fn build_telegram_session_memory_result_fields(
    request: TelegramMatrixSessionKeyRequest,
) -> (fields: Vec<String>)
    ensures
        fields@.len() == 2,
        fields@[0]@ == "json_kind=session_memory"@,
        fields@[1]@ == "json_session_scope=telegram:"@ + matrix_session_key(request),
{
    let session_key = build_telegram_matrix_session_key(request);
    let mut fields: Vec<String> = Vec::new();
    fields.push(String::from_str("json_kind=session_memory"));
    fields.push(concat2("json_session_scope=telegram:", session_key.as_str()));
    fields
}

/// The group chats among `ids` (negative ids), in order.
pub open spec fn group_chats(ids: Seq<TelegramMatrixChatId>) -> Seq<TelegramMatrixChatId>
    decreases ids.len(),
{
    if ids.len() == 0 {
        seq![]
    } else {
        let rest = group_chats(ids.drop_last());
        if ids.last().raw() < 0 {
            rest.push(ids.last())
        } else {
            rest
        }
    }
}

/// The candidate admin matrix chats: the explicit ids, then the primary
/// group chat, then the allowed group chats.
pub open spec fn admin_matrix_candidates(
    explicit: Seq<TelegramMatrixChatId>,
    group: Option<TelegramMatrixChatId>,
    allow: Seq<TelegramMatrixChatId>,
) -> Seq<TelegramMatrixChatId> {
    explicit + match group {
        Some(g) => seq![g],
        None => seq![],
    } + group_chats(allow)
}

fn contains_chat_id(v: &[TelegramMatrixChatId], x: TelegramMatrixChatId) -> (r: bool)
    ensures
        r == v@.contains(x),
{
    let mut i: usize = 0;
    while i < v.len()
        invariant
            i <= v@.len(),
            forall|j: int| 0 <= j < i ==> v@[j] != x,
        decreases v@.len() - i,
    {
        if v[i] == x {
            assert(v@[i as int] == x);
            return true;
        }
        i += 1;
    }
    false
}

/// Appends `chat_id` unless it is already selected.
fn append_unique_chat_id(selected: &mut Vec<TelegramMatrixChatId>, chat_id: TelegramMatrixChatId)
    ensures
        final(selected)@ == if old(selected)@.contains(chat_id) {
            old(selected)@
        } else {
            old(selected)@.push(chat_id)
        },
{
    if !contains_chat_id(selected, chat_id) {
        selected.push(chat_id);
    }
}

/// Select admin matrix group chats, preserving first-seen order: the
/// distinct candidates of [`admin_matrix_candidates`].
pub fn select_telegram_admin_matrix_chat_ids(
    request: TelegramAdminMatrixChatSelectionRequest,
) -> (selected: Vec<TelegramMatrixChatId>)
    ensures
        selected@ == dedup(
            admin_matrix_candidates(
                request.explicit_matrix_chat_ids@,
                request.group_chat_id,
                request.allow_chat_ids@,
            ),
        ),
        selected@.no_duplicates(),
{
    let ghost candidates = admin_matrix_candidates(
        request.explicit_matrix_chat_ids@,
        request.group_chat_id,
        request.allow_chat_ids@,
    );
    let ghost mut seen: Seq<TelegramMatrixChatId> = seq![];
    let mut selected: Vec<TelegramMatrixChatId> = Vec::new();
    let explicit = &request.explicit_matrix_chat_ids;
    let mut i: usize = 0;
    while i < explicit.len()
        invariant
            i <= explicit@.len(),
            seen == explicit@.take(i as int),
            selected@ == dedup(seen),
        decreases explicit@.len() - i,
    {
        let id = explicit[i];
        proof {
            assert(seen.push(id).drop_last() == seen);
            seen = seen.push(id);
            assert(seen == explicit@.take(i + 1));
        }
        append_unique_chat_id(&mut selected, id);
        i += 1;
    }
    assert(seen == explicit@);
    if let Some(g) = request.group_chat_id {
        proof {
            assert(seen.push(g).drop_last() == seen);
            seen = seen.push(g);
        }
        append_unique_chat_id(&mut selected, g);
    }
    let ghost head = seen;
    assert(head == explicit@ + match request.group_chat_id {
        Some(g) => seq![g],
        None => seq![],
    });
    let allow = &request.allow_chat_ids;
    let mut j: usize = 0;
    assert(head + group_chats(allow@.take(0)) == head);
    while j < allow.len()
        invariant
            j <= allow@.len(),
            seen == head + group_chats(allow@.take(j as int)),
            selected@ == dedup(seen),
        decreases allow@.len() - j,
    {
        let id = allow[j];
        assert(allow@.take(j + 1).drop_last() == allow@.take(j as int));
        assert(allow@.take(j + 1).last() == id);
        if id.is_group_chat() {
            proof {
                assert(seen.push(id).drop_last() == seen);
                assert(head + group_chats(allow@.take(j as int)).push(id) == (head + group_chats(
                    allow@.take(j as int),
                )).push(id));
                seen = seen.push(id);
            }
            append_unique_chat_id(&mut selected, id);
        }
        j += 1;
    }
    assert(allow@.take(allow@.len() as int) == allow@);
    assert(seen == candidates);
    proof {
        lemma_dedup(candidates);
    }
    selected
}

} // verus!
