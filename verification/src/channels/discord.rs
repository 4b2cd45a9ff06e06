//! Discord message formatting helpers.

use vstd::prelude::*;
use crate::text::{chars_of, slice_subrange, string_of};

verus! {

/// Maximum message size accepted by Discord `Create Message`.
pub const DISCORD_MAX_MESSAGE_LENGTH: usize = 2000;

/// `s` cut into consecutive pieces of `n` characters, the last one possibly
/// shorter.
pub open spec fn char_chunks(s: Seq<char>, n: nat) -> Seq<Seq<char>>
    recommends
        n > 0,
    decreases s.len(),
{
    if n == 0 || s.len() == 0 {
        seq![]
    } else if s.len() <= n {
        seq![s]
    } else {
        seq![s.take(n as int)] + char_chunks(s.skip(n as int), n)
    }
}

/// The chunks that [`split_message_for_discord_with_limit`] returns for
/// `message` and the limit `max_chars`.
pub open spec fn discord_chunks(message: Seq<char>, max_chars: nat) -> Seq<Seq<char>> {
    char_chunks(message, max_chars)
}

/// The pieces of [`char_chunks`] put back together give `s`; every piece is
/// non-empty and at most `n` characters long, and only the last one may be
/// shorter than `n`.
pub proof fn lemma_char_chunks(s: Seq<char>, n: nat)
    requires
        n > 0,
    ensures
        char_chunks(s, n).flatten() == s,
        forall|i: int|
            0 <= i < char_chunks(s, n).len() ==> 0 < (#[trigger] char_chunks(s, n)[i]).len() <= n,
        forall|i: int|
            0 <= i < char_chunks(s, n).len() - 1 ==> (#[trigger] char_chunks(s, n)[i]).len() == n,
    decreases s.len(),
{
    if s.len() == 0 {
    } else if s.len() <= n {
        seq![s].lemma_flatten_one_element();
    } else {
        let rest = char_chunks(s.skip(n as int), n);
        lemma_char_chunks(s.skip(n as int), n);
        let all = seq![s.take(n as int)] + rest;
        assert(all.first() == s.take(n as int));
        assert(all.drop_first() == rest);
        assert(s.take(n as int) + s.skip(n as int) == s);
        assert forall|i: int| 0 <= i < all.len() implies 0 < (#[trigger] all[i]).len() <= n by {
            if i > 0 {
                assert(all[i] == rest[i - 1]);
            }
        }
        assert forall|i: int| 0 <= i < all.len() - 1 implies (#[trigger] all[i]).len() == n by {
            if i > 0 {
                assert(all[i] == rest[i - 1]);
            }
        }
    }
}

/// Split text into Discord-safe chunks using character count.
pub fn split_message_for_discord(message: &str) -> (chunks: Vec<String>)
    ensures
        chunks.deep_view() == discord_chunks(message@, DISCORD_MAX_MESSAGE_LENGTH as nat),
        chunks.deep_view().flatten() == message@,
        forall|i: int|
            0 <= i < chunks@.len() ==> 0 < (#[trigger] chunks@[i])@.len()
                <= DISCORD_MAX_MESSAGE_LENGTH,
{
    split_message_for_discord_with_limit(message, DISCORD_MAX_MESSAGE_LENGTH)
}

/// Split text into Discord-safe chunks using a caller-provided limit.
///
/// An empty message, or a limit of zero, gives no chunks.
pub fn split_message_for_discord_with_limit(message: &str, max_chars: usize) -> (chunks: Vec<
    String,
>)
    ensures
        chunks.deep_view() == discord_chunks(message@, max_chars as nat),
        max_chars > 0 ==> chunks.deep_view().flatten() == message@,
        max_chars == 0 ==> chunks@.len() == 0,
        forall|i: int| 0 <= i < chunks@.len() ==> 0 < (#[trigger] chunks@[i])@.len() <= max_chars,
{
    let mut chunks: Vec<String> = Vec::new();
    if max_chars == 0 {
        assert(chunks.deep_view() =~= discord_chunks(message@, 0));
        return chunks;
    }
    let cs = chars_of(message);
    let n = cs.len();
    let mut i: usize = 0;
    assert(cs@.skip(0) == cs@);
    while i < n
        invariant
            n == cs@.len(),
            cs@ == message@,
            max_chars > 0,
            i <= n,
            char_chunks(cs@, max_chars as nat) == chunks.deep_view() + char_chunks(
                cs@.skip(i as int),
                max_chars as nat,
            ),
        decreases n - i,
    {
        let end: usize = if n - i <= max_chars {
            n
        } else {
            i + max_chars
        };
        let piece = slice_subrange(&cs, i, end);
        let ghost rest = cs@.skip(i as int);
        let ghost before = chunks.deep_view();
        chunks.push(string_of(&piece));
        assert(chunks.deep_view() == before.push(piece@));
        if n - i <= max_chars {
            assert(piece@ == rest);
            assert(cs@.skip(end as int).len() == 0);
        } else {
            assert(piece@ == rest.take(max_chars as int));
            assert(rest.skip(max_chars as int) == cs@.skip(end as int));
        }
        assert(char_chunks(rest, max_chars as nat) == seq![piece@] + char_chunks(
            cs@.skip(end as int),
            max_chars as nat,
        ));
        assert(before + (seq![piece@] + char_chunks(cs@.skip(end as int), max_chars as nat))
            == before.push(piece@) + char_chunks(cs@.skip(end as int), max_chars as nat));
        i = end;
    }
    assert(char_chunks(cs@.skip(n as int), max_chars as nat) == Seq::<Seq<char>>::empty());
    assert(chunks.deep_view() + Seq::<Seq<char>>::empty() == chunks.deep_view());
    proof {
        lemma_char_chunks(message@, max_chars as nat);
        assert forall|i: int| 0 <= i < chunks@.len() implies 0 < (#[trigger] chunks@[i])@.len()
            <= max_chars by {
            assert(chunks.deep_view()[i] == chunks@[i]@);
        }
    }
    chunks
}

} // verus!
