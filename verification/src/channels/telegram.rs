//! Telegram message formatting helpers.
//!
//! Long messages are cut into chunks that leave room for continuation
//! markers. Markdown-looking messages are cut at the ends of Markdown blocks
//! when one lies within reach; otherwise a chunk ends after the last newline
//! in the second half of the window, else after the last space, else at the
//! window's end.

use vstd::prelude::*;
use pulldown_cmark::{Options, Parser};
use crate::text::{
    chars_of, concat2, concat3, contains, lemma_rfind_char, rfind_char, rfind_char_in,
    seq_eq, slice_subrange, str_contains, string_of,
};

verus! {

/// Maximum message size accepted by Telegram.
pub const TELEGRAM_MAX_MESSAGE_LENGTH: usize = 4096;

const CHUNK_CONTINUED_PREFIX: &'static str = "[continued]\n";

const CHUNK_CONTINUES_SUFFIX: &'static str = "\n[continues]";

/// Characters reserved for the continuation markers.
pub open spec fn marker_reserve() -> nat {
    24
}

/// The continued-marker prefix.
pub open spec fn continued_prefix() -> Seq<char> {
    "[continued]\n"@
}

/// The continues-marker suffix.
pub open spec fn continues_suffix() -> Seq<char> {
    "\n[continues]"@
}

proof fn lemma_marker_lengths()
    ensures
        continued_prefix().len() == 12,
        continues_suffix().len() == 12,
        CHUNK_CONTINUED_PREFIX@ == continued_prefix(),
        CHUNK_CONTINUES_SUFFIX@ == continues_suffix(),
{
    reveal_strlit("[continued]\n");
    reveal_strlit("\n[continues]");
}

/// Reserve space for continuation markers when splitting: the combined
/// length of both markers.
pub fn chunk_marker_reserve_chars() -> (n: usize)
    ensures
        n == marker_reserve(),
        n == continued_prefix().len() + continues_suffix().len(),
{
    proof {
        lemma_marker_lengths();
    }
    let a = chars_of(CHUNK_CONTINUED_PREFIX);
    let b = chars_of(CHUNK_CONTINUES_SUFFIX);
    a.len() + b.len()
}

/// A chunk with the markers its position calls for: none when there is only
/// one chunk, the continues-suffix on the first, the continued-prefix on the
/// last, and both in between.
pub open spec fn decorated_chunk(chunk: Seq<char>, index: int, total: int) -> Seq<char> {
    if total <= 1 {
        chunk
    } else if index == 0 {
        chunk + continues_suffix()
    } else if index == total - 1 {
        continued_prefix() + chunk
    } else {
        continued_prefix() + chunk + continues_suffix()
    }
}

/// Decorating chunk `index` of `total` puts the continued-marker in front of
/// the chunk exactly when an earlier chunk exists and the continues-marker
/// behind it exactly when a later chunk exists; a lone chunk stays as it is.
pub proof fn lemma_decorated_chunk_markers(chunk: Seq<char>, index: int, total: int)
    requires
        0 <= index < total,
    ensures
        ({
            let d = decorated_chunk(chunk, index, total);
            let front: int = if index > 0 { 12 } else { 0 };
            let back: int = if index + 1 < total { 12 } else { 0 };
            &&& d.len() == chunk.len() + front + back
            &&& d.subrange(front, front + chunk.len()) == chunk
            &&& index > 0 ==> d.take(12) == "[continued]\n"@
            &&& index + 1 < total ==> d.skip(d.len() - 12) == "\n[continues]"@
        }),
{
    lemma_marker_lengths();
    let d = decorated_chunk(chunk, index, total);
    let p = continued_prefix();
    let q = continues_suffix();
    if total > 1 {
        if index == 0 {
            assert(d.subrange(0, chunk.len() as int) =~= chunk);
            assert(d.skip(d.len() - 12) =~= q);
        } else if index == total - 1 {
            assert(d.subrange(12, 12 + chunk.len() as int) =~= chunk);
            assert(d.take(12) =~= p);
        } else {
            assert(d.subrange(12, 12 + chunk.len() as int) =~= chunk);
            assert(d.take(12) =~= p);
            assert(d.skip(d.len() - 12) =~= q);
        }
    } else {
        assert(d.subrange(0, chunk.len() as int) =~= chunk);
    }
}

/// Decorate a Telegram chunk with continuation markers.
pub fn decorate_chunk_for_telegram(chunk: &str, index: usize, total_chunks: usize) -> (s: String)
    ensures
        s@ == decorated_chunk(chunk@, index as int, total_chunks as int),
        s@.len() <= chunk@.len() + marker_reserve(),
{
    proof {
        lemma_marker_lengths();
    }
    if total_chunks <= 1 {
        String::from_str(chunk)
    } else if index == 0 {
        concat2(chunk, CHUNK_CONTINUES_SUFFIX)
    } else if index == total_chunks - 1 {
        concat2(CHUNK_CONTINUED_PREFIX, chunk)
    } else {
        concat3(CHUNK_CONTINUED_PREFIX, chunk, CHUNK_CONTINUES_SUFFIX)
    }
}

/// Where a chunk ends inside a window `area` of the text, measured from the
/// window's start: after the last newline when it lies in the second half of
/// the `max_chars` limit, else after the last space, else at the window's
/// end.
pub open spec fn split_point(area: Seq<char>, max_chars: nat) -> int {
    match rfind_char(area, '\n') {
        Some(j) if j >= max_chars / 2 => j + 1,
        _ => match rfind_char(area, ' ') {
            Some(k) => k + 1,
            None => area.len() as int,
        },
    }
}

proof fn lemma_split_point(area: Seq<char>, max_chars: nat)
    requires
        area.len() > 0,
    ensures
        0 < split_point(area, max_chars) <= area.len(),
{
    lemma_rfind_char(area, '\n');
    lemma_rfind_char(area, ' ');
}

/// Chunks of `s` cut at [`split_point`]s of windows of `max_chars`
/// characters, the plain splitting strategy.
pub open spec fn plain_chunks(s: Seq<char>, max_chars: nat) -> Seq<Seq<char>>
    decreases s.len(),
{
    if s.len() == 0 || max_chars == 0 {
        seq![]
    } else if s.len() <= max_chars {
        seq![s]
    } else {
        let e = split_point(s.take(max_chars as int), max_chars);
        if 0 < e <= s.len() {
            seq![s.take(e)] + plain_chunks(s.skip(e), max_chars)
        } else {
            seq![s]
        }
    }
}

/// Every chunk is non-empty and at most `max_chars` long, and together the
/// chunks give back `s`.
pub open spec fn is_chunking(chunks: Seq<Seq<char>>, s: Seq<char>, max_chars: nat) -> bool {
    &&& chunks.flatten() == s
    &&& forall|i: int| 0 <= i < chunks.len() ==> 0 < (#[trigger] chunks[i]).len() <= max_chars
}

/// Putting a chunk in front of a chunking of the rest gives a chunking.
proof fn lemma_chunking_cons(
    head: Seq<char>,
    rest: Seq<Seq<char>>,
    s: Seq<char>,
    k: int,
    max_chars: nat,
)
    requires
        0 < k <= s.len(),
        k <= max_chars,
        head == s.take(k),
        is_chunking(rest, s.skip(k), max_chars),
    ensures
        is_chunking(seq![head] + rest, s, max_chars),
{
    let all = seq![head] + rest;
    assert(all.first() == head);
    assert(all.drop_first() == rest);
    assert(s.take(k) + s.skip(k) == s);
    assert forall|i: int| 0 <= i < all.len() implies 0 < (#[trigger] all[i]).len() <= max_chars by {
        if i > 0 {
            assert(all[i] == rest[i - 1]);
        }
    }
}

/// [`plain_chunks`] is a chunking of any non-empty `s`.
pub proof fn lemma_plain_chunks(s: Seq<char>, max_chars: nat)
    requires
        max_chars > 0,
        s.len() > 0,
    ensures
        is_chunking(plain_chunks(s, max_chars), s, max_chars),
    decreases s.len(),
{
    if s.len() <= max_chars {
        seq![s].lemma_flatten_one_element();
    } else {
        let area = s.take(max_chars as int);
        lemma_split_point(area, max_chars);
        let e = split_point(area, max_chars);
        lemma_plain_chunks(s.skip(e), max_chars);
        lemma_chunking_cons(s.take(e), plain_chunks(s.skip(e), max_chars), s, e, max_chars);
    }
}


// ---------------------------------------------------------------------------
// Markdown block boundaries
// ---------------------------------------------------------------------------

/// The end of a pulldown-cmark tag (`TagEnd`), one variant for each of its
/// variants, without their payloads.
#[derive(Debug, Clone, Copy, PartialEq, Eq, Structural)]
pub enum MarkdownTagEnd {
    /// `TagEnd::Paragraph`.
    Paragraph,
    /// `TagEnd::Heading`.
    Heading,
    /// `TagEnd::BlockQuote`.
    BlockQuote,
    /// `TagEnd::CodeBlock`.
    CodeBlock,
    /// `TagEnd::HtmlBlock`.
    HtmlBlock,
    /// `TagEnd::List`.
    List,
    /// `TagEnd::Item`.
    Item,
    /// `TagEnd::FootnoteDefinition`.
    FootnoteDefinition,
    /// `TagEnd::DefinitionList`.
    DefinitionList,
    /// `TagEnd::DefinitionListTitle`.
    DefinitionListTitle,
    /// `TagEnd::DefinitionListDefinition`.
    DefinitionListDefinition,
    /// `TagEnd::Table`.
    Table,
    /// `TagEnd::TableHead`.
    TableHead,
    /// `TagEnd::TableRow`.
    TableRow,
    /// `TagEnd::TableCell`.
    TableCell,
    /// `TagEnd::Emphasis`.
    Emphasis,
    /// `TagEnd::Strong`.
    Strong,
    /// `TagEnd::Strikethrough`.
    Strikethrough,
    /// `TagEnd::Superscript`.
    Superscript,
    /// `TagEnd::Subscript`.
    Subscript,
    /// `TagEnd::Link`.
    Link,
    /// `TagEnd::Image`.
    Image,
    /// `TagEnd::MetadataBlock`.
    MetadataBlock,
}

/// A pulldown-cmark event (`Event`), one variant for each of its variants;
/// only the tag of an end event is kept.
#[derive(Debug, Clone, Copy, PartialEq, Eq, Structural)]
pub enum MarkdownEvent {
    /// `Event::Start`.
    Start,
    /// `Event::End`, with the tag that ends.
    End(MarkdownTagEnd),
    /// `Event::Text`.
    Text,
    /// `Event::Code`.
    Code,
    /// `Event::InlineMath`.
    InlineMath,
    /// `Event::DisplayMath`.
    DisplayMath,
    /// `Event::Html`.
    Html,
    /// `Event::InlineHtml`.
    InlineHtml,
    /// `Event::FootnoteReference`.
    FootnoteReference,
    /// `Event::SoftBreak`.
    SoftBreak,
    /// `Event::HardBreak`.
    HardBreak,
    /// `Event::Rule`.
    Rule,
    /// `Event::TaskListMarker`.
    TaskListMarker,
}

/// The `Debug` rendering of each event that pulldown-cmark reports for
/// `text` parsed with every extension enabled (such as `End(Paragraph)` or
/// `Text(Borrowed("hi"))`), each with the byte offset at which its source
/// range ends, in the parser's order.
pub uninterp spec fn markdown_event_renderings(text: Seq<char>) -> Seq<(Seq<char>, usize)>;

/// The views of a list of rendered events.
pub open spec fn rendering_views(v: Seq<(String, usize)>) -> Seq<(Seq<char>, usize)> {
    Seq::new(v.len(), |i: int| (v[i].0@, v[i].1))
}

/// Runs pulldown-cmark (`Parser::new_ext` with `Options::all()`, then
/// `into_offset_iter`) over `text` and reports each event as its `Debug`
/// rendering, with the end of its byte range, in the parser's order. The
/// contract only names the result: what the parser reports for a given text
/// is not stated here. pulldown-cmark asserts internal invariants while it
/// parses; that no text makes one of those assertions fail is assumed, not
/// shown.
#[verifier::external_body]
fn parse_markdown_events(text: &str) -> (events: Vec<(String, usize)>)
    ensures
        rendering_views(events@) == markdown_event_renderings(text@),
{
    let mut events = Vec::new();
    for (event, range) in Parser::new_ext(text, Options::all()).into_offset_iter() {
        events.push((format!("{:?}", event), range.end));
    }
    events
}

/// The end of the variant name that starts at `i` in a rendering: the first
/// `(` or `)` at or after `i`, or the end of the text.
pub open spec fn name_end(s: Seq<char>, i: int) -> int
    decreases s.len() - i,
{
    if i < 0 || i >= s.len() || s[i] == '(' || s[i] == ')' {
        i
    } else {
        name_end(s, i + 1)
    }
}

/// The variant name that starts at `from` in a rendering.
pub open spec fn name_at(s: Seq<char>, from: int) -> Seq<char> {
    s.subrange(from, name_end(s, from))
}

/// The entry of `table` whose name is `n`, the first such.
pub open spec fn lookup_name<A>(table: Seq<(&str, A)>, n: Seq<char>) -> Option<A>
    decreases table.len(),
{
    if table.len() == 0 {
        None
    } else if table[0].0@ == n {
        Some(table[0].1)
    } else {
        lookup_name(table.drop_first(), n)
    }
}

/// The names of the tag ends.
pub open spec fn tag_end_names() -> Seq<(&'static str, MarkdownTagEnd)> {
    seq![
        ("Paragraph", MarkdownTagEnd::Paragraph),
        ("Heading", MarkdownTagEnd::Heading),
        ("BlockQuote", MarkdownTagEnd::BlockQuote),
        ("CodeBlock", MarkdownTagEnd::CodeBlock),
        ("HtmlBlock", MarkdownTagEnd::HtmlBlock),
        ("List", MarkdownTagEnd::List),
        ("Item", MarkdownTagEnd::Item),
        ("FootnoteDefinition", MarkdownTagEnd::FootnoteDefinition),
        ("DefinitionList", MarkdownTagEnd::DefinitionList),
        ("DefinitionListTitle", MarkdownTagEnd::DefinitionListTitle),
        ("DefinitionListDefinition", MarkdownTagEnd::DefinitionListDefinition),
        ("Table", MarkdownTagEnd::Table),
        ("TableHead", MarkdownTagEnd::TableHead),
        ("TableRow", MarkdownTagEnd::TableRow),
        ("TableCell", MarkdownTagEnd::TableCell),
        ("Emphasis", MarkdownTagEnd::Emphasis),
        ("Strong", MarkdownTagEnd::Strong),
        ("Strikethrough", MarkdownTagEnd::Strikethrough),
        ("Superscript", MarkdownTagEnd::Superscript),
        ("Subscript", MarkdownTagEnd::Subscript),
        ("Link", MarkdownTagEnd::Link),
        ("Image", MarkdownTagEnd::Image),
        ("MetadataBlock", MarkdownTagEnd::MetadataBlock),
    ]
}

/// The names of the events other than `End`.
pub open spec fn event_names() -> Seq<(&'static str, MarkdownEvent)> {
    seq![
        ("Start", MarkdownEvent::Start),
        ("Text", MarkdownEvent::Text),
        ("Code", MarkdownEvent::Code),
        ("InlineMath", MarkdownEvent::InlineMath),
        ("DisplayMath", MarkdownEvent::DisplayMath),
        ("Html", MarkdownEvent::Html),
        ("InlineHtml", MarkdownEvent::InlineHtml),
        ("FootnoteReference", MarkdownEvent::FootnoteReference),
        ("SoftBreak", MarkdownEvent::SoftBreak),
        ("HardBreak", MarkdownEvent::HardBreak),
        ("Rule", MarkdownEvent::Rule),
        ("TaskListMarker", MarkdownEvent::TaskListMarker),
    ]
}

/// The event a rendering stands for: `End(` followed by a tag-end name, or
/// the name of another event; `None` for a name neither table knows.
pub open spec fn event_of_rendering(r: Seq<char>) -> Option<MarkdownEvent> {
    if name_at(r, 0) == "End"@ && r.len() >= 4 {
        match lookup_name(tag_end_names(), name_at(r, 4)) {
            Some(t) => Some(MarkdownEvent::End(t)),
            None => None,
        }
    } else {
        lookup_name(event_names(), name_at(r, 0))
    }
}

/// The recognised events among `rs`, in order, with their offsets.
pub open spec fn events_of_renderings(rs: Seq<(Seq<char>, usize)>) -> Seq<(MarkdownEvent, usize)>
    decreases rs.len(),
{
    if rs.len() == 0 {
        seq![]
    } else {
        let rest = events_of_renderings(rs.drop_last());
        match event_of_rendering(rs.last().0) {
            Some(e) => rest.push((e, rs.last().1)),
            None => rest,
        }
    }
}

/// The events pulldown-cmark reports for `text`.
pub open spec fn markdown_events(text: Seq<char>) -> Seq<(MarkdownEvent, usize)> {
    events_of_renderings(markdown_event_renderings(text))
}

fn name_end_exec(cs: &[char], from: usize) -> (e: usize)
    requires
        from <= cs@.len(),
    ensures
        e == name_end(cs@, from as int),
        from <= e <= cs@.len(),
{
    let mut i = from;
    while i < cs.len() && cs[i] != '(' && cs[i] != ')'
        invariant
            from <= i <= cs@.len(),
            name_end(cs@, from as int) == name_end(cs@, i as int),
        decreases cs@.len() - i,
    {
        i += 1;
    }
    i
}

fn lookup_tag_end(n: &[char]) -> (r: Option<MarkdownTagEnd>)
    ensures
        r == lookup_name(tag_end_names(), n@),
{
    let table: [(&str, MarkdownTagEnd); 23] = [
        ("Paragraph", MarkdownTagEnd::Paragraph),
        ("Heading", MarkdownTagEnd::Heading),
        ("BlockQuote", MarkdownTagEnd::BlockQuote),
        ("CodeBlock", MarkdownTagEnd::CodeBlock),
        ("HtmlBlock", MarkdownTagEnd::HtmlBlock),
        ("List", MarkdownTagEnd::List),
        ("Item", MarkdownTagEnd::Item),
        ("FootnoteDefinition", MarkdownTagEnd::FootnoteDefinition),
        ("DefinitionList", MarkdownTagEnd::DefinitionList),
        ("DefinitionListTitle", MarkdownTagEnd::DefinitionListTitle),
        ("DefinitionListDefinition", MarkdownTagEnd::DefinitionListDefinition),
        ("Table", MarkdownTagEnd::Table),
        ("TableHead", MarkdownTagEnd::TableHead),
        ("TableRow", MarkdownTagEnd::TableRow),
        ("TableCell", MarkdownTagEnd::TableCell),
        ("Emphasis", MarkdownTagEnd::Emphasis),
        ("Strong", MarkdownTagEnd::Strong),
        ("Strikethrough", MarkdownTagEnd::Strikethrough),
        ("Superscript", MarkdownTagEnd::Superscript),
        ("Subscript", MarkdownTagEnd::Subscript),
        ("Link", MarkdownTagEnd::Link),
        ("Image", MarkdownTagEnd::Image),
        ("MetadataBlock", MarkdownTagEnd::MetadataBlock),
    ];
    assert(table@ == tag_end_names());
    lookup_in(&table, n)
}

fn lookup_event(n: &[char]) -> (r: Option<MarkdownEvent>)
    ensures
        r == lookup_name(event_names(), n@),
{
    let table: [(&str, MarkdownEvent); 12] = [
        ("Start", MarkdownEvent::Start),
        ("Text", MarkdownEvent::Text),
        ("Code", MarkdownEvent::Code),
        ("InlineMath", MarkdownEvent::InlineMath),
        ("DisplayMath", MarkdownEvent::DisplayMath),
        ("Html", MarkdownEvent::Html),
        ("InlineHtml", MarkdownEvent::InlineHtml),
        ("FootnoteReference", MarkdownEvent::FootnoteReference),
        ("SoftBreak", MarkdownEvent::SoftBreak),
        ("HardBreak", MarkdownEvent::HardBreak),
        ("Rule", MarkdownEvent::Rule),
        ("TaskListMarker", MarkdownEvent::TaskListMarker),
    ];
    assert(table@ == event_names());
    lookup_in(&table, n)
}

fn lookup_in<A: Copy>(table: &[(&str, A)], n: &[char]) -> (r: Option<A>)
    ensures
        r == lookup_name(table@, n@),
{
    let mut i: usize = 0;
    assert(table@.skip(0) == table@);
    while i < table.len()
        invariant
            i <= table@.len(),
            lookup_name(table@, n@) == lookup_name(table@.skip(i as int), n@),
        decreases table@.len() - i,
    {
        let (name, value) = table[i];
        assert(table@.skip(i as int).drop_first() == table@.skip(i + 1));
        let cs = chars_of(name);
        if seq_eq(&cs, n) {
            return Some(value);
        }
        i += 1;
    }
    None
}

fn event_of_rendering_exec(r: &str) -> (e: Option<MarkdownEvent>)
    ensures
        e == event_of_rendering(r@),
{
    let cs = chars_of(r);
    let first_end = name_end_exec(&cs, 0);
    let first = slice_subrange(&cs, 0, first_end);
    let end_name = chars_of("End");
    if seq_eq(&first, &end_name) && cs.len() >= 4 {
        let tag_end = name_end_exec(&cs, 4);
        let tag = slice_subrange(&cs, 4, tag_end);
        match lookup_tag_end(&tag) {
            Some(t) => Some(MarkdownEvent::End(t)),
            None => None,
        }
    } else {
        lookup_event(&first)
    }
}

/// The events pulldown-cmark reports for `text`, each with the end of its
/// byte range.
fn markdown_events_of(text: &str) -> (events: Vec<(MarkdownEvent, usize)>)
    ensures
        events@ == markdown_events(text@),
{
    let rendered = parse_markdown_events(text);
    let ghost rs = rendering_views(rendered@);
    let mut events: Vec<(MarkdownEvent, usize)> = Vec::new();
    let mut i: usize = 0;
    while i < rendered.len()
        invariant
            i <= rendered@.len(),
            rs == rendering_views(rendered@),
            events@ == events_of_renderings(rs.take(i as int)),
        decreases rendered@.len() - i,
    {
        assert(rs.take(i + 1).drop_last() == rs.take(i as int));
        assert(rs.take(i + 1).last() == (rendered@[i as int].0@, rendered@[i as int].1));
        match event_of_rendering_exec(rendered[i].0.as_str()) {
            Some(e) => events.push((e, rendered[i].1)),
            None => {},
        }
        i += 1;
    }
    assert(rs.take(rendered@.len() as int) == rs);
    events
}

/// Whether an event closes a Markdown block (paragraph, heading, code block,
/// block quote, list or item) or is a thematic break.
pub open spec fn is_block_boundary(event: MarkdownEvent) -> bool {
    match event {
        MarkdownEvent::End(end) => match end {
            MarkdownTagEnd::Paragraph | MarkdownTagEnd::Heading | MarkdownTagEnd::CodeBlock
            | MarkdownTagEnd::BlockQuote | MarkdownTagEnd::List | MarkdownTagEnd::Item => true,
            _ => false,
        },
        MarkdownEvent::Rule => true,
        _ => false,
    }
}

fn is_markdown_block_boundary(event: MarkdownEvent) -> (r: bool)
    ensures
        r == is_block_boundary(event),
{
    match event {
        MarkdownEvent::End(end) => match end {
            MarkdownTagEnd::Paragraph | MarkdownTagEnd::Heading | MarkdownTagEnd::CodeBlock
            | MarkdownTagEnd::BlockQuote | MarkdownTagEnd::List | MarkdownTagEnd::Item => true,
            _ => false,
        },
        MarkdownEvent::Rule => true,
        _ => false,
    }
}

/// The byte offsets of the block-boundary events, in order.
pub open spec fn block_end_offsets(events: Seq<(MarkdownEvent, usize)>) -> Seq<usize>
    decreases events.len(),
{
    if events.len() == 0 {
        seq![]
    } else {
        let rest = block_end_offsets(events.drop_last());
        if is_block_boundary(events.last().0) {
            rest.push(events.last().1)
        } else {
            rest
        }
    }
}

/// The block-boundary byte offsets among `events`.
fn markdown_block_boundaries(events: &[(MarkdownEvent, usize)]) -> (offsets: Vec<usize>)
    ensures
        offsets@ == block_end_offsets(events@),
{
    let mut offsets: Vec<usize> = Vec::new();
    let mut i: usize = 0;
    while i < events.len()
        invariant
            i <= events@.len(),
            offsets@ == block_end_offsets(events@.take(i as int)),
        decreases events@.len() - i,
    {
        let (kind, end) = events[i];
        assert(events@.take(i + 1).drop_last() == events@.take(i as int));
        if is_markdown_block_boundary(kind) {
            offsets.push(end);
        }
        i += 1;
    }
    assert(events@.take(events@.len() as int) == events@);
    offsets
}

/// Length of the UTF-8 encoding of `c` (`char::len_utf8`).
pub open spec fn utf8_width(c: char) -> nat {
    let u = c as u32;
    if u <= 0x7f {
        1
    } else if u <= 0x7ff {
        2
    } else if u <= 0xffff {
        3
    } else {
        4
    }
}

/// Length in bytes of the UTF-8 encoding of `s`.
pub open spec fn utf8_len(s: Seq<char>) -> nat
    decreases s.len(),
{
    if s.len() == 0 {
        0
    } else {
        utf8_len(s.drop_last()) + utf8_width(s.last())
    }
}

/// Byte offsets of character boundaries grow strictly with the character
/// index.
proof fn lemma_utf8_len_strict(s: Seq<char>, a: int, b: int)
    requires
        0 <= a < b <= s.len(),
    ensures
        utf8_len(s.take(a)) < utf8_len(s.take(b)),
    decreases b - a,
{
    assert(s.take(b).drop_last() == s.take(b - 1));
    if a < b - 1 {
        lemma_utf8_len_strict(s, a, b - 1);
    }
}

/// The character index at which the byte offset `offset` of the UTF-8
/// encoding of `s` falls, when it is a character boundary.
pub open spec fn char_index_of_byte(s: Seq<char>, offset: int) -> Option<int> {
    if exists|c: int| 0 <= c <= s.len() && utf8_len(s.take(c)) == offset {
        Some(choose|c: int| 0 <= c <= s.len() && utf8_len(s.take(c)) == offset)
    } else {
        None
    }
}

/// The character indices of those byte offsets that are character
/// boundaries of `s`, in order.
pub open spec fn char_offsets(s: Seq<char>, offsets: Seq<usize>) -> Seq<int>
    decreases offsets.len(),
{
    if offsets.len() == 0 {
        seq![]
    } else {
        let rest = char_offsets(s, offsets.drop_last());
        match char_index_of_byte(s, offsets.last() as int) {
            Some(c) => rest.push(c),
            None => rest,
        }
    }
}

/// Byte offsets of the character boundaries of `cs`, as far as they fit in
/// a `usize`.
fn boundary_byte_offsets(cs: &[char]) -> (p: Vec<usize>)
    ensures
        1 <= p@.len() <= cs@.len() + 1,
        forall|i: int| 0 <= i < p@.len() ==> p@[i] == utf8_len(cs@.take(i)),
        p@.len() <= cs@.len() ==> utf8_len(cs@.take(p@.len() as int)) > usize::MAX,
{
    let mut p: Vec<usize> = Vec::new();
    p.push(0);
    assert(cs@.take(0) == Seq::<char>::empty());
    let mut pos: usize = 0;
    let mut i: usize = 0;
    while i < cs.len()
        invariant
            i <= cs@.len(),
            p@.len() == i + 1,
            pos == utf8_len(cs@.take(i as int)),
            forall|j: int| 0 <= j < p@.len() ==> p@[j] == utf8_len(cs@.take(j)),
        decreases cs@.len() - i,
    {
        let u = cs[i] as u32;
        let w: usize = if u <= 0x7f {
            1
        } else if u <= 0x7ff {
            2
        } else if u <= 0xffff {
            3
        } else {
            4
        };
        assert(cs@.take(i + 1).drop_last() == cs@.take(i as int));
        if pos > usize::MAX - w {
            return p;
        }
        pos = pos + w;
        p.push(pos);
        i += 1;
    }
    p
}

/// The index `i` with `p[i] == target` in the strictly increasing `p`.
fn search_sorted(p: &[usize], target: usize) -> (r: Option<usize>)
    requires
        forall|a: int, b: int| 0 <= a < b < p@.len() ==> p@[a] < p@[b],
    ensures
        match r {
            Some(i) => i < p@.len() && p@[i as int] == target,
            None => forall|i: int| 0 <= i < p@.len() ==> p@[i] != target,
        },
{
    let mut lo: usize = 0;
    let mut hi: usize = p.len();
    while lo < hi
        invariant
            lo <= hi <= p@.len(),
            forall|a: int, b: int| 0 <= a < b < p@.len() ==> p@[a] < p@[b],
            forall|i: int| 0 <= i < lo ==> p@[i] < target,
            forall|i: int| hi <= i < p@.len() ==> p@[i] > target,
        decreases hi - lo,
    {
        let mid = lo + (hi - lo) / 2;
        if p[mid] == target {
            return Some(mid);
        } else if p[mid] < target {
            lo = mid + 1;
        } else {
            hi = mid;
        }
    }
    None
}

/// The character indices of those byte offsets that fall on character
/// boundaries of `cs`.
fn char_offsets_exec(cs: &[char], offsets: &[usize]) -> (r: Vec<usize>)
    ensures
        r@.len() <= offsets@.len(),
        forall|i: int| 0 <= i < r@.len() ==> r@[i] == char_offsets(cs@, offsets@)[i],
        r@.len() == char_offsets(cs@, offsets@).len(),
{
    let p = boundary_byte_offsets(cs);
    proof {
        assert forall|a: int, b: int| 0 <= a < b < p@.len() implies p@[a] < p@[b] by {
            lemma_utf8_len_strict(cs@, a, b);
        }
    }
    let mut r: Vec<usize> = Vec::new();
    let mut i: usize = 0;
    while i < offsets.len()
        invariant
            i <= offsets@.len(),
            r@.len() <= i,
            1 <= p@.len() <= cs@.len() + 1,
            forall|j: int| 0 <= j < p@.len() ==> p@[j] == utf8_len(cs@.take(j)),
            p@.len() <= cs@.len() ==> utf8_len(cs@.take(p@.len() as int)) > usize::MAX,
            forall|a: int, b: int| 0 <= a < b < p@.len() ==> p@[a] < p@[b],
            r@.len() == char_offsets(cs@, offsets@.take(i as int)).len(),
            forall|j: int| 0 <= j < r@.len() ==> r@[j] == char_offsets(cs@, offsets@.take(i as int))[j],
        decreases offsets@.len() - i,
    {
        let o = offsets[i];
        assert(offsets@.take(i + 1).drop_last() == offsets@.take(i as int));
        assert(offsets@.take(i + 1).last() == o);
        match search_sorted(&p, o) {
            Some(c) => {
                proof {
                    let w = choose|c2: int| 0 <= c2 <= cs@.len() && utf8_len(cs@.take(c2)) == o;
                    assert(0 <= c <= cs@.len() && utf8_len(cs@.take(c as int)) == o);
                    if w < c {
                        lemma_utf8_len_strict(cs@, w, c as int);
                    } else if c < w {
                        lemma_utf8_len_strict(cs@, c as int, w);
                    }
                    assert(char_index_of_byte(cs@, o as int) == Some(c as int));
                }
                r.push(c);
            },
            None => {
                proof {
                    assert forall|c2: int| 0 <= c2 <= cs@.len() implies utf8_len(cs@.take(c2))
                        != o by {
                        if c2 >= p@.len() {
                            let q = (p@.len() - 1) as int;
                            if c2 > p@.len() {
                                lemma_utf8_len_strict(cs@, p@.len() as int, c2);
                            }
                        } else {
                            assert(p@[c2] != o);
                        }
                    }
                    assert(char_index_of_byte(cs@, o as int) is None);
                }
            },
        }
        i += 1;
    }
    assert(offsets@.take(offsets@.len() as int) == offsets@);
    r
}


// ---------------------------------------------------------------------------
// Markdown-aware chunking
// ---------------------------------------------------------------------------

/// Whether a message looks like Markdown: it holds a newline, a code fence,
/// a heading marker, a link or a bullet.
pub open spec fn looks_like_markdown_text(s: Seq<char>) -> bool {
    ||| contains(s, "\n"@)
    ||| contains(s, "```"@)
    ||| contains(s, "# "@)
    ||| contains(s, "]("@)
    ||| contains(s, "* "@)
}

fn looks_like_markdown(message: &str) -> (r: bool)
    ensures
        r == looks_like_markdown_text(message@),
{
    str_contains(message, "\n") || str_contains(message, "```") || str_contains(message, "# ")
        || str_contains(message, "](") || str_contains(message, "* ")
}

/// The largest of `bounds` that is at most `x`.
pub open spec fn max_at_most(bounds: Seq<int>, x: int) -> Option<int>
    decreases bounds.len(),
{
    if bounds.len() == 0 {
        None
    } else {
        let rest = max_at_most(bounds.drop_last(), x);
        let b = bounds.last();
        if b <= x {
            match rest {
                Some(c) => if c >= b {
                    Some(c)
                } else {
                    Some(b)
                },
                None => Some(b),
            }
        } else {
            rest
        }
    }
}

proof fn lemma_max_at_most(bounds: Seq<int>, x: int)
    ensures
        max_at_most(bounds, x) matches Some(b) ==> b <= x,
    decreases bounds.len(),
{
    if bounds.len() > 0 {
        lemma_max_at_most(bounds.drop_last(), x);
    }
}

/// Where the Markdown strategy ends the chunk that starts at `start`: at the
/// last block boundary within the window of `max_chars` characters when that
/// lies past `start`, else at the window's [`split_point`].
pub open spec fn markdown_chunk_end(s: Seq<char>, bounds: Seq<int>, start: int, max_chars: nat) -> int {
    let window_end = start + max_chars;
    match max_at_most(bounds, window_end) {
        Some(b) if b > start => b,
        _ => start + split_point(s.subrange(start, window_end), max_chars),
    }
}

/// Chunks of `s[start..]` under the Markdown strategy, or `None` when it
/// cannot make progress.
pub open spec fn markdown_chunks_from(s: Seq<char>, bounds: Seq<int>, start: int, max_chars: nat) -> Option<
    Seq<Seq<char>>,
>
    decreases s.len() - start,
{
    if start < 0 || start >= s.len() || max_chars == 0 {
        Some(seq![])
    } else if s.len() - start <= max_chars {
        Some(seq![s.skip(start)])
    } else {
        let end = markdown_chunk_end(s, bounds, start, max_chars);
        if end <= start || end > s.len() {
            None
        } else {
            match markdown_chunks_from(s, bounds, end, max_chars) {
                Some(rest) => Some(seq![s.subrange(start, end)] + rest),
                None => None,
            }
        }
    }
}

/// Chunks of `s` under the Markdown strategy with block boundaries at the
/// character indices `bounds`: `None` when the chunk size is zero, when `s`
/// does not look like Markdown, when no boundary lies strictly inside `s`, or
/// when the strategy cannot make progress.
pub open spec fn markdown_chunks(s: Seq<char>, bounds: Seq<int>, max_chars: nat) -> Option<
    Seq<Seq<char>>,
> {
    if max_chars == 0 || !looks_like_markdown_text(s) {
        None
    } else if !(exists|i: int| 0 <= i < bounds.len() && 0 < #[trigger] bounds[i] < s.len()) {
        None
    } else {
        markdown_chunks_from(s, bounds, 0, max_chars)
    }
}

/// The Markdown strategy, when it succeeds, yields a chunking of `s[start..]`.
pub proof fn lemma_markdown_chunks_from(s: Seq<char>, bounds: Seq<int>, start: int, max_chars: nat)
    requires
        0 <= start < s.len(),
        max_chars > 0,
    ensures
        markdown_chunks_from(s, bounds, start, max_chars) matches Some(c) ==> is_chunking(
            c,
            s.skip(start),
            max_chars,
        ),
    decreases s.len() - start,
{
    if s.len() - start <= max_chars {
        seq![s.skip(start)].lemma_flatten_one_element();
    } else {
        let end = markdown_chunk_end(s, bounds, start, max_chars);
        let window_end = start + max_chars;
        lemma_max_at_most(bounds, window_end);
        lemma_split_point(s.subrange(start, window_end), max_chars);
        if start < end <= s.len() {
            if end < s.len() {
                lemma_markdown_chunks_from(s, bounds, end, max_chars);
            }
            if let Some(rest) = markdown_chunks_from(s, bounds, end, max_chars) {
                let t = s.skip(start);
                let k = end - start;
                assert(t.skip(k) == s.skip(end));
                assert(t.take(k) == s.subrange(start, end));
                if end == s.len() {
                    assert(rest == Seq::<Seq<char>>::empty());
                    assert(rest.flatten() == s.skip(end));
                }
                lemma_chunking_cons(s.subrange(start, end), rest, t, k, max_chars);
            }
        }
    }
}

/// The largest boundary at most `x`.
fn max_boundary_at_most(bounds: &[usize], x: usize, ghost_bounds: Ghost<Seq<int>>) -> (r: Option<
    usize,
>)
    requires
        bounds@.len() == ghost_bounds@.len(),
        forall|i: int| 0 <= i < bounds@.len() ==> bounds@[i] == ghost_bounds@[i],
    ensures
        match r {
            Some(b) => max_at_most(ghost_bounds@, x as int) == Some(b as int),
            None => max_at_most(ghost_bounds@, x as int) is None,
        },
{
    let ghost g = ghost_bounds@;
    let mut best: Option<usize> = None;
    let mut i: usize = 0;
    while i < bounds.len()
        invariant
            i <= bounds@.len(),
            bounds@.len() == g.len(),
            forall|j: int| 0 <= j < bounds@.len() ==> bounds@[j] == g[j],
            match best {
                Some(b) => max_at_most(g.take(i as int), x as int) == Some(b as int),
                None => max_at_most(g.take(i as int), x as int) is None,
            },
        decreases bounds@.len() - i,
    {
        let b = bounds[i];
        assert(g.take(i + 1).drop_last() == g.take(i as int));
        assert(g.take(i + 1).last() == b);
        if b <= x {
            best = match best {
                Some(c) => if c >= b {
                    Some(c)
                } else {
                    Some(b)
                },
                None => Some(b),
            };
        }
        i += 1;
    }
    assert(g.take(bounds@.len() as int) == g);
    best
}

/// Whether some boundary lies strictly inside a text of `n` characters.
fn has_inner_boundary(bounds: &[usize], n: usize) -> (r: bool)
    ensures
        r == (exists|i: int| 0 <= i < bounds@.len() && 0 < #[trigger] bounds@[i] < n),
{
    let mut i: usize = 0;
    while i < bounds.len()
        invariant
            i <= bounds@.len(),
            forall|j: int| 0 <= j < i ==> !(0 < #[trigger] bounds@[j] < n),
        decreases bounds@.len() - i,
    {
        if 0 < bounds[i] && bounds[i] < n {
            return true;
        }
        i += 1;
    }
    false
}

/// Executable [`split_point`] on the window `cs[start..start + max_chars]`.
fn choose_split_boundary(cs: &[char], start: usize, max_chars: usize) -> (e: usize)
    requires
        start + max_chars <= cs@.len(),
        max_chars > 0,
    ensures
        e == split_point(cs@.subrange(start as int, start + max_chars), max_chars as nat),
        0 < e <= max_chars,
{
    proof {
        lemma_split_point(cs@.subrange(start as int, start + max_chars), max_chars as nat);
    }
    let n = cs.len();
    let window_end = start + max_chars;
    assert(window_end <= n);
    if let Some(pos) = rfind_char_in(cs, start, window_end, '\n') {
        if pos >= max_chars / 2 {
            return pos + 1;
        }
    }
    if let Some(pos) = rfind_char_in(cs, start, window_end, ' ') {
        return pos + 1;
    }
    max_chars
}

/// Executable [`markdown_chunks`] for the characters `cs` and the boundary
/// character indices `bounds`.
fn markdown_chunks_exec(cs: &[char], bounds: &[usize], max_chars: usize, ghost_bounds: Ghost<
    Seq<int>,
>) -> (r: Option<Vec<String>>)
    requires
        bounds@.len() == ghost_bounds@.len(),
        forall|i: int| 0 <= i < bounds@.len() ==> bounds@[i] == ghost_bounds@[i],
        max_chars > 0,
        exists|i: int| 0 <= i < bounds@.len() && 0 < #[trigger] bounds@[i] < cs@.len(),
    ensures
        match r {
            Some(v) => markdown_chunks_from(cs@, ghost_bounds@, 0, max_chars as nat) == Some(
                v.deep_view(),
            ),
            None => markdown_chunks_from(cs@, ghost_bounds@, 0, max_chars as nat) is None,
        },
{
    let ghost g = ghost_bounds@;
    let ghost s = cs@;
    let n = cs.len();
    let mut chunks: Vec<String> = Vec::new();
    let mut start: usize = 0;
    while start < n
        invariant_except_break
            n == s.len(),
            s == cs@,
            max_chars > 0,
            start <= n,
            bounds@.len() == g.len(),
            forall|i: int| 0 <= i < bounds@.len() ==> bounds@[i] == g[i],
            match markdown_chunks_from(s, g, start as int, max_chars as nat) {
                Some(rest) => markdown_chunks_from(s, g, 0, max_chars as nat) == Some(
                    chunks.deep_view() + rest,
                ),
                None => markdown_chunks_from(s, g, 0, max_chars as nat) is None,
            },
        ensures
            markdown_chunks_from(s, g, 0, max_chars as nat) == Some(chunks.deep_view()),
        decreases n - start,
    {
        if n - start <= max_chars {
            let piece = slice_subrange(cs, start, n);
            assert(piece@ == s.skip(start as int));
            let ghost before = chunks.deep_view();
            chunks.push(string_of(&piece));
            assert(chunks.deep_view() == before.push(piece@));
            assert(before + seq![piece@] == before.push(piece@));
            break;
        }
        let window_end = start + max_chars;
        let end = match max_boundary_at_most(bounds, window_end, Ghost(g)) {
            Some(b) if b > start => b,
            _ => start + choose_split_boundary(cs, start, max_chars),
        };
        proof {
            lemma_max_at_most(g, window_end as int);
        }
        assert(end == markdown_chunk_end(s, g, start as int, max_chars as nat));
        if end <= start {
            return None;
        }
        let piece = slice_subrange(cs, start, end);
        let ghost before = chunks.deep_view();
        chunks.push(string_of(&piece));
        assert(chunks.deep_view() == before.push(piece@));
        proof {
            match markdown_chunks_from(s, g, end as int, max_chars as nat) {
                Some(rest) => {
                    assert(before + (seq![piece@] + rest) == before.push(piece@) + rest);
                },
                None => {},
            }
        }
        start = end;
    }
    Some(chunks)
}

/// The block-boundary character indices of `message` given the parser
/// events `events`.
pub open spec fn markdown_bounds(
    message: Seq<char>,
    events: Seq<(MarkdownEvent, usize)>,
) -> Seq<int> {
    char_offsets(message, block_end_offsets(events))
}

/// The events at which a Markdown block closes: the end of a paragraph,
/// heading, code block, block quote, list or list item, and a thematic break.
pub open spec fn closes_block(e: MarkdownEvent) -> bool {
    ||| e == MarkdownEvent::End(MarkdownTagEnd::Paragraph)
    ||| e == MarkdownEvent::End(MarkdownTagEnd::Heading)
    ||| e == MarkdownEvent::End(MarkdownTagEnd::CodeBlock)
    ||| e == MarkdownEvent::End(MarkdownTagEnd::BlockQuote)
    ||| e == MarkdownEvent::End(MarkdownTagEnd::List)
    ||| e == MarkdownEvent::End(MarkdownTagEnd::Item)
    ||| e == MarkdownEvent::Rule
}

/// The boundary test picks exactly the events that close a block.
pub proof fn lemma_block_boundary_is_block_close(e: MarkdownEvent)
    ensures
        is_block_boundary(e) == closes_block(e),
{
}

/// Whether some event of `events` that closes a block ends at byte `o`.
pub open spec fn reports_block_end(events: Seq<(MarkdownEvent, usize)>, o: usize) -> bool {
    exists|i: int| 0 <= i < events.len() && closes_block(#[trigger] events[i].0) && events[i].1 == o
}

proof fn lemma_char_offsets_contains(s: Seq<char>, offsets: Seq<usize>, o: usize, c: int)
    requires
        offsets.contains(o),
        char_index_of_byte(s, o as int) == Some(c),
    ensures
        char_offsets(s, offsets).contains(c),
    decreases offsets.len(),
{
    let rest = offsets.drop_last();
    if offsets.last() == o {
        let r = char_offsets(s, rest);
        assert(char_offsets(s, offsets) == r.push(c));
        assert(r.push(c)[r.len() as int] == c);
    } else {
        let k = choose|k: int| 0 <= k < offsets.len() && offsets[k] == o;
        assert(rest[k] == o);
        lemma_char_offsets_contains(s, rest, o, c);
        let r = char_offsets(s, rest);
        let j = choose|j: int| 0 <= j < r.len() && r[j] == c;
        match char_index_of_byte(s, offsets.last() as int) {
            Some(d) => {
                assert(r.push(d)[j] == c);
            },
            None => {},
        }
    }
}

proof fn lemma_block_end_offsets(events: Seq<(MarkdownEvent, usize)>)
    ensures
        forall|i: int|
            0 <= i < events.len() && closes_block(#[trigger] events[i].0) ==> block_end_offsets(
                events,
            ).contains(events[i].1),
        forall|j: int|
            0 <= j < block_end_offsets(events).len() ==> reports_block_end(
                events,
                #[trigger] block_end_offsets(events)[j],
            ),
    decreases events.len(),
{
    if events.len() > 0 {
        let rest = events.drop_last();
        lemma_block_end_offsets(rest);
        let r = block_end_offsets(rest);
        let b = block_end_offsets(events);
        assert forall|i: int|
            0 <= i < events.len() && closes_block(#[trigger] events[i].0) implies b.contains(
            events[i].1,
        ) by {
            if i < events.len() - 1 {
                assert(rest[i] == events[i]);
                let k = choose|k: int| 0 <= k < r.len() && r[k] == events[i].1;
                if is_block_boundary(events.last().0) {
                    assert(b[k] == events[i].1);
                } else {
                    assert(b[k] == events[i].1);
                }
            } else {
                assert(b[b.len() - 1] == events[i].1);
            }
        }
        lemma_block_boundary_is_block_close(events.last().0);
        assert forall|j: int| 0 <= j < b.len() implies reports_block_end(events, #[trigger] b[j]) by {
            if !is_block_boundary(events.last().0) {
                assert(b == r);
                assert(reports_block_end(rest, r[j]));
                let i = choose|i: int|
                    0 <= i < rest.len() && closes_block(#[trigger] rest[i].0) && rest[i].1 == r[j];
                assert(events[i] == rest[i]);
            } else if j < r.len() {
                let i = choose|i: int|
                    0 <= i < rest.len() && closes_block(#[trigger] rest[i].0) && rest[i].1 == r[j];
                assert(events[i] == rest[i]);
                assert(b[j] == r[j]);
            } else {
                assert(closes_block(events[events.len() - 1].0));
            }
        }
    }
}

/// The Markdown chunking cuts at exactly the block ends the parser reports:
/// every end of a paragraph, heading, code block, block quote, list or list
/// item, and every thematic break, whose byte offset is a character boundary
/// of the message gives a chunking bound at that character; every chunking
/// bound comes from such an event.
pub proof fn lemma_block_ends_are_chunk_bounds(
    message: Seq<char>,
    events: Seq<(MarkdownEvent, usize)>,
)
    ensures
        forall|i: int, c: int|
            0 <= i < events.len() && closes_block(#[trigger] events[i].0) && char_index_of_byte(
                message,
                events[i].1 as int,
            ) == Some(c) ==> #[trigger] markdown_bounds(message, events).contains(c),
        forall|j: int|
            0 <= j < block_end_offsets(events).len() ==> reports_block_end(
                events,
                #[trigger] block_end_offsets(events)[j],
            ),
{
    lemma_block_end_offsets(events);
    assert forall|i: int, c: int|
        0 <= i < events.len() && closes_block(#[trigger] events[i].0) && char_index_of_byte(
            message,
            events[i].1 as int,
        ) == Some(c) implies #[trigger] markdown_bounds(message, events).contains(c) by {
        lemma_char_offsets_contains(message, block_end_offsets(events), events[i].1, c);
    }
}

/// Chunk `message` at Markdown block boundaries, the boundaries taken from
/// the parser events `events` (byte offsets that are not character
/// boundaries of `message` are passed over). `None` when the chunk size is
/// zero, or the message does not look like Markdown or has no block boundary
/// strictly inside it.
pub fn split_message_with_markdown_events(
    message: &str,
    events: &[(MarkdownEvent, usize)],
    max_chunk_chars: usize,
) -> (r: Option<Vec<String>>)
    ensures
        match r {
            Some(v) => markdown_chunks(message@, markdown_bounds(message@, events@), max_chunk_chars as nat)
                == Some(v.deep_view()),
            None => markdown_chunks(
                message@,
                markdown_bounds(message@, events@),
                max_chunk_chars as nat,
            ) is None,
        },
{
    if max_chunk_chars == 0 || !looks_like_markdown(message) {
        return None;
    }
    let cs = chars_of(message);
    let offsets = markdown_block_boundaries(events);
    let bounds = char_offsets_exec(&cs, &offsets);
    let ghost g = markdown_bounds(message@, events@);
    if !has_inner_boundary(&bounds, cs.len()) {
        proof {
            assert forall|i: int| 0 <= i < g.len() implies !(0 < #[trigger] g[i] < message@.len()) by {
                assert(bounds@[i] == g[i]);
            }
        }
        return None;
    }
    proof {
        let i = choose|i: int| 0 <= i < bounds@.len() && 0 < #[trigger] bounds@[i] < cs@.len();
        assert(g[i] == bounds@[i]);
    }
    markdown_chunks_exec(&cs, &bounds, max_chunk_chars, Ghost(g))
}

/// Chunk `message` at Markdown block boundaries found by the parser.
fn split_message_with_markdown_block_boundaries(message: &str, max_chunk_chars: usize) -> (r:
    Option<Vec<String>>)
    ensures
        match r {
            Some(v) => markdown_chunks(
                message@,
                markdown_bounds(message@, markdown_events(message@)),
                max_chunk_chars as nat,
            ) == Some(v.deep_view()),
            None => markdown_chunks(
                message@,
                markdown_bounds(message@, markdown_events(message@)),
                max_chunk_chars as nat,
            ) is None,
        },
{
    if !looks_like_markdown(message) {
        return None;
    }
    let events = markdown_events_of(message);
    split_message_with_markdown_events(message, &events, max_chunk_chars)
}

/// Executable [`plain_chunks`].
fn split_plain(cs: &[char], max_chars: usize) -> (chunks: Vec<String>)
    requires
        max_chars > 0,
    ensures
        chunks.deep_view() == plain_chunks(cs@, max_chars as nat),
{
    let ghost s = cs@;
    let n = cs.len();
    let mut chunks: Vec<String> = Vec::new();
    let mut start: usize = 0;
    assert(s.skip(0) == s);
    loop
        invariant_except_break
            n == s.len(),
            s == cs@,
            max_chars > 0,
            start <= n,
            plain_chunks(s, max_chars as nat) == chunks.deep_view() + plain_chunks(
                s.skip(start as int),
                max_chars as nat,
            ),
        ensures
            plain_chunks(s, max_chars as nat) == chunks.deep_view(),
        decreases n - start,
    {
        let ghost rest = s.skip(start as int);
        let ghost before = chunks.deep_view();
        if start >= n {
            assert(plain_chunks(rest, max_chars as nat) == Seq::<Seq<char>>::empty());
            assert(before + Seq::<Seq<char>>::empty() == before);
            break;
        }
        if n - start <= max_chars {
            let piece = slice_subrange(cs, start, n);
            assert(piece@ == rest);
            chunks.push(string_of(&piece));
            assert(chunks.deep_view() == before.push(piece@));
            assert(plain_chunks(rest, max_chars as nat) == seq![piece@]);
            assert(before + seq![piece@] == before.push(piece@));
            break;
        }
        let e = choose_split_boundary(cs, start, max_chars);
        assert(rest.take(max_chars as int) == s.subrange(start as int, start + max_chars));
        let end = start + e;
        let piece = slice_subrange(cs, start, end);
        assert(piece@ == rest.take(e as int));
        assert(rest.skip(e as int) == s.skip(end as int));
        chunks.push(string_of(&piece));
        assert(chunks.deep_view() == before.push(piece@));
        assert(plain_chunks(rest, max_chars as nat) == seq![piece@] + plain_chunks(
            s.skip(end as int),
            max_chars as nat,
        ));
        assert(before + (seq![piece@] + plain_chunks(s.skip(end as int), max_chars as nat))
            == before.push(piece@) + plain_chunks(s.skip(end as int), max_chars as nat));
        start = end;
    }
    chunks
}

/// The chunk size used for long messages: the Telegram limit less the room
/// kept for continuation markers.
pub open spec fn telegram_chunk_chars() -> nat {
    (TELEGRAM_MAX_MESSAGE_LENGTH - marker_reserve()) as nat
}

/// The chunks of a Telegram message given the Markdown parser's events for
/// it: the message itself when it fits in one Telegram message, else the
/// Markdown strategy's chunks when it applies, else the plain strategy's.
pub open spec fn telegram_chunks(
    message: Seq<char>,
    events: Seq<(MarkdownEvent, usize)>,
) -> Seq<Seq<char>> {
    if message.len() <= TELEGRAM_MAX_MESSAGE_LENGTH {
        seq![message]
    } else {
        match markdown_chunks(message, markdown_bounds(message, events), telegram_chunk_chars()) {
            Some(c) => c,
            None => plain_chunks(message, telegram_chunk_chars()),
        }
    }
}

/// Split a message into Telegram-safe chunks, the Markdown block boundaries
/// taken from the parser events `events`.
pub fn split_message_for_telegram_with_events(
    message: &str,
    events: &[(MarkdownEvent, usize)],
) -> (chunks: Vec<String>)
    ensures
        chunks.deep_view() == telegram_chunks(message@, events@),
{
    let cs = chars_of(message);
    let max_chunk_chars = TELEGRAM_MAX_MESSAGE_LENGTH - chunk_marker_reserve_chars();
    if cs.len() <= TELEGRAM_MAX_MESSAGE_LENGTH {
        let mut one: Vec<String> = Vec::new();
        one.push(String::from_str(message));
        assert(one.deep_view() == seq![message@]);
        return one;
    }
    if let Some(chunks) = split_message_with_markdown_events(message, events, max_chunk_chars) {
        return chunks;
    }
    split_plain(&cs, max_chunk_chars)
}

/// Split a message into Telegram-safe chunks.
pub fn split_message_for_telegram(message: &str) -> (chunks: Vec<String>)
    ensures
        chunks.deep_view() == telegram_chunks(message@, markdown_events(message@)),
{
    let cs = chars_of(message);
    let max_chunk_chars = TELEGRAM_MAX_MESSAGE_LENGTH - chunk_marker_reserve_chars();
    if cs.len() <= TELEGRAM_MAX_MESSAGE_LENGTH {
        let mut one: Vec<String> = Vec::new();
        one.push(String::from_str(message));
        assert(one.deep_view() == seq![message@]);
        return one;
    }
    if let Some(chunks) = split_message_with_markdown_block_boundaries(message, max_chunk_chars) {
        return chunks;
    }
    split_plain(&cs, max_chunk_chars)
}

/// Whatever the parser reports, the chunks of a Telegram message put back
/// together give the message; a message that fits is one chunk, and a longer
/// one is cut into non-empty chunks of at most the chunk size, which leaves
/// room for the continuation markers.
pub proof fn lemma_telegram_chunks(message: Seq<char>, events: Seq<(MarkdownEvent, usize)>)
    ensures
        telegram_chunks(message, events).flatten() == message,
        message.len() <= TELEGRAM_MAX_MESSAGE_LENGTH ==> telegram_chunks(message, events) == seq![
            message,
        ],
        message.len() > TELEGRAM_MAX_MESSAGE_LENGTH ==> is_chunking(
            telegram_chunks(message, events),
            message,
            telegram_chunk_chars(),
        ),
{
    if message.len() <= TELEGRAM_MAX_MESSAGE_LENGTH {
        seq![message].lemma_flatten_one_element();
    } else {
        let bounds = markdown_bounds(message, events);
        lemma_plain_chunks(message, telegram_chunk_chars());
        lemma_markdown_chunks_from(message, bounds, 0, telegram_chunk_chars());
        assert(message.skip(0) == message);
    }
}

/// Every chunk of a Telegram message, decorated with the continuation
/// markers its position calls for, fits in one Telegram message.
pub proof fn lemma_decorated_chunks_fit(
    message: Seq<char>,
    events: Seq<(MarkdownEvent, usize)>,
    index: int,
)
    requires
        0 <= index < telegram_chunks(message, events).len(),
    ensures
        decorated_chunk(
            telegram_chunks(message, events)[index],
            index,
            telegram_chunks(message, events).len() as int,
        ).len() <= TELEGRAM_MAX_MESSAGE_LENGTH,
{
    lemma_telegram_chunks(message, events);
    lemma_marker_lengths();
}

} // verus!
