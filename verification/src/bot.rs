//! What the Discord bot shows: chat entries with an emoji for their role,
//! and long markdown messages split in pieces that Discord accepts.

use vstd::prelude::*;

use crate::chains::agents::byte_len;
use crate::chains::{message_display, Message, MessageFormatter};
use crate::context::{ChatEntry, ChatEntryFormatter, EntryView};
use crate::models::Role;
use crate::text::{prefixed, push_str, trim, trimmed};

verus! {

/// How an entry is shown: an emoji for its role on a line of its own, then
/// its message.
pub open spec fn formatted_entry(role: Role, msg: Seq<char>) -> Seq<char> {
    match role {
        Role::User => ":earth_americas:\n"@ + msg,
        Role::Assistant => ":robot:\n"@ + msg,
        Role::System => ":rooster:\n"@ + msg,
    }
}

/// A formatter that renders chat entries and messages in markdown.
pub struct Formatter {}

impl ChatEntryFormatter for Formatter {
    open spec fn formatted(&self, entry: EntryView) -> Seq<char> {
        formatted_entry(entry.role, entry.msg)
    }

    fn format(&self, entry: &ChatEntry) -> (s: String) {
        match entry.role {
            Role::User => prefixed(":earth_americas:\n", entry.msg.as_str()),
            Role::Assistant => prefixed(":robot:\n", entry.msg.as_str()),
            Role::System => prefixed(":rooster:\n", entry.msg.as_str()),
        }
    }
}

impl MessageFormatter for Formatter {
    open spec fn formatted_message(&self, msg: Message) -> Seq<char> {
        message_display(msg)
    }

    fn format(&self, msg: &Message) -> (s: String) {
        msg.to_string()
    }
}

} // verus!

verus! {

use crate::text::{truncate_bytes, utf8_prefix};
use pulldown_cmark::Event as E;
use pulldown_cmark::Tag as T;
use pulldown_cmark::CodeBlockKind as K;
use pulldown_cmark::TagEnd as TE;

/// The kind of a markdown element, as the parser tells the end of one.
#[derive(Clone, Copy, PartialEq, Eq, Structural)]
pub enum MdKind {
    /// A paragraph
    Paragraph,
    /// A heading, with its level (1 to 6)
    Heading(u8),
    /// A block quote
    BlockQuote,
    /// A code block
    CodeBlock,
    /// An HTML block
    HtmlBlock,
    /// A list, ordered or not
    List(bool),
    /// A list item
    Item,
    /// A footnote definition
    FootnoteDefinition,
    /// A table
    Table,
    /// The head of a table
    TableHead,
    /// A row of a table
    TableRow,
    /// A cell of a table
    TableCell,
    /// Emphasis
    Emphasis,
    /// Strong emphasis
    Strong,
    /// Struck-through text
    Strikethrough,
    /// A link
    Link,
    /// An image
    Image,
    /// A metadata block
    MetadataBlock,
}

/// A markdown event, as the parser yields it, with what its size and the
/// splitting of a message depend on.
pub enum MdEvent {
    /// The start of an element: its kind, and the texts it holds
    /// (the identifier and the classes of a heading, the info string of a
    /// fenced code block, the label of a footnote definition, the
    /// destination and the title of a link or an image)
    Start {
        /// The kind of the element
        kind: MdKind,
        /// The texts the start holds
        texts: Vec<String>,
    },
    /// The end of an element, by its kind
    End(MdKind),
    /// Text, inline code, HTML, inline HTML or a footnote reference
    Text(String),
    /// A soft line break
    SoftBreak,
    /// A hard line break
    HardBreak,
    /// A horizontal rule
    Rule,
    /// A task list marker
    TaskListMarker,
}

/// The events that `pulldown_cmark` parses a markdown text into, with every
/// extension but smart punctuation.
pub uninterp spec fn parsed_markdown(text: Seq<char>) -> Seq<MdEvent>;

/// The markdown text that `pulldown_cmark_to_cmark` renders `count` events
/// of the text from the event `from` on into.
pub uninterp spec fn rendered_markdown(text: Seq<char>, from: nat, count: nat) -> Seq<char>;

/// The start of a markdown element in `pulldown_cmark`.
#[verifier::external_type_specification]
#[verifier::external_body]
pub struct ExMarkdownTag<'a>(pulldown_cmark::Tag<'a>);

/// The options of `pulldown_cmark`.
#[verifier::external_type_specification]
#[verifier::external_body]
pub struct ExMarkdownOptions(pulldown_cmark::Options);

/// `pulldown_cmark::Options::all`, without smart punctuation.
#[verifier::external_body]
fn markdown_options() -> pulldown_cmark::Options {
    let mut options = pulldown_cmark::Options::all();
    options.remove(pulldown_cmark::Options::ENABLE_SMART_PUNCTUATION);
    options
}

/// The end of a markdown element in `pulldown_cmark`.
#[verifier::external_type_specification]
#[verifier::external_body]
pub struct ExMarkdownTagEnd(pulldown_cmark::TagEnd);

/// The kind of an element, from the end that `pulldown_cmark` gives for it,
/// variant for variant, with the level of a heading as a number: part of
/// the conversion of the events in `parse_markdown`, which alone calls it;
/// nothing is claimed of it.
#[verifier::external_body]
fn end_kind(t: pulldown_cmark::TagEnd) -> MdKind {
    match t {
        TE::Paragraph => MdKind::Paragraph, TE::Heading(l) => MdKind::Heading(l as u8),
        TE::BlockQuote => MdKind::BlockQuote, TE::CodeBlock => MdKind::CodeBlock,
        TE::HtmlBlock => MdKind::HtmlBlock, TE::List(o) => MdKind::List(o), TE::Item => MdKind::Item,
        TE::FootnoteDefinition => MdKind::FootnoteDefinition, TE::Table => MdKind::Table,
        TE::TableHead => MdKind::TableHead, TE::TableRow => MdKind::TableRow, TE::TableCell => MdKind::TableCell,
        TE::Emphasis => MdKind::Emphasis, TE::Strong => MdKind::Strong,
        TE::Strikethrough => MdKind::Strikethrough, TE::Link => MdKind::Link, TE::Image => MdKind::Image,
        TE::MetadataBlock(_) => MdKind::MetadataBlock,
    }
}

/// The texts that a `pulldown_cmark::Tag` holds, each turned into a
/// `String`: part of the conversion of the events in `parse_markdown`,
/// which alone calls it; nothing is claimed of it.
#[verifier::external_body]
fn tag_texts(t: pulldown_cmark::Tag) -> Vec<String> {
    match t {
        T::Heading { id, classes, .. } => id.into_iter().chain(classes).map(|s| s.to_string()).collect(),
        T::CodeBlock(K::Fenced(d)) | T::FootnoteDefinition(d) => vec![d.to_string()],
        T::Link { dest_url, title, .. } | T::Image { dest_url, title, .. } => vec![dest_url.to_string(), title.to_string()],
        T::Paragraph | T::BlockQuote | T::CodeBlock(K::Indented) | T::HtmlBlock | T::List(_) | T::Item => Vec::new(),
        T::Table(_) | T::TableHead | T::TableRow | T::TableCell | T::MetadataBlock(_) => Vec::new(),
        T::Emphasis | T::Strong | T::Strikethrough => Vec::new(),
    }
}

/// `pulldown_cmark::Parser::new_ext` with every option but smart
/// punctuation: the events of a markdown text. Claims that they are a
/// function of the text.
#[verifier::external_body]
fn parse_markdown(text: &str) -> (r: Vec<MdEvent>)
    ensures
        r@ == parsed_markdown(text@),
{
    pulldown_cmark::Parser::new_ext(text, markdown_options()).map(|e| match e {
        E::Start(t) => MdEvent::Start { kind: end_kind(t.to_end()), texts: tag_texts(t) },
        E::End(t) => MdEvent::End(end_kind(t)),
        E::Text(s) | E::Code(s) | E::Html(s) | E::InlineHtml(s) | E::FootnoteReference(s) => MdEvent::Text(s.to_string()),
        E::SoftBreak => MdEvent::SoftBreak,
        E::HardBreak => MdEvent::HardBreak,
        E::Rule => MdEvent::Rule,
        E::TaskListMarker(_) => MdEvent::TaskListMarker,
    }).collect()
}

/// `pulldown_cmark_to_cmark::cmark_resume`, then `State::finalize`: the
/// markdown text of `count` events of the text, from the event `from` on.
/// Claims that it is a function of the text and of the events chosen. The
/// renderer panics on an end of a link, of an image or of a heading whose
/// start it has not seen, which the `requires` leaves out.
#[verifier::external_body]
fn render_markdown(text: &str, from: usize, count: usize) -> (r: String)
    requires
        from + count <= parsed_markdown(text@).len(),
        renders(parsed_markdown(text@).subrange(from as int, from + count)),
    ensures
        r@ == rendered_markdown(text@, from as nat, count as nat),
{
    let events = pulldown_cmark::Parser::new_ext(text, markdown_options()).skip(from).take(count);
    let mut buf = String::new();
    if let Ok(state) = pulldown_cmark_to_cmark::cmark_resume(events, &mut buf, None) {
        let _ = state.finalize(&mut buf);
    }
    buf
}

/// The size of a text: its number of bytes.
pub open spec fn text_size(s: String) -> nat {
    byte_len(s@) as nat
}

/// The sizes of texts, added up.
pub open spec fn texts_size(s: Seq<String>) -> nat
    decreases s.len(),
{
    if s.len() == 0 {
        0
    } else {
        texts_size(s.drop_last()) + text_size(s.last())
    }
}

/// The size of the start of an element once rendered in markdown, by the
/// kind of the element and the texts the start holds.
pub open spec fn start_size(kind: MdKind, texts: Seq<String>) -> nat {
    let t = texts_size(texts);
    match kind {
        MdKind::Heading(level) => level as nat + 1 + t,
        MdKind::CodeBlock => if texts.len() == 0 { 2 } else { t + 3 },
        MdKind::FootnoteDefinition => t + 3,
        MdKind::Link | MdKind::Image => 4 + t,
        MdKind::Table => 4,
        MdKind::TableRow | MdKind::TableCell => 3,
        MdKind::Paragraph | MdKind::BlockQuote | MdKind::List(_) | MdKind::Item | MdKind::TableHead
        | MdKind::Emphasis | MdKind::Strong | MdKind::Strikethrough => 2,
        MdKind::HtmlBlock | MdKind::MetadataBlock => 0,
    }
}

/// The size of an event once rendered in markdown, as estimated.
pub open spec fn md_size(e: MdEvent) -> nat {
    match e {
        MdEvent::Text(t) => text_size(t),
        MdEvent::SoftBreak => 1,
        MdEvent::HardBreak => 2,
        MdEvent::Rule => 1,
        MdEvent::TaskListMarker => 3,
        MdEvent::Start { kind, texts } => start_size(kind, texts@),
        MdEvent::End(_) => 4,
    }
}

/// The size of an event, as a `usize`: `usize::MAX` when it is larger.
pub open spec fn event_size(e: MdEvent) -> nat {
    if md_size(e) <= usize::MAX { md_size(e) } else { usize::MAX as nat }
}

fn sat_add(a: usize, b: usize) -> (r: usize)
    ensures
        r == if a + b <= usize::MAX { a + b } else { usize::MAX as int },
{
    if a > usize::MAX - b {
        usize::MAX
    } else {
        a + b
    }
}

fn texts_len(s: &Vec<String>) -> (r: usize)
    ensures
        r == if texts_size(s@) <= usize::MAX { texts_size(s@) } else { usize::MAX as nat },
{
    let mut acc: usize = 0;
    for i in 0..s.len()
        invariant
            acc == if texts_size(s@.take(i as int)) <= usize::MAX { texts_size(s@.take(i as int)) } else { usize::MAX as nat },
    {
        assert(s@.take(i + 1).drop_last() =~= s@.take(i as int));
        acc = sat_add(acc, s[i].as_str().len());
    }
    assert(s@.take(s.len() as int) =~= s@);
    acc
}

fn start_len(kind: &MdKind, texts: &Vec<String>) -> (n: usize)
    ensures
        n == if start_size(*kind, texts@) <= usize::MAX { start_size(*kind, texts@) } else { usize::MAX as nat },
{
    let t = texts_len(texts);
    match kind {
        MdKind::Heading(level) => sat_add(*level as usize + 1, t),
        MdKind::CodeBlock => if texts.len() == 0 { 2 } else { sat_add(t, 3) },
        MdKind::FootnoteDefinition => sat_add(t, 3),
        MdKind::Link | MdKind::Image => sat_add(4, t),
        MdKind::Table => 4,
        MdKind::TableRow | MdKind::TableCell => 3,
        MdKind::Paragraph | MdKind::BlockQuote | MdKind::List(_) | MdKind::Item | MdKind::TableHead
        | MdKind::Emphasis | MdKind::Strong | MdKind::Strikethrough => 2,
        MdKind::HtmlBlock | MdKind::MetadataBlock => 0,
    }
}

/// The size of an event once rendered in markdown, as estimated.
pub fn md_event_size(event: &MdEvent) -> (n: usize)
    ensures
        n == event_size(*event),
{
    match event {
        MdEvent::Text(t) => t.as_str().len(),
        MdEvent::SoftBreak => 1,
        MdEvent::HardBreak => 2,
        MdEvent::Rule => 1,
        MdEvent::TaskListMarker => 3,
        MdEvent::Start { kind, texts } => start_len(kind, texts),
        MdEvent::End(_) => 4,
    }
}

/// The sizes of the events, added up.
pub open spec fn events_size(events: Seq<MdEvent>) -> nat
    decreases events.len(),
{
    if events.len() == 0 {
        0
    } else {
        events_size(events.drop_last()) + event_size(events.last())
    }
}

/// The size of a markdown text once rendered, as estimated from its events
/// (`usize::MAX` when it is larger).
pub fn estimated_markdown_size(text: &str) -> (n: usize)
    ensures
        n == if events_size(parsed_markdown(text@)) <= usize::MAX {
            events_size(parsed_markdown(text@))
        } else {
            usize::MAX as nat
        },
{
    let events = parse_markdown(text);
    let mut acc: usize = 0;
    for i in 0..events.len()
        invariant
            events@ == parsed_markdown(text@),
            acc == if events_size(events@.take(i as int)) <= usize::MAX {
                events_size(events@.take(i as int))
            } else {
                usize::MAX as nat
            },
    {
        assert(events@.take(i + 1).drop_last() =~= events@.take(i as int));
        acc = sat_add(acc, md_event_size(&events[i]));
    }
    assert(events@.take(events.len() as int) =~= events@);
    acc
}

/// Does the end of an element of this kind end a block of the message,
/// where it may be split?
pub open spec fn is_block_end(kind: MdKind) -> bool {
    match kind {
        MdKind::Paragraph | MdKind::BlockQuote | MdKind::CodeBlock | MdKind::HtmlBlock | MdKind::List(_)
        | MdKind::Table | MdKind::MetadataBlock => true,
        MdKind::Heading(_) | MdKind::Item | MdKind::FootnoteDefinition | MdKind::TableHead | MdKind::TableRow
        | MdKind::TableCell | MdKind::Emphasis | MdKind::Strong | MdKind::Strikethrough | MdKind::Link
        | MdKind::Image => false,
    }
}

/// Does the end of an element of this kind end a block of the message?
pub fn is_block_delimiter(t: &MdKind) -> (b: bool)
    ensures
        b == is_block_end(*t),
{
    match t {
        MdKind::Paragraph | MdKind::BlockQuote | MdKind::CodeBlock | MdKind::HtmlBlock | MdKind::List(_)
        | MdKind::Table | MdKind::MetadataBlock => true,
        MdKind::Heading(_) | MdKind::Item | MdKind::FootnoteDefinition | MdKind::TableHead | MdKind::TableRow
        | MdKind::TableCell | MdKind::Emphasis | MdKind::Strong | MdKind::Strikethrough | MdKind::Link
        | MdKind::Image => false,
    }
}

/// Is the kind that of a link, an image or a heading: an element whose end
/// the markdown renderer can only write after its start?
pub open spec fn is_held_kind(kind: MdKind) -> bool {
    kind is Link || kind is Image || kind is Heading
}

/// How an event changes the number of links, images and headings open.
pub open spec fn held_change(e: MdEvent) -> int {
    match e {
        MdEvent::Start { kind, .. } => if is_held_kind(kind) { 1 } else { 0 },
        MdEvent::End(k) => if is_held_kind(k) { -1 } else { 0 },
        _ => 0,
    }
}

/// Does a new piece start at an event of that size, after pieces of the
/// current size, `open` links, images and headings being open? Never
/// inside a link, an image or a heading; elsewhere, at the end of a block
/// once the piece passes half the maximum size, at the end of any element
/// once it passes two thirds, and anywhere else once it would pass the
/// maximum size.
pub open spec fn cut_before(current: nat, size: nat, e: MdEvent, max: nat, open: int) -> bool {
    open <= 0 && match e {
        MdEvent::End(k) => (is_block_end(k) && current + size > max / 2) || current + size > max * 2 / 3,
        _ => current + size > max,
    }
}

/// How the events are split in pieces: the pieces already closed, each as
/// its first event and its number of events; the first event of the
/// current piece, its size (up to `usize::MAX`) and its number of events;
/// the number of links,
/// images and headings open; and whether the last event came while one was
/// open.
pub open spec fn split_plan(events: Seq<MdEvent>, max: nat) -> (Seq<(nat, nat)>, nat, nat, nat, int, bool)
    decreases events.len(),
{
    if events.len() == 0 {
        (Seq::empty(), 0, 0, 0, 0, false)
    } else {
        let n = (events.len() - 1) as nat;
        let p = split_plan(events.drop_last(), max);
        let e = events.last();
        let s = event_size(e);
        let open = p.4 + held_change(e);
        if cut_before(p.2, s, e, max, p.4) {
            (if p.3 > 0 { p.0.push((p.1, p.3)) } else { p.0 }, n, s, 1, open, false)
        } else {
            (p.0, p.1, if p.2 + s <= usize::MAX { p.2 + s } else { usize::MAX as nat }, p.3 + 1, open, p.4 > 0)
        }
    }
}

/// The pieces of the events: those of the plan, and the last one.
pub open spec fn pieces_of(events: Seq<MdEvent>, max: nat) -> Seq<(nat, nat)> {
    let p = split_plan(events, max);
    if p.3 > 0 { p.0.push((p.1, p.3)) } else { p.0 }
}

/// Do the pieces follow one another, none empty, from the first event to
/// the event `end`?
pub open spec fn covers(pieces: Seq<(nat, nat)>, end: nat) -> bool
    decreases pieces.len(),
{
    if pieces.len() == 0 {
        end == 0
    } else {
        let last = pieces.last();
        &&& last.1 > 0
        &&& last.0 + last.1 == end
        &&& covers(pieces.drop_last(), last.0)
    }
}

/// The plan keeps every event, in order, and a piece is larger than the
/// maximum size only when it is made of a single event or when its last
/// event came inside a link, an image or a heading, where it is not cut.
pub proof fn lemma_split_plan(events: Seq<MdEvent>, max: nat)
    ensures
        split_plan(events, max).1 + split_plan(events, max).3 == events.len(),
        covers(split_plan(events, max).0, split_plan(events, max).1),
        split_plan(events, max).2 <= max || split_plan(events, max).3 == 1 || split_plan(events, max).5,
        split_plan(events, max).3 == 0 ==> events.len() == 0,
    decreases events.len(),
{
    if events.len() > 0 {
        lemma_split_plan(events.drop_last(), max);
        let p = split_plan(events.drop_last(), max);
        if p.3 > 0 {
            assert(p.0.push((p.1, p.3)).drop_last() =~= p.0);
        }
    }
}

/// The pieces of the events follow one another, none empty, and hold all
/// of them.
pub proof fn lemma_pieces_cover(events: Seq<MdEvent>, max: nat)
    ensures
        covers(pieces_of(events, max), events.len()),
{
    lemma_split_plan(events, max);
    let p = split_plan(events, max);
    if p.3 > 0 {
        assert(p.0.push((p.1, p.3)).drop_last() =~= p.0);
    }
}

proof fn lemma_covers_within(pieces: Seq<(nat, nat)>, end: nat, k: int)
    requires
        covers(pieces, end),
        0 <= k < pieces.len(),
    ensures
        pieces[k].0 + pieces[k].1 <= end,
    decreases pieces.len(),
{
    if k < pieces.len() - 1 {
        lemma_covers_within(pieces.drop_last(), pieces.last().0, k);
    }
}

/// The links and images open, and whether a heading is open, after the
/// events, all of them starting closed; none when an event ends a link,
/// an image or a heading that is not open, which the markdown renderer
/// cannot write.
pub open spec fn render_state(events: Seq<MdEvent>) -> Option<(nat, nat, bool)>
    decreases events.len(),
{
    if events.len() == 0 {
        Some((0, 0, false))
    } else {
        match render_state(events.drop_last()) {
            None => None,
            Some((l, i, h)) => match events.last() {
                MdEvent::Start { kind, .. } => match kind {
                    MdKind::Link => Some((l + 1, i, h)),
                    MdKind::Image => Some((l, i + 1, h)),
                    MdKind::Heading(_) => Some((l, i, true)),
                    _ => Some((l, i, h)),
                },
                MdEvent::End(k) => match k {
                    MdKind::Link => if l == 0 { None } else { Some(((l - 1) as nat, i, h)) },
                    MdKind::Image => if i == 0 { None } else { Some((l, (i - 1) as nat, h)) },
                    MdKind::Heading(_) => if !h { None } else { Some((l, i, false)) },
                    _ => Some((l, i, h)),
                },
                _ => Some((l, i, h)),
            },
        }
    }
}

/// Can the markdown renderer write the events: does each end of a link, of
/// an image or of a heading come after its start?
pub open spec fn renders(events: Seq<MdEvent>) -> bool {
    render_state(events) is Some
}

/// Can the markdown renderer write `n` of the events from the event `from`
/// on?
fn renders_slice(events: &Vec<MdEvent>, from: usize, n: usize) -> (b: bool)
    requires
        from + n <= events@.len(),
    ensures
        b == renders(events@.subrange(from as int, from + n)),
{
    let ghost all = events@.subrange(from as int, from + n);
    let len = events.len();
    let mut links: usize = 0;
    let mut images: usize = 0;
    let mut heading = false;
    let mut k: usize = 0;
    assert(all.take(0) =~= Seq::<MdEvent>::empty());
    while k < n
        invariant
            from + n <= events@.len(),
            len == events@.len(),
            all == events@.subrange(from as int, from + n),
            k <= n,
            render_state(all.take(k as int)) == Some((links as nat, images as nat, heading)),
            links <= k,
            images <= k,
        decreases n - k,
    {
        proof {
            assert(all.take(k + 1).drop_last() =~= all.take(k as int));
            assert(all.take(k + 1).last() == events@[from + k]);
        }
        assert(from + k < len);
        let idx = from + k;
        match &events[idx] {
            MdEvent::Start { kind, .. } => match kind {
                MdKind::Link => links = links + 1,
                MdKind::Image => images = images + 1,
                MdKind::Heading(_) => heading = true,
                _ => {},
            },
            MdEvent::End(kind) => match kind {
                MdKind::Link => {
                    if links == 0 {
                        proof { lemma_render_state_stays_none(all, k + 1); }
                        return false;
                    }
                    links = links - 1;
                },
                MdKind::Image => {
                    if images == 0 {
                        proof { lemma_render_state_stays_none(all, k + 1); }
                        return false;
                    }
                    images = images - 1;
                },
                MdKind::Heading(_) => {
                    if !heading {
                        proof { lemma_render_state_stays_none(all, k + 1); }
                        return false;
                    }
                    heading = false;
                },
                _ => {},
            },
            _ => {},
        }
        k = k + 1;
    }
    assert(all.take(n as int) =~= all);
    true
}

proof fn lemma_render_state_stays_none(events: Seq<MdEvent>, k: int)
    requires
        0 <= k <= events.len(),
        render_state(events.take(k)) is None,
    ensures
        render_state(events) is None,
    decreases events.len() - k,
{
    if k < events.len() {
        assert(events.take(k + 1).drop_last() =~= events.take(k));
        lemma_render_state_stays_none(events, k + 1);
    } else {
        assert(events.take(k) =~= events);
    }
}

/// The texts of the pieces of a message that the markdown renderer can
/// write, leaving out those that are only white space.
pub open spec fn piece_texts(msg: Seq<char>, pieces: Seq<(nat, nat)>) -> Seq<Seq<char>>
    decreases pieces.len(),
{
    if pieces.len() == 0 {
        Seq::empty()
    } else {
        let p = pieces.last();
        let t = rendered_markdown(msg, p.0, p.1);
        piece_texts(msg, pieces.drop_last()) + if renders(parsed_markdown(msg).subrange(p.0 as int, (p.0 + p.1) as int))
            && trim(t).len() > 0 {
            seq![t]
        } else {
            Seq::empty()
        }
    }
}

/// The messages a long markdown message is split into: the text of each
/// piece of its events, leaving out those that are only white space (and
/// any that the renderer could not write); a message that is not longer
/// than the maximum size is kept whole.
pub open spec fn split_texts(msg: Seq<char>, max: nat) -> Seq<Seq<char>> {
    if byte_len(msg) <= max {
        seq![msg]
    } else {
        piece_texts(msg, pieces_of(parsed_markdown(msg), max))
    }
}

/// Split a message into several ones when it is too long: in markdown, on
/// the ends of blocks if possible, else on the ends of elements, else
/// anywhere between two events, but never inside a link, an image or a
/// heading.
pub fn split_msgs(msg: String, max_size: usize) -> (r: Vec<String>)
    requires
        max_size <= usize::MAX / 2,
    ensures
        crate::text::strings_view(r@) == split_texts(msg@, max_size as nat),
{
    if msg.as_str().len() <= max_size {
        let mut r: Vec<String> = Vec::new();
        r.push(msg);
        assert(crate::text::strings_view(r@) =~= split_texts(msg@, max_size as nat));
        return r;
    }
    let events = parse_markdown(msg.as_str());
    let ghost evs = events@;
    let ghost max = max_size as nat;
    let mut pieces: Vec<(usize, usize)> = Vec::new();
    let mut start: usize = 0;
    let mut current: usize = 0;
    let mut count: usize = 0;
    let mut open: i128 = 0;
    for i in 0..events.len()
        invariant
            evs == events@,
            max == max_size as nat,
            max_size <= usize::MAX / 2,
            -(i as int) <= open <= i,
            ({
                let p = split_plan(evs.take(i as int), max);
                &&& pieces@.map_values(|q: (usize, usize)| (q.0 as nat, q.1 as nat)) == p.0
                &&& start == p.1
                &&& current == p.2
                &&& count == p.3
                &&& open == p.4
                &&& start + count == i
            }),
    {
        proof {
            lemma_split_plan(evs.take(i as int), max);
            assert(evs.take(i + 1).drop_last() =~= evs.take(i as int));
            assert(evs.take(i + 1).last() == evs[i as int]);
        }
        let s = md_event_size(&events[i]);
        let total = (current as u128) + (s as u128);
        let change: i128 = match &events[i] {
            MdEvent::Start { kind, .. } => if held_kind(kind) { 1 } else { 0 },
            MdEvent::End(k) => if held_kind(k) { -1 } else { 0 },
            _ => 0,
        };
        let cut = open <= 0 && match &events[i] {
            MdEvent::End(k) => (is_block_delimiter(k) && total > (max_size as u128) / 2) || total > (
            max_size as u128) * 2 / 3,
            _ => total > max_size as u128,
        };
        let ghost before = pieces@;
        if cut {
            if count > 0 {
                pieces.push((start, count));
                assert(pieces@.map_values(|q: (usize, usize)| (q.0 as nat, q.1 as nat)) =~= before.map_values(
                    |q: (usize, usize)| (q.0 as nat, q.1 as nat),
                ).push((start as nat, count as nat)));
            }
            start = i;
            current = s;
            count = 1;
        } else {
            current = sat_add(current, s);
            count = count + 1;
        }
        open = open + change;
    }
    assert(evs.take(events.len() as int) =~= evs);
    if count > 0 {
        let ghost before = pieces@;
        pieces.push((start, count));
        assert(pieces@.map_values(|q: (usize, usize)| (q.0 as nat, q.1 as nat)) =~= before.map_values(
            |q: (usize, usize)| (q.0 as nat, q.1 as nat),
        ).push((start as nat, count as nat)));
    }
    let ghost all = pieces_of(evs, max);
    proof {
        lemma_pieces_cover(evs, max);
    }
    let mut r: Vec<String> = Vec::new();
    assert(all.take(0) =~= Seq::<(nat, nat)>::empty());
    for k in 0..pieces.len()
        invariant
            evs == events@,
            evs == parsed_markdown(msg@),
            all == pieces@.map_values(|q: (usize, usize)| (q.0 as nat, q.1 as nat)),
            covers(all, evs.len()),
            crate::text::strings_view(r@) == piece_texts(msg@, all.take(k as int)),
    {
        let (from, n) = pieces[k];
        proof {
            lemma_covers_within(all, evs.len(), k as int);
            assert(all[k as int] == (from as nat, n as nat));
            assert(all.take(k + 1).drop_last() =~= all.take(k as int));
            assert(all.take(k + 1).last() == all[k as int]);
        }
        if renders_slice(&events, from, n) {
            let text = render_markdown(msg.as_str(), from, n);
            let t = trimmed(text.as_str());
            if !t.as_str().is_empty() {
                let ghost before = r@;
                r.push(text);
                assert(crate::text::strings_view(r@) =~= crate::text::strings_view(before).push(text@));
            } else {
                assert(crate::text::strings_view(r@) =~= crate::text::strings_view(r@) + Seq::<Seq<char>>::empty());
            }
        } else {
            assert(crate::text::strings_view(r@) =~= crate::text::strings_view(r@) + Seq::<Seq<char>>::empty());
        }
    }
    assert(all.take(pieces.len() as int) =~= all);
    r
}

/// Is the kind that of a link, an image or a heading?
fn held_kind(kind: &MdKind) -> (b: bool)
    ensures
        b == is_held_kind(*kind),
{
    match kind {
        MdKind::Link | MdKind::Image | MdKind::Heading(_) => true,
        _ => false,
    }
}

} // verus!

verus! {

/// The largest message size the bot sends to Discord.
pub const DISCORD_MAX_SIZE: usize = 1800;

/// A piece of message as it is sent to Discord: when it is longer than
/// three bytes less than the maximum size, it is cut to the maximum size -
/// on the last character that fits - and `...` is added.
pub open spec fn discord_text(x: Seq<char>) -> Seq<char> {
    if byte_len(x) > DISCORD_MAX_SIZE - 3 {
        utf8_prefix(x, DISCORD_MAX_SIZE as nat) + "..."@
    } else {
        x
    }
}

/// The messages sent to Discord for the given ones: each is split into
/// pieces, and each piece is cut if it is still too long.
pub open spec fn sanitized(msgs: Seq<Seq<char>>) -> Seq<Seq<char>>
    decreases msgs.len(),
{
    if msgs.len() == 0 {
        Seq::empty()
    } else {
        sanitized(msgs.drop_last()) + split_texts(msgs.last(), DISCORD_MAX_SIZE as nat).map_values(
            |t: Seq<char>| discord_text(t),
        )
    }
}

/// Sanitize messages for Discord: split the markdown messages that are too
/// long into several ones, and cut the pieces that are still too long.
pub fn sanitize_msgs_for_discord(msgs: Vec<String>) -> (r: Vec<String>)
    ensures
        crate::text::strings_view(r@) == sanitized(crate::text::strings_view(msgs@)),
{
    let ghost all = crate::text::strings_view(msgs@);
    let mut r: Vec<String> = Vec::new();
    let mut msgs = msgs;
    let ghost mut i: int = 0;
    assert(all.take(0) =~= Seq::<Seq<char>>::empty());
    while msgs.len() > 0
        invariant
            0 <= i <= all.len(),
            i + msgs@.len() == all.len(),
            crate::text::strings_view(msgs@) == all.skip(i),
            crate::text::strings_view(r@) == sanitized(all.take(i)),
        decreases msgs.len(),
    {
        let ghost old_msgs = msgs@;
        let m = msgs.remove(0);
        proof {
            assert(all.skip(i)[0] == m@);
            assert(msgs@ =~= old_msgs.subrange(1, old_msgs.len() as int));
            assert(crate::text::strings_view(msgs@) =~= all.skip(i).skip(1));
            assert(all.skip(i).skip(1) =~= all.skip(i + 1));
            assert(all.take(i + 1).drop_last() =~= all.take(i));
            assert(all.take(i + 1).last() == m@);
        }
        let ghost m_view = m@;
        let pieces = split_msgs(m, DISCORD_MAX_SIZE);
        let ghost done = crate::text::strings_view(r@);
        let ghost texts = split_texts(m_view, DISCORD_MAX_SIZE as nat);
        for k in 0..pieces.len()
            invariant
                crate::text::strings_view(pieces@) == texts,
                crate::text::strings_view(r@) == done + texts.take(k as int).map_values(|t: Seq<char>| discord_text(t)),
        {
            let x = &pieces[k];
            let y = if x.as_str().len() > DISCORD_MAX_SIZE - 3 {
                let mut y = truncate_bytes(x.as_str(), DISCORD_MAX_SIZE);
                push_str(&mut y, "...");
                y
            } else {
                x.clone()
            };
            let ghost before = r@;
            r.push(y);
            proof {
                assert(texts[k as int] == x@);
                assert(crate::text::strings_view(r@) =~= crate::text::strings_view(before).push(discord_text(x@)));
                assert(texts.take(k + 1).map_values(|t: Seq<char>| discord_text(t)) =~= texts.take(k as int).map_values(
                    |t: Seq<char>| discord_text(t),
                ).push(discord_text(x@)));
            }
        }
        proof {
            assert(texts.take(pieces.len() as int) =~= texts);
            i = i + 1;
        }
    }
    assert(all.skip(i) =~= Seq::<Seq<char>>::empty()) by {
        assert(all.skip(i).len() == 0);
    }
    assert(all.take(i) =~= all);
    r
}

} // verus!
