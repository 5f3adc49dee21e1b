use vstd::prelude::*;

use pulldown_cmark::{Event, Tag};

verus! {

/// One structural event of the rich-markup source.  The converter folds a
/// sequence of these into the protocol's line dialect.
#[derive(Debug)]
pub enum MarkupEvent {
    /// A heading opens; the level gives the number of `#` marks emitted.
    HeadingStart { level: usize },
    /// A heading closes.
    HeadingEnd,
    /// A paragraph opens.
    ParagraphStart,
    /// A paragraph closes.
    ParagraphEnd,
    /// A link opens; text up to the matching `LinkEnd` accumulates as the
    /// link's visible text.
    LinkStart { url: String },
    /// A link closes: a `=>` line is emitted.
    LinkEnd,
    /// An image reference with its target and title.
    Image { url: String, title: String },
    /// An inline code span.
    Code { text: String },
    /// Literal text.
    Text { text: String },
    /// A soft or hard line break.
    LineBreak,
    /// Any other structural event: ignored by design.
    Other,
}

/// Whether a character counts as whitespace for `str::trim`.
pub uninterp spec fn is_unicode_whitespace(c: char) -> bool;

/// Relies on `char::is_whitespace` of std: whether the character has the
/// Unicode whitespace property.
#[verifier::external_body]
pub(crate) fn char_is_whitespace(c: char) -> (r: bool)
    ensures
        r == is_unicode_whitespace(c),
{
    c.is_whitespace()
}

/// True when the text holds nothing but whitespace — when trimming it
/// would leave it empty.
pub open spec fn is_blank(s: Seq<char>) -> bool {
    forall|i: int| 0 <= i < s.len() ==> is_unicode_whitespace(s[i])
}

/// Decides `is_blank` for a text.
fn str_is_blank(s: &str) -> (r: bool)
    ensures
        r == is_blank(s@),
{
    let n = s.unicode_len();
    let mut i: usize = 0;
    while i < n
        invariant
            i <= n,
            n == s@.len(),
            forall|j: int| 0 <= j < i ==> is_unicode_whitespace(s@[j]),
        decreases n - i,
    {
        if !char_is_whitespace(s.get_char(i)) {
            return false;
        }
        i = i + 1;
    }
    true
}

/// The converter's running state: the output so far, whether a link's
/// text span is open, and the link's accumulated target and text.
pub ghost struct ConvState {
    pub out: Seq<char>,
    pub in_link: bool,
    pub link_url: Seq<char>,
    pub link_text: Seq<char>,
}

/// The state before any event: empty output, no open link.
pub open spec fn init_state() -> ConvState {
    ConvState { out: Seq::empty(), in_link: false, link_url: Seq::empty(), link_text: Seq::empty() }
}

/// As many `#` marks as the heading level asks for.
pub open spec fn hash_marks(level: nat) -> Seq<char> {
    Seq::new(level, |i: int| '#')
}

/// How one event advances the converter: the rules of the line dialect,
/// applied in event order.
pub open spec fn step(st: ConvState, ev: MarkupEvent) -> ConvState {
    match ev {
        MarkupEvent::HeadingStart { level } => ConvState {
            out: st.out + "\n"@ + hash_marks(level as nat) + " "@,
            ..st
        },
        MarkupEvent::HeadingEnd => ConvState { out: st.out + "\n"@, ..st },
        MarkupEvent::ParagraphStart => ConvState { out: st.out + "\n"@, ..st },
        MarkupEvent::ParagraphEnd => ConvState { out: st.out + "\n"@, ..st },
        MarkupEvent::LinkStart { url } => ConvState {
            in_link: true,
            link_url: url@,
            link_text: Seq::empty(),
            ..st
        },
        MarkupEvent::LinkEnd => ConvState {
            out: st.out + "\n=> "@ + st.link_url + " "@ + (if is_blank(st.link_text) {
                st.link_url
            } else {
                st.link_text
            }) + "\n"@,
            in_link: false,
            ..st
        },
        MarkupEvent::Image { url, title } => ConvState {
            out: st.out + "\n=> "@ + url@ + " "@ + title@ + "\n"@,
            ..st
        },
        MarkupEvent::Code { text } => ConvState { out: st.out + "`"@ + text@ + "`"@, ..st },
        MarkupEvent::Text { text } => if st.in_link {
            ConvState { link_text: st.link_text + text@, ..st }
        } else {
            ConvState { out: st.out + text@, ..st }
        },
        MarkupEvent::LineBreak => ConvState { out: st.out + "\n"@, ..st },
        MarkupEvent::Other => st,
    }
}

/// The converter's state after the first `i` events.
pub open spec fn conv_prefix(events: Seq<MarkupEvent>, i: int) -> ConvState
    decreases i,
{
    if i <= 0 {
        init_state()
    } else {
        step(conv_prefix(events, i - 1), events[i - 1])
    }
}

/// The converted line-protocol text for a sequence of markup events.
pub open spec fn convert_spec(events: Seq<MarkupEvent>) -> Seq<char> {
    conv_prefix(events, events.len() as int).out
}

/// Folds a sequence of markup events into line-protocol text, following
/// the dialect's rules event by event.
pub fn convert_events(events: &Vec<MarkupEvent>) -> (r: String)
    ensures
        r@ == convert_spec(events@),
{
    let mut out = String::new();
    let mut in_link = false;
    let mut link_url = String::new();
    let mut link_text = String::new();
    let mut i: usize = 0;
    while i < events.len()
        invariant
            i <= events.len(),
            conv_prefix(events@, i as int).out == out@,
            conv_prefix(events@, i as int).in_link == in_link,
            conv_prefix(events@, i as int).link_url == link_url@,
            conv_prefix(events@, i as int).link_text == link_text@,
        decreases events.len() - i,
    {
        let ghost st = conv_prefix(events@, i as int);
        match &events[i] {
            MarkupEvent::HeadingStart { level } => {
                let lvl: usize = *level;
                out.append("\n");
                let ghost base = out@;
                proof {
                    assert(base + hash_marks(0nat) =~= base);
                }
                let mut k: usize = 0;
                while k < lvl
                    invariant
                        k <= lvl,
                        out@ == base + hash_marks(k as nat),
                    decreases lvl - k,
                {
                    out.append("#");
                    proof {
                        reveal_strlit("#");
                        assert(base + hash_marks((k + 1) as nat) =~= (base + hash_marks(
                            k as nat,
                        )) + "#"@);
                    }
                    k = k + 1;
                }
                out.append(" ");
                proof {
                    assert(out@ =~= st.out + "\n"@ + hash_marks(lvl as nat) + " "@);
                }
            },
            MarkupEvent::HeadingEnd => {
                out.append("\n");
            },
            MarkupEvent::ParagraphStart => {
                out.append("\n");
            },
            MarkupEvent::ParagraphEnd => {
                out.append("\n");
            },
            MarkupEvent::LinkStart { url } => {
                in_link = true;
                link_url = url.clone();
                link_text = String::new();
            },
            MarkupEvent::LinkEnd => {
                let text_is_blank = str_is_blank(link_text.as_str());
                out.append("\n=> ");
                out.append(link_url.as_str());
                out.append(" ");
                if text_is_blank {
                    out.append(link_url.as_str());
                } else {
                    out.append(link_text.as_str());
                }
                out.append("\n");
                in_link = false;
            },
            MarkupEvent::Image { url, title } => {
                out.append("\n=> ");
                out.append(url.as_str());
                out.append(" ");
                out.append(title.as_str());
                out.append("\n");
            },
            MarkupEvent::Code { text } => {
                out.append("`");
                out.append(text.as_str());
                out.append("`");
            },
            MarkupEvent::Text { text } => {
                if in_link {
                    link_text.append(text.as_str());
                } else {
                    out.append(text.as_str());
                }
            },
            MarkupEvent::LineBreak => {
                out.append("\n");
            },
            MarkupEvent::Other => {},
        }
        proof {
            assert(conv_prefix(events@, i as int + 1) == step(st, events@[i as int]));
        }
        i = i + 1;
    }
    out
}

#[verifier::external_type_specification]
#[verifier::external_body]
pub struct ExEvent<'a>(Event<'a>);

#[verifier::external_type_specification]
#[verifier::external_body]
pub struct ExTag<'a>(Tag<'a>);

/// Relies on the shape of `pulldown_cmark::Tag`: an opening tag the
/// converter reacts to is carried over with its plain fields; everything
/// else becomes `Other`.
#[verifier::external_body]
fn start_event_of(tag: Tag<'_>) -> MarkupEvent {
    match tag {
        Tag::Heading(level, _, _) => MarkupEvent::HeadingStart { level: level as usize },
        Tag::Paragraph => MarkupEvent::ParagraphStart,
        Tag::Link(_, url, _) => MarkupEvent::LinkStart { url: url.to_string() },
        Tag::Image(_, url, title) => MarkupEvent::Image {
            url: url.to_string(),
            title: title.to_string(),
        },
        _ => MarkupEvent::Other,
    }
}

/// Relies on the shape of `pulldown_cmark::Tag`: a closing tag the
/// converter reacts to is carried over; everything else becomes `Other`.
#[verifier::external_body]
fn end_event_of(tag: Tag<'_>) -> MarkupEvent {
    match tag {
        Tag::Heading(..) => MarkupEvent::HeadingEnd,
        Tag::Paragraph => MarkupEvent::ParagraphEnd,
        Tag::Link(..) => MarkupEvent::LinkEnd,
        _ => MarkupEvent::Other,
    }
}

/// Relies on the shape of `pulldown_cmark::Event`: each variant the
/// converter reacts to is carried over with its plain fields; everything
/// else becomes `Other`.
#[verifier::external_body]
fn event_of(ev: Event<'_>) -> MarkupEvent {
    match ev {
        Event::Start(tag) => start_event_of(tag),
        Event::End(tag) => end_event_of(tag),
        Event::Code(text) => MarkupEvent::Code { text: text.to_string() },
        Event::Text(text) => MarkupEvent::Text { text: text.to_string() },
        Event::SoftBreak | Event::HardBreak => MarkupEvent::LineBreak,
        _ => MarkupEvent::Other,
    }
}

/// The structural events that the rich-markup parser yields for a source
/// text, in order.
pub uninterp spec fn markup_events_of(source: Seq<char>) -> Seq<MarkupEvent>;

/// Relies on `pulldown_cmark::Parser::new_ext` with all extensions
/// enabled: the event stream depends on the source text alone.
#[verifier::external_body]
fn parse_markup(source: &str) -> (r: Vec<MarkupEvent>)
    ensures
        r@ == markup_events_of(source@),
{
    pulldown_cmark::Parser::new_ext(source, pulldown_cmark::Options::all()).map(event_of).collect()
}

/// Converts rich-markup source text to the protocol's line dialect: the
/// rich-markup parser (an external collaborator) yields the event
/// sequence, which is folded by the dialect's rules.
pub fn convert(source: &str) -> (r: String)
    ensures
        r@ == convert_spec(markup_events_of(source@)),
{
    let events = parse_markup(source);
    convert_events(&events)
}

} // verus!
