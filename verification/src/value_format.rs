//! Format detection, pretty-printing, and validation for single cell values.
//!
//! The value panel shows one cell at a time and lets the user read it as JSON,
//! XML, or plain text. Only the text transformations live here.
//!
//! JSON goes through `serde_json`; XML goes through `quick-xml`, which
//! re-emits the parsed event stream with indentation rather than reformatting
//! the text by hand — comments, CDATA, and attribute values containing `>`
//! survive the round trip.

use vstd::prelude::*;
use vstd::string::*;

use crate::text::{
    chars_of, has_char, is_blank, lemma_trim_space_empty, replace_char, replace_char_with, trim_space,
    trim_str,
};

verus! {

/// How the value panel interprets and formats a cell's text.
#[derive(Debug, Clone, Copy, PartialEq, Eq, Structural)]
pub enum ValueFormat {
    Json,
    Xml,
    Text,
}

impl ValueFormat {
    /// Every format, in the order the panel's selector shows them.
    pub const ALL: [ValueFormat; 3] = [ValueFormat::Json, ValueFormat::Xml, ValueFormat::Text];

    /// Language id for the code editor, which drives syntax highlighting.
    pub fn editor_language(self) -> (r: &'static str)
        ensures
            r@ == (match self {
                ValueFormat::Json => "json"@,
                ValueFormat::Xml => "xml"@,
                ValueFormat::Text => "text"@,
            }),
    {
        match self {
            ValueFormat::Json => "json",
            ValueFormat::Xml => "xml",
            ValueFormat::Text => "text",
        }
    }

    /// Short label for the format selector. Not translated: these are format
    /// names, identical in every locale.
    pub fn label(self) -> (r: &'static str)
        ensures
            r@ == (match self {
                ValueFormat::Json => "JSON"@,
                ValueFormat::Xml => "XML"@,
                ValueFormat::Text => "Text"@,
            }),
    {
        match self {
            ValueFormat::Json => "JSON",
            ValueFormat::Xml => "XML",
            ValueFormat::Text => "Text",
        }
    }

    /// Whether this format can pretty-print and compact.
    pub fn is_structured(self) -> (r: bool)
        ensures
            r == (self != ValueFormat::Text),
    {
        !matches!(self, ValueFormat::Text)
    }
}

// ---------------------------------------------------------------------------
// serde_json

#[verifier::external_type_specification]
#[verifier::external_body]
pub struct ExJsonValue(serde_json::Value);

/// `serde_json::from_str::<Value>`: `None` when it accepts `text`, otherwise
/// the `Display` of the error it reports.
pub uninterp spec fn serde_json_parse_error(text: Seq<char>) -> Option<Seq<char>>;

/// What `serde_json::to_string_pretty` writes for the value parsed from `text`.
pub uninterp spec fn serde_json_pretty(text: Seq<char>) -> Seq<char>;

/// What `serde_json::to_string` writes for the value parsed from `text`.
pub uninterp spec fn serde_json_compact(text: Seq<char>) -> Seq<char>;

/// A JSON value together with the text it was parsed from.
///
/// Only `parse_json` builds one, so `value` is always the parse of `source`.
pub struct JsonDocument {
    source: String,
    value: serde_json::Value,
}

impl View for JsonDocument {
    type V = Seq<char>;

    closed spec fn view(&self) -> Seq<char> {
        self.source@
    }
}

/// `serde_json::from_str::<serde_json::Value>`, with the error rendered by its
/// `Display`.
#[verifier::external_body]
fn parse_json(text: &str) -> (r: Result<JsonDocument, String>)
    ensures
        match r {
            Ok(doc) => serde_json_parse_error(text@) is None && doc@ == text@,
            Err(message) => serde_json_parse_error(text@) == Some(message@),
        },
{
    match serde_json::from_str::<serde_json::Value>(text) {
        Ok(value) => Ok(JsonDocument { source: text.to_string(), value }),
        Err(error) => Err(error.to_string()),
    }
}

/// `serde_json::to_string_pretty`. Serialising a `Value` into a `Vec` never
/// fails: its maps have string keys and its `Serialize` reports no error.
#[verifier::external_body]
fn json_to_string_pretty(doc: &JsonDocument) -> (r: Option<String>)
    ensures
        match r {
            Some(s) => s@ == serde_json_pretty(doc@),
            None => false,
        },
{
    serde_json::to_string_pretty(&doc.value).ok()
}

/// `serde_json::to_string`. Serialising a `Value` into a `Vec` never fails:
/// its maps have string keys and its `Serialize` reports no error.
#[verifier::external_body]
fn json_to_string(doc: &JsonDocument) -> (r: Option<String>)
    ensures
        match r {
            Some(s) => s@ == serde_json_compact(doc@),
            None => false,
        },
{
    serde_json::to_string(&doc.value).ok()
}

/// A message shown on one line: newlines become spaces.
pub open spec fn one_line(message: Seq<char>) -> Seq<char> {
    replace_char(message, '\n', " "@)
}

/// What formatting JSON text yields: the re-serialised value, or the parser's
/// message on one line.
pub open spec fn json_rendering(text: Seq<char>, pretty: bool) -> Result<Seq<char>, Seq<char>> {
    match serde_json_parse_error(text) {
        Some(message) => Err(one_line(message)),
        None => Ok(if pretty { serde_json_pretty(text) } else { serde_json_compact(text) }),
    }
}

pub open spec fn result_view(r: Result<String, String>) -> Result<Seq<char>, Seq<char>> {
    match r {
        Ok(s) => Ok(s@),
        Err(e) => Err(e@),
    }
}

fn render_json(value: &str, pretty: bool) -> (r: Result<String, String>)
    ensures
        result_view(r) == json_rendering(value@, pretty),
{
    match parse_json(value) {
        Ok(doc) => {
            let rendered = if pretty {
                json_to_string_pretty(&doc)
            } else {
                json_to_string(&doc)
            };
            match rendered {
                Some(s) => Ok(s),
                None => Err(String::new()),
            }
        },
        Err(message) => Err(replace_char_with(message.as_str(), '\n', " ")),
    }
}

// ---------------------------------------------------------------------------
// quick-xml

#[verifier::external_type_specification]
#[verifier::external_body]
#[verifier::reject_recursive_types(R)]
pub struct ExXmlReader<R>(quick_xml::Reader<R>);

#[verifier::external_type_specification]
#[verifier::external_body]
#[verifier::reject_recursive_types(W)]
pub struct ExXmlWriter<W>(quick_xml::Writer<W>);

#[verifier::external_type_specification]
#[verifier::external_body]
pub struct ExXmlEvent<'a>(quick_xml::events::Event<'a>);

/// Which variant of `quick_xml::events::Event` an event is.
#[derive(Debug, Clone, Copy, PartialEq, Eq, Structural)]
pub enum XmlEventKind {
    Start,
    End,
    Empty,
    Text,
    CData,
    Comment,
    Decl,
    PI,
    DocType,
    Eof,
}

/// Names an event by where it came from: the text the reader was built from,
/// whether the reader trims text, and how many events it had handed out before.
pub type XmlEventId = (Seq<char>, bool, nat);

/// What the call of `Reader::read_event` numbered `k` (from 0) returns on a
/// reader built by `Reader::from_str(text)` whose `trim_text` setting is
/// `trims`: the kind of event it hands out, or the `Display` of its error.
pub uninterp spec fn quick_xml_read(text: Seq<char>, trims: bool, k: nat) -> Result<XmlEventKind, Seq<char>>;

/// The `Display` of the error `Writer::write_event` reports when writing the
/// event `event` into a writer that has already written the events `done`
/// (indenting by two spaces when `indented`), or `None` when it succeeds.
pub uninterp spec fn quick_xml_write(indented: bool, done: Seq<XmlEventId>, event: XmlEventId) -> Option<Seq<char>>;

/// What `Writer::into_inner` hands back from a `Vec<u8>` writer that has
/// written the events `done` (indenting by two spaces when `indented`).
pub uninterp spec fn quick_xml_output(indented: bool, done: Seq<XmlEventId>) -> Seq<u8>;

/// The `Display` of the error `String::from_utf8` reports for `bytes`.
pub uninterp spec fn utf8_error_text(bytes: Seq<u8>) -> Seq<char>;

/// A read that handed out an event of kind `kind`.
pub open spec fn read_yields(kind: XmlEventKind) -> Result<XmlEventKind, Seq<char>> {
    Ok(kind)
}

/// A read that failed with `message`.
pub open spec fn read_fails(message: Seq<char>) -> Result<XmlEventKind, Seq<char>> {
    Err(message)
}

/// A `quick-xml` reader over a string, with the text it reads, its trimming
/// setting, the number of events it has handed out and its byte position in
/// the text.
pub struct XmlSource<'a> {
    reader: quick_xml::Reader<&'a [u8]>,
    text: Ghost<Seq<char>>,
    trims: Ghost<bool>,
    reads: Ghost<nat>,
    position: Ghost<nat>,
}

impl<'a> View for XmlSource<'a> {
    type V = XmlEventId;

    closed spec fn view(&self) -> XmlEventId {
        (self.text@, self.trims@, self.reads@)
    }
}

impl<'a> XmlSource<'a> {
    /// What `Reader::buffer_position` reports: how far into the text, in
    /// bytes, the reader has read.
    pub closed spec fn position(&self) -> nat {
        self.position@
    }
}

/// An event handed out by an [`XmlSource`], with where it came from.
pub struct XmlEvent<'a> {
    event: quick_xml::events::Event<'a>,
    id: Ghost<XmlEventId>,
}

impl<'a> View for XmlEvent<'a> {
    type V = XmlEventId;

    closed spec fn view(&self) -> XmlEventId {
        self.id@
    }
}

/// A `quick-xml` writer into a `Vec<u8>`, with its layout and the events it
/// has written.
pub struct XmlSink {
    writer: quick_xml::Writer<Vec<u8>>,
    indented: Ghost<bool>,
    done: Ghost<Seq<XmlEventId>>,
}

impl View for XmlSink {
    type V = (bool, Seq<XmlEventId>);

    closed spec fn view(&self) -> (bool, Seq<XmlEventId>) {
        (self.indented@, self.done@)
    }
}

/// `quick_xml::Reader::from_str`: a reader at the start of `text`, not trimming.
#[verifier::external_body]
fn xml_reader<'a>(text: &'a str) -> (r: XmlSource<'a>)
    ensures
        r@ == (text@, false, 0nat),
        r.position() == 0,
{
    let reader = quick_xml::Reader::from_str(text);
    XmlSource { reader, text: Ghost(text@), trims: Ghost(false), reads: Ghost(0), position: Ghost(0) }
}

/// `Config::trim_text(true)` on the reader's configuration, before any read.
#[verifier::external_body]
fn xml_trim_text<'a>(source: &mut XmlSource<'a>)
    requires
        old(source)@.2 == 0,
    ensures
        final(source)@ == (old(source)@.0, true, 0nat),
        final(source).position() == old(source).position(),
{
    source.reader.config_mut().trim_text(true);
    source.trims = Ghost(true);
}

/// `Reader::read_event`, with the error rendered by its `Display`.
///
/// Its position never passes the end of the text. On a trimming reader (with
/// `expand_empty_elements` left off, as `from_str` sets it) every event but
/// `Eof` moves the position forward: a text event holds at least one
/// non-space byte, and markup at least its `<` and `>`.
#[verifier::external_body]
fn xml_read_event<'a>(source: &mut XmlSource<'a>) -> (r: Result<XmlEvent<'a>, String>)
    ensures
        final(source)@ == (old(source)@.0, old(source)@.1, old(source)@.2 + 1),
        final(source).position() <= byte_len(old(source)@.0),
        (r is Ok && old(source)@.1 && quick_xml_read(old(source)@.0, old(source)@.1, old(source)@.2)
            != read_yields(XmlEventKind::Eof)) ==> final(source).position() > old(source).position(),
        match r {
            Ok(event) => quick_xml_read(old(source)@.0, old(source)@.1, old(source)@.2) is Ok
                && event@ == old(source)@,
            Err(message) => quick_xml_read(old(source)@.0, old(source)@.1, old(source)@.2) == read_fails(message@),
        },
{
    let id = Ghost(source@);
    source.reads = Ghost(source.reads@ + 1);
    let r = match source.reader.read_event() {
        Ok(event) => Ok(XmlEvent { event, id }),
        Err(error) => Err(error.to_string()),
    };
    source.position = Ghost(source.reader.buffer_position() as nat);
    r
}

/// The variant of an event.
#[verifier::external_body]
fn xml_event_kind(event: &XmlEvent) -> (r: XmlEventKind)
    ensures
        quick_xml_read(event@.0, event@.1, event@.2) == read_yields(r),
{
    match &event.event {
        quick_xml::events::Event::Start(_) => XmlEventKind::Start,
        quick_xml::events::Event::End(_) => XmlEventKind::End,
        quick_xml::events::Event::Empty(_) => XmlEventKind::Empty,
        quick_xml::events::Event::Text(_) => XmlEventKind::Text,
        quick_xml::events::Event::CData(_) => XmlEventKind::CData,
        quick_xml::events::Event::Comment(_) => XmlEventKind::Comment,
        quick_xml::events::Event::Decl(_) => XmlEventKind::Decl,
        quick_xml::events::Event::PI(_) => XmlEventKind::PI,
        quick_xml::events::Event::DocType(_) => XmlEventKind::DocType,
        quick_xml::events::Event::Eof => XmlEventKind::Eof,
    }
}

/// `Writer::new_with_indent(Vec::new(), b' ', 2)`.
#[verifier::external_body]
fn xml_indenting_writer() -> (r: XmlSink)
    ensures
        r@ == (true, Seq::<XmlEventId>::empty()),
{
    XmlSink { writer: quick_xml::Writer::new_with_indent(Vec::new(), b' ', 2), indented: Ghost(true), done: Ghost(Seq::empty()) }
}

/// `Writer::new(Vec::new())`.
#[verifier::external_body]
fn xml_plain_writer() -> (r: XmlSink)
    ensures
        r@ == (false, Seq::<XmlEventId>::empty()),
{
    XmlSink { writer: quick_xml::Writer::new(Vec::new()), indented: Ghost(false), done: Ghost(Seq::empty()) }
}

/// `Writer::write_event`, with the error rendered by its `Display`.
#[verifier::external_body]
fn xml_write_event<'a>(sink: &mut XmlSink, event: XmlEvent<'a>) -> (r: Result<(), String>)
    ensures
        final(sink)@.0 == old(sink)@.0,
        match r {
            Ok(()) => quick_xml_write(old(sink)@.0, old(sink)@.1, event@) is None
                && final(sink)@.1 == old(sink)@.1.push(event@),
            Err(message) => quick_xml_write(old(sink)@.0, old(sink)@.1, event@) == Some(message@),
        },
{
    let id = event.id;
    match sink.writer.write_event(event.event) {
        Ok(()) => {
            sink.done = Ghost(sink.done@.push(id@));
            Ok(())
        },
        Err(error) => Err(error.to_string()),
    }
}

/// `Writer::into_inner`.
#[verifier::external_body]
fn xml_writer_output(sink: XmlSink) -> (r: Vec<u8>)
    ensures
        r@ == quick_xml_output(sink@.0, sink@.1),
{
    sink.writer.into_inner()
}

/// `String::from_utf8`: the text the bytes encode when they are UTF-8,
/// otherwise the `Display` of the error.
#[verifier::external_body]
fn utf8_to_string(bytes: Vec<u8>) -> (r: Result<String, String>)
    ensures
        match r {
            Ok(text) => vstd::utf8::valid_utf8(bytes@) && text@ == vstd::utf8::decode_utf8(bytes@),
            Err(message) => !vstd::utf8::valid_utf8(bytes@) && message@ == utf8_error_text(bytes@),
        },
{
    String::from_utf8(bytes).map_err(|error| error.to_string())
}

/// How `parse_xml` lays out what it re-emits.
#[derive(Clone, Copy, PartialEq, Eq, Structural)]
pub enum XmlLayout {
    Indented,
    Compact,
}

/// The message (its catalog key) for text that parses but holds no element
/// at all.
pub open spec fn not_xml_text() -> Seq<char> {
    "components.value_panel.error.not_xml"@
}

/// The events `0..k` of a trimming reader over `text`.
pub open spec fn first_events(text: Seq<char>, k: nat) -> Seq<XmlEventId> {
    Seq::new(k, |i: int| (text, true, i as nat))
}

/// What `parse_xml` yields from event `k` on, with `saw_element` telling
/// whether an element was met before: each event is re-emitted until the end
/// of the text; a reader or writer error ends the run with its message on one
/// line; reaching the end without an element is refused; otherwise the
/// writer's bytes are decoded. `budget` bounds the recursion by the events
/// left; a run that would exhaust it yields an empty error, which never
/// happens from the start of a text (see `xml_within_budget`).
pub open spec fn xml_pass(text: Seq<char>, indented: bool, k: nat, budget: nat, saw_element: bool) -> Result<Seq<char>, Seq<char>>
    decreases budget,
{
    match quick_xml_read(text, true, k) {
        Err(message) => Err(one_line(message)),
        Ok(XmlEventKind::Eof) => if !saw_element {
            Err(not_xml_text())
        } else {
            let bytes = quick_xml_output(indented, first_events(text, k));
            if vstd::utf8::valid_utf8(bytes) {
                Ok(vstd::utf8::decode_utf8(bytes))
            } else {
                Err(utf8_error_text(bytes))
            }
        },
        Ok(kind) => if budget == 0 {
            Err(Seq::empty())
        } else {
            match quick_xml_write(indented, first_events(text, k), (text, true, k)) {
                Some(message) => Err(one_line(message)),
                None => xml_pass(
                    text,
                    indented,
                    k + 1,
                    (budget - 1) as nat,
                    saw_element || kind == XmlEventKind::Start || kind == XmlEventKind::Empty,
                ),
            }
        },
    }
}

/// Whether the run of `xml_pass` from event `k` ends (at the end of the text
/// or on an error) before its budget is exhausted.
pub open spec fn xml_within_budget(text: Seq<char>, indented: bool, k: nat, budget: nat) -> bool
    decreases budget,
{
    match quick_xml_read(text, true, k) {
        Err(_) => true,
        Ok(XmlEventKind::Eof) => true,
        Ok(_) => if budget == 0 {
            false
        } else {
            match quick_xml_write(indented, first_events(text, k), (text, true, k)) {
                Some(_) => true,
                None => xml_within_budget(text, indented, k + 1, (budget - 1) as nat),
            }
        },
    }
}

/// The length in bytes of `text`'s UTF-8 encoding, as `str::len` reports it.
pub open spec fn byte_len(text: Seq<char>) -> nat {
    (vstd::utf8::encode_utf8(text).len() as usize) as nat
}

/// What `parse_xml` yields for `text`.
pub open spec fn xml_rendering(text: Seq<char>, layout: XmlLayout) -> Result<Seq<char>, Seq<char>> {
    xml_pass(text, layout == XmlLayout::Indented, 0, byte_len(text), false)
}

/// Re-emit the XML event stream with the requested layout.
///
/// Doubles as the XML validator: a document that cannot be read event by event
/// to the end is not well-formed, and the reader's error carries the position.
/// A reader fed plain text yields one text event and no element; that is not
/// an XML document, and is rejected rather than echoed back.
///
/// Every event but the last moves the reader forward in the text, so the
/// run ends within as many events as the text has bytes.
pub fn parse_xml(value: &str, layout: XmlLayout) -> (r: Result<String, String>)
    ensures
        result_view(r) == xml_rendering(value@, layout),
        xml_within_budget(value@, layout == XmlLayout::Indented, 0, byte_len(value@)),
{
    let mut reader = xml_reader(value);
    xml_trim_text(&mut reader);
    let mut writer = match layout {
        XmlLayout::Indented => xml_indenting_writer(),
        XmlLayout::Compact => xml_plain_writer(),
    };
    let ghost indented = layout == XmlLayout::Indented;
    let ghost total = byte_len(value@);
    let mut saw_element = false;
    let ghost mut k: nat = 0;
    assert(writer@.1 =~= first_events(value@, 0));
    loop
        invariant_except_break
            reader@.2 == k,
            k <= reader.position() <= total,
            xml_within_budget(value@, indented, 0, total) == xml_within_budget(value@, indented, k, (total - k) as nat),
        invariant
            total == byte_len(value@),
            indented == (layout == XmlLayout::Indented),
            reader@.0 == value@,
            reader@.1,
            writer@ == (indented, first_events(value@, k)),
            k <= total,
            xml_rendering(value@, layout) == xml_pass(value@, indented, k, (total - k) as nat, saw_element),
        ensures
            quick_xml_read(value@, true, k) == read_yields(XmlEventKind::Eof),
            xml_within_budget(value@, indented, 0, total) == xml_within_budget(value@, indented, k, (total - k) as nat),
        decreases total - reader.position(),
    {
        let ghost before = reader.position();
        let event = match xml_read_event(&mut reader) {
            Ok(event) => event,
            Err(message) => return Err(single_line(message.as_str())),
        };
        let kind = xml_event_kind(&event);
        if kind == XmlEventKind::Eof {
            break;
        }
        assert(reader.position() > before);
        if kind == XmlEventKind::Start || kind == XmlEventKind::Empty {
            saw_element = true;
        }
        match xml_write_event(&mut writer, event) {
            Ok(()) => {},
            Err(message) => return Err(single_line(message.as_str())),
        }
        proof {
            k = k + 1;
            assert(writer@.1 =~= first_events(value@, k));
        }
    }
    if !saw_element {
        return Err(not_xml_message());
    }
    utf8_to_string(xml_writer_output(writer))
}

fn not_xml_message() -> (r: String)
    ensures
        r@ == not_xml_text(),
{
    String::from_str("components.value_panel.error.not_xml")
}

proof fn lemma_one_line_has_no_newline(s: Seq<char>)
    ensures
        !has_char(one_line(s), '\n'),
    decreases s.len(),
{
    reveal_strlit(" ");
    if s.len() > 0 {
        lemma_one_line_has_no_newline(s.drop_first());
        let head = if s[0] == '\n' { " "@ } else { seq![s[0]] };
        let tail = one_line(s.drop_first());
        assert(one_line(s) == head + tail);
        assert forall|i: int| 0 <= i < one_line(s).len() implies one_line(s)[i] != '\n' by {
            if i >= head.len() {
                assert(one_line(s)[i] == tail[i - head.len()]);
            }
        }
    }
}

/// `message` with its newlines turned into spaces.
fn single_line(message: &str) -> (r: String)
    ensures
        r@ == one_line(message@),
        !has_char(r@, '\n'),
{
    let r = replace_char_with(message, '\n', " ");
    proof {
        lemma_one_line_has_no_newline(message@);
    }
    r
}

proof fn lemma_xml_pass_errors_are_one_line(text: Seq<char>, indented: bool, k: nat, budget: nat, saw_element: bool)
    requires
        forall|n: nat| #[trigger] vstd::utf8::valid_utf8(quick_xml_output(indented, first_events(text, n))),
    ensures
        xml_pass(text, indented, k, budget, saw_element) matches Err(m) ==> !has_char(m, '\n'),
    decreases budget,
{
    reveal_strlit("components.value_panel.error.not_xml");
    assert(vstd::utf8::valid_utf8(quick_xml_output(indented, first_events(text, k))));
    match quick_xml_read(text, true, k) {
        Err(message) => lemma_one_line_has_no_newline(message),
        Ok(XmlEventKind::Eof) => {
            if !saw_element {
                assert forall|i: int| 0 <= i < not_xml_text().len() implies not_xml_text()[i] != '\n' by {}
            }
        },
        Ok(kind) => {
            if budget != 0 {
                match quick_xml_write(indented, first_events(text, k), (text, true, k)) {
                    Some(message) => lemma_one_line_has_no_newline(message),
                    None => lemma_xml_pass_errors_are_one_line(
                        text,
                        indented,
                        k + 1,
                        (budget - 1) as nat,
                        saw_element || kind == XmlEventKind::Start || kind == XmlEventKind::Empty,
                    ),
                }
            }
        },
    }
}

/// Every message the value panel shows for a value that does not format is a
/// single line: parser messages have their newlines turned into spaces. (For
/// XML this holds whenever the writer's output is UTF-8, which it is for
/// anything re-emitted from a string.)
pub proof fn law_rendering_errors_are_one_line(value: Seq<char>, format: ValueFormat, pretty: bool)
    requires
        format == ValueFormat::Xml ==> forall|n: nat| #[trigger] vstd::utf8::valid_utf8(
            quick_xml_output(pretty, first_events(value, n)),
        ),
    ensures
        value_rendering(value, format, pretty) matches Err(m) ==> !has_char(m, '\n'),
{
    match format {
        ValueFormat::Json => {
            if let Some(message) = serde_json_parse_error(value) {
                lemma_one_line_has_no_newline(message);
            }
        },
        ValueFormat::Xml => {
            lemma_xml_pass_errors_are_one_line(value, pretty, 0, byte_len(value), false);
        },
        ValueFormat::Text => {},
    }
}

// ---------------------------------------------------------------------------
// The value panel's operations

/// Whether text opens like a JSON object or array.
pub open spec fn opens_like_json(t: Seq<char>) -> bool {
    t.len() > 0 && (t[0] == '{' || t[0] == '[')
}

/// The format guessed for `value`: JSON when its trimmed text opens like a
/// JSON object or array and parses, XML when it opens with `<` and reads as
/// XML, text otherwise (a blank value included).
pub open spec fn detected_format(value: Seq<char>) -> ValueFormat {
    let t = trim_space(value);
    if opens_like_json(t) && serde_json_parse_error(t) is None {
        ValueFormat::Json
    } else if t.len() > 0 && t[0] == '<' && xml_rendering(t, XmlLayout::Indented) is Ok {
        ValueFormat::Xml
    } else {
        ValueFormat::Text
    }
}

/// Guess a format from the value itself.
///
/// Only a value that actually parses is reported as structured, so a text
/// column that happens to start with `{` does not open in JSON mode and
/// immediately show a parse error.
pub fn detect_format(value: &str) -> (r: ValueFormat)
    ensures
        r == detected_format(value@),
        is_blank(value@) ==> r == ValueFormat::Text,
{
    proof {
        lemma_trim_space_empty(value@);
    }
    let trimmed = trim_str(value);
    let cs = chars_of(trimmed.as_str());
    if cs.len() == 0 {
        return ValueFormat::Text;
    }
    if cs[0] == '{' || cs[0] == '[' {
        match parse_json(trimmed.as_str()) {
            Ok(_) => return ValueFormat::Json,
            Err(_) => {},
        }
    }
    if cs[0] == '<' {
        match parse_xml(trimmed.as_str(), XmlLayout::Indented) {
            Ok(_) => return ValueFormat::Xml,
            Err(_) => {},
        }
    }
    ValueFormat::Text
}

/// What pretty-printing (`pretty`) or compacting `value` as `format` yields.
pub open spec fn value_rendering(value: Seq<char>, format: ValueFormat, pretty: bool) -> Result<Seq<char>, Seq<char>> {
    match format {
        ValueFormat::Json => json_rendering(value, pretty),
        ValueFormat::Xml => xml_rendering(value, if pretty { XmlLayout::Indented } else { XmlLayout::Compact }),
        ValueFormat::Text => Ok(value),
    }
}

/// Pretty-print `value`. Text is returned unchanged; malformed input reports
/// the parser's own message, on one line, so the panel can show it verbatim.
pub fn format_value(value: &str, format: ValueFormat) -> (r: Result<String, String>)
    ensures
        result_view(r) == value_rendering(value@, format, true),
{
    match format {
        ValueFormat::Json => render_json(value, true),
        ValueFormat::Xml => parse_xml(value, XmlLayout::Indented),
        ValueFormat::Text => Ok(String::from_str(value)),
    }
}

/// Collapse `value` onto as few lines as the format allows.
pub fn compact_value(value: &str, format: ValueFormat) -> (r: Result<String, String>)
    ensures
        result_view(r) == value_rendering(value@, format, false),
{
    match format {
        ValueFormat::Json => render_json(value, false),
        ValueFormat::Xml => parse_xml(value, XmlLayout::Compact),
        ValueFormat::Text => Ok(String::from_str(value)),
    }
}

/// Why `value` is not well-formed for `format`, or `None` when it is. A blank
/// value is always accepted.
pub open spec fn validation_error(value: Seq<char>, format: ValueFormat) -> Option<Seq<char>> {
    if is_blank(value) {
        None
    } else {
        match format {
            ValueFormat::Json => match serde_json_parse_error(value) {
                None => None,
                Some(message) => Some(one_line(message)),
            },
            ValueFormat::Xml => match xml_rendering(value, XmlLayout::Compact) {
                Ok(_) => None,
                Err(message) => Some(message),
            },
            ValueFormat::Text => None,
        }
    }
}

/// Check that `value` is well-formed for `format`. An empty value is always
/// accepted: clearing a cell is how the user writes an empty string.
pub fn validate_value(value: &str, format: ValueFormat) -> (r: Result<(), String>)
    ensures
        match r {
            Ok(()) => validation_error(value@, format) is None,
            Err(e) => validation_error(value@, format) == Some(e@),
        },
{
    proof {
        lemma_trim_space_empty(value@);
    }
    let trimmed = trim_str(value);
    if trimmed.as_str().is_empty() {
        return Ok(());
    }
    match format {
        ValueFormat::Json => match parse_json(value) {
            Ok(_) => Ok(()),
            Err(message) => Err(single_line(message.as_str())),
        },
        ValueFormat::Xml => match parse_xml(value, XmlLayout::Compact) {
            Ok(_) => Ok(()),
            Err(e) => Err(e),
        },
        ValueFormat::Text => Ok(()),
    }
}

/// JSON validation follows the JSON parser alone: a value that is not blank
/// is refused exactly when `serde_json` rejects it, whatever character it
/// starts with, and the message shown is the parser's, on one line. Only a
/// blank value passes without being parsed.
pub proof fn law_json_validation_follows_the_parser(value: Seq<char>)
    ensures
        !is_blank(value) ==> ((validation_error(value, ValueFormat::Json) is None) <==> (
        serde_json_parse_error(value) is None)),
        !is_blank(value) && serde_json_parse_error(value) is Some ==> validation_error(value, ValueFormat::Json)
            == Some(one_line(serde_json_parse_error(value)->0)),
        is_blank(value) ==> validation_error(value, ValueFormat::Json) is None,
        validation_error(value, ValueFormat::Text) is None,
{
}

} // verus!
