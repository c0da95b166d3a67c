//! The shape that the kernel's XML lists share: a root element whose child
//! elements are records, whose own child elements are fields holding text.
//! Framing turns a document's tokens into that shape; elements that the shape
//! does not foresee are skipped whole.

use vstd::prelude::*;
use crate::text::{blank, is_blank, pairs_view, push_str, str_eq};
use quick_xml::events::attributes::Attributes;
use quick_xml::events::{BytesRef, Event};
use quick_xml::Reader;

verus! {

/// A piece of an XML document, as a reader hands it out.
#[derive(Clone, Debug)]
pub enum XmlToken {
    /// A start tag `<name attr="value">`.
    Open { name: String, attrs: Vec<(String, String)> },
    /// An empty element `<name attr="value"/>`.
    Leaf { name: String, attrs: Vec<(String, String)> },
    /// An end tag `</name>`.
    Close { name: String },
    /// Character data, references resolved.
    Text(String),
    /// A comment, declaration, processing instruction or document type.
    Other,
    /// The end of the document.
    End,
}

/// What a token holds, as plain values.
pub enum TokenView {
    Open { name: Seq<char>, attrs: Seq<(Seq<char>, Seq<char>)> },
    Leaf { name: Seq<char>, attrs: Seq<(Seq<char>, Seq<char>)> },
    Close { name: Seq<char> },
    Text(Seq<char>),
    Other,
    End,
}

impl View for XmlToken {
    type V = TokenView;

    open spec fn view(&self) -> TokenView {
        match self {
            XmlToken::Open { name, attrs } => TokenView::Open { name: name@, attrs: pairs_view(attrs@) },
            XmlToken::Leaf { name, attrs } => TokenView::Leaf { name: name@, attrs: pairs_view(attrs@) },
            XmlToken::Close { name } => TokenView::Close { name: name@ },
            XmlToken::Text(x) => TokenView::Text(x@),
            XmlToken::Other => TokenView::Other,
            XmlToken::End => TokenView::End,
        }
    }
}

/// The views of a sequence of tokens.
pub open spec fn tokens_view(toks: Seq<XmlToken>) -> Seq<TokenView> {
    toks.map_values(|t: XmlToken| t@)
}

/// A field of a record: an element with its attributes and its text.
#[derive(Clone, Debug)]
pub struct Field {
    pub name: String,
    pub attrs: Vec<(String, String)>,
    pub text: String,
}

/// A record: its attributes, its own text and its fields in order.
#[derive(Clone, Debug)]
pub struct Record {
    pub attrs: Vec<(String, String)>,
    pub text: String,
    pub fields: Vec<Field>,
}

/// A framed document: the root's own text and its records in order.
#[derive(Clone, Debug)]
pub struct Frame {
    pub text: String,
    pub records: Vec<Record>,
}

/// What a field holds: its name, its attributes in order, and its text.
pub struct FieldModel {
    pub name: Seq<char>,
    pub attrs: Seq<(Seq<char>, Seq<char>)>,
    pub text: Seq<char>,
}

/// What a record holds: its attributes, its own text and its fields.
pub struct RecordModel {
    pub attrs: Seq<(Seq<char>, Seq<char>)>,
    pub text: Seq<char>,
    pub fields: Seq<FieldModel>,
}

/// What a framed document holds: the root's own text and its records.
pub struct FrameModel {
    pub text: Seq<char>,
    pub records: Seq<RecordModel>,
}

impl View for Field {
    type V = FieldModel;

    open spec fn view(&self) -> FieldModel {
        FieldModel { name: self.name@, attrs: pairs_view(self.attrs@), text: self.text@ }
    }
}

impl View for Record {
    type V = RecordModel;

    open spec fn view(&self) -> RecordModel {
        RecordModel {
            attrs: pairs_view(self.attrs@),
            text: self.text@,
            fields: self.fields@.map_values(|f: Field| f@),
        }
    }
}

impl View for Frame {
    type V = FrameModel;

    open spec fn view(&self) -> FrameModel {
        FrameModel { text: self.text@, records: self.records@.map_values(|r: Record| r@) }
    }
}

/// Where framing stands.
#[derive(Clone, Copy, Debug, PartialEq, Eq, Structural)]
pub enum Phase {
    /// Before the root element.
    Prolog,
    /// Inside the root, between records.
    Root,
    /// Inside a record, between fields.
    InRecord,
    /// Inside a field.
    InField,
    /// Inside an element that is skipped whole.
    Skip,
    /// After the root element.
    Epilog,
    /// The document has ended well.
    Done,
    /// The document does not have the expected shape.
    Failed,
}

/// The state of framing.
pub struct FrameState {
    pub phase: Phase,
    /// Where to return when the skipped element ends.
    pub resume: Phase,
    /// How many skipped elements are open.
    pub depth: nat,
    pub text: Seq<char>,
    pub records: Seq<RecordModel>,
    pub cur: RecordModel,
    pub field: FieldModel,
}

/// A record with the given attributes and nothing else yet.
pub open spec fn empty_record(attrs: Seq<(Seq<char>, Seq<char>)>) -> RecordModel {
    RecordModel { attrs, text: Seq::empty(), fields: Seq::empty() }
}

/// A field with the given name and attributes and no text yet.
pub open spec fn empty_field(name: Seq<char>, attrs: Seq<(Seq<char>, Seq<char>)>) -> FieldModel {
    FieldModel { name, attrs, text: Seq::empty() }
}

/// The state before the first token.
pub open spec fn frame_start() -> FrameState {
    FrameState {
        phase: Phase::Prolog,
        resume: Phase::Prolog,
        depth: 0,
        text: Seq::empty(),
        records: Seq::empty(),
        cur: empty_record(Seq::empty()),
        field: empty_field(Seq::empty(), Seq::empty()),
    }
}

/// The state after one more token, for a root element named `root` whose
/// records are elements named `record`.
pub open spec fn frame_step(root: Seq<char>, record: Seq<char>, s: FrameState, t: TokenView) -> FrameState {
    let failed = FrameState { phase: Phase::Failed, ..s };
    match s.phase {
        Phase::Prolog | Phase::Epilog => match t {
            TokenView::Open { name, .. } => if s.phase == Phase::Prolog && name == root {
                FrameState { phase: Phase::Root, ..s }
            } else {
                failed
            },
            TokenView::Leaf { name, .. } => if s.phase == Phase::Prolog && name == root {
                FrameState { phase: Phase::Epilog, ..s }
            } else {
                failed
            },
            TokenView::Text(x) => if is_blank(x) { s } else { failed },
            TokenView::Other => s,
            TokenView::End => if s.phase == Phase::Epilog { FrameState { phase: Phase::Done, ..s } } else { failed },
            TokenView::Close { .. } => failed,
        },
        Phase::Root => match t {
            TokenView::Open { name, attrs } => if name == record {
                FrameState { phase: Phase::InRecord, cur: empty_record(attrs), ..s }
            } else {
                FrameState { phase: Phase::Skip, resume: Phase::Root, depth: 1, ..s }
            },
            TokenView::Leaf { name, attrs } => if name == record {
                FrameState { records: s.records.push(empty_record(attrs)), ..s }
            } else {
                s
            },
            TokenView::Close { name } => if name == root { FrameState { phase: Phase::Epilog, ..s } } else { failed },
            TokenView::Text(x) => FrameState { text: s.text + x, ..s },
            TokenView::Other => s,
            TokenView::End => failed,
        },
        Phase::InRecord => match t {
            TokenView::Open { name, attrs } => FrameState { phase: Phase::InField, field: empty_field(name, attrs), ..s },
            TokenView::Leaf { name, attrs } => FrameState {
                cur: RecordModel { fields: s.cur.fields.push(empty_field(name, attrs)), ..s.cur },
                ..s
            },
            TokenView::Close { name } => if name == record {
                FrameState { phase: Phase::Root, records: s.records.push(s.cur), cur: empty_record(Seq::empty()), ..s }
            } else {
                failed
            },
            TokenView::Text(x) => FrameState { cur: RecordModel { text: s.cur.text + x, ..s.cur }, ..s },
            TokenView::Other => s,
            TokenView::End => failed,
        },
        Phase::InField => match t {
            TokenView::Open { .. } => FrameState { phase: Phase::Skip, resume: Phase::InField, depth: 1, ..s },
            TokenView::Leaf { .. } => s,
            TokenView::Close { name } => if name == s.field.name {
                FrameState {
                    phase: Phase::InRecord,
                    cur: RecordModel { fields: s.cur.fields.push(s.field), ..s.cur },
                    field: empty_field(Seq::empty(), Seq::empty()),
                    ..s
                }
            } else {
                failed
            },
            TokenView::Text(x) => FrameState { field: FieldModel { text: s.field.text + x, ..s.field }, ..s },
            TokenView::Other => s,
            TokenView::End => failed,
        },
        Phase::Skip => match t {
            TokenView::Open { .. } => FrameState { depth: s.depth + 1, ..s },
            TokenView::Close { .. } => if s.depth <= 1 {
                FrameState { phase: s.resume, depth: 0, ..s }
            } else {
                FrameState { depth: (s.depth - 1) as nat, ..s }
            },
            TokenView::End => failed,
            _ => s,
        },
        Phase::Done | Phase::Failed => failed,
    }
}

/// The state after all of `toks`.
pub open spec fn frame_run(root: Seq<char>, record: Seq<char>, toks: Seq<TokenView>) -> FrameState
    decreases toks.len(),
{
    if toks.len() == 0 {
        frame_start()
    } else {
        frame_step(root, record, frame_run(root, record, toks.drop_last()), toks.last())
    }
}

/// Why a document could not be read.
#[derive(Clone, Debug, PartialEq, Eq)]
pub enum DecodeError {
    /// The document is not well-formed XML, or not of the expected shape.
    Malformed,
    /// A reference names no character or entity.
    UnknownReference(String),
    /// The field or attribute of this name holds a value of the wrong kind.
    BadValue(String),
}

/// Frames a document: `Some` with the root's text and records when the
/// tokens end well, `None` otherwise.
pub open spec fn frame_of(root: Seq<char>, record: Seq<char>, toks: Seq<TokenView>) -> Option<FrameModel> {
    let s = frame_run(root, record, toks);
    if s.phase == Phase::Done {
        Some(FrameModel { text: s.text, records: s.records })
    } else {
        None
    }
}


/// Framing in progress.
pub struct Framer {
    phase: Phase,
    resume: Phase,
    depth: usize,
    text: String,
    records: Vec<Record>,
    cur: Record,
    field: Field,
}

impl View for Framer {
    type V = FrameState;

    closed spec fn view(&self) -> FrameState {
        FrameState {
            phase: self.phase,
            resume: self.resume,
            depth: self.depth as nat,
            text: self.text@,
            records: self.records@.map_values(|r: Record| r@),
            cur: self.cur@,
            field: self.field@,
        }
    }
}

fn new_record(attrs: Vec<(String, String)>) -> (r: Record)
    ensures
        r@ == empty_record(pairs_view(attrs@)),
{
    let r = Record { attrs, text: String::new(), fields: Vec::new() };
    assert(r@.fields =~= Seq::<FieldModel>::empty());
    r
}

fn new_field(name: String, attrs: Vec<(String, String)>) -> (r: Field)
    ensures
        r@ == empty_field(name@, pairs_view(attrs@)),
{
    Field { name, attrs, text: String::new() }
}

proof fn lemma_depth_bound(root: Seq<char>, record: Seq<char>, toks: Seq<TokenView>)
    ensures
        frame_run(root, record, toks).depth <= toks.len(),
    decreases toks.len(),
{
    if toks.len() > 0 {
        lemma_depth_bound(root, record, toks.drop_last());
    }
}

impl Framer {
    /// Framing before the first token.
    pub fn new() -> (r: Framer)
        ensures
            r@ == frame_start(),
    {
        let r = Framer {
            phase: Phase::Prolog,
            resume: Phase::Prolog,
            depth: 0,
            text: String::new(),
            records: Vec::new(),
            cur: new_record(Vec::new()),
            field: new_field(String::new(), Vec::new()),
        };
        assert(r@.records =~= Seq::<RecordModel>::empty());
        assert(pairs_view(Seq::<(String, String)>::empty()) =~= Seq::empty());
        r
    }

    /// Takes one more token.
    pub fn step(&mut self, root: &str, record: &str, t: XmlToken)
        requires
            old(self)@.depth < usize::MAX,
        ensures
            final(self)@ == frame_step(root@, record@, old(self)@, t@),
    {
        match self.phase {
            Phase::Prolog | Phase::Epilog => match t {
                XmlToken::Open { name, .. } => {
                    if self.phase == Phase::Prolog && str_eq(name.as_str(), root) {
                        self.phase = Phase::Root;
                    } else {
                        self.phase = Phase::Failed;
                    }
                },
                XmlToken::Leaf { name, .. } => {
                    if self.phase == Phase::Prolog && str_eq(name.as_str(), root) {
                        self.phase = Phase::Epilog;
                    } else {
                        self.phase = Phase::Failed;
                    }
                },
                XmlToken::Text(x) => {
                    if !blank(x.as_str()) {
                        self.phase = Phase::Failed;
                    }
                },
                XmlToken::Other => {},
                XmlToken::End => {
                    if self.phase == Phase::Epilog {
                        self.phase = Phase::Done;
                    } else {
                        self.phase = Phase::Failed;
                    }
                },
                XmlToken::Close { .. } => {
                    self.phase = Phase::Failed;
                },
            },
            Phase::Root => match t {
                XmlToken::Open { name, attrs } => {
                    if str_eq(name.as_str(), record) {
                        self.phase = Phase::InRecord;
                        self.cur = new_record(attrs);
                    } else {
                        self.phase = Phase::Skip;
                        self.resume = Phase::Root;
                        self.depth = 1;
                    }
                },
                XmlToken::Leaf { name, attrs } => {
                    if str_eq(name.as_str(), record) {
                        let ghost before = self.records@;
                        let r = new_record(attrs);
                        self.records.push(r);
                        assert(self.records@.map_values(|r: Record| r@) =~= before.map_values(|r: Record| r@).push(r@));
                    }
                },
                XmlToken::Close { name } => {
                    if str_eq(name.as_str(), root) {
                        self.phase = Phase::Epilog;
                    } else {
                        self.phase = Phase::Failed;
                    }
                },
                XmlToken::Text(x) => {
                    push_str(&mut self.text, x.as_str());
                },
                XmlToken::Other => {},
                XmlToken::End => {
                    self.phase = Phase::Failed;
                },
            },
            Phase::InRecord => match t {
                XmlToken::Open { name, attrs } => {
                    self.phase = Phase::InField;
                    self.field = new_field(name, attrs);
                },
                XmlToken::Leaf { name, attrs } => {
                    let ghost before = self.cur.fields@;
                    let f = new_field(name, attrs);
                    self.cur.fields.push(f);
                    assert(self.cur.fields@.map_values(|f: Field| f@) =~= before.map_values(|f: Field| f@).push(f@));
                },
                XmlToken::Close { name } => {
                    if str_eq(name.as_str(), record) {
                        self.phase = Phase::Root;
                        let ghost before = self.records@;
                        let mut c = new_record(Vec::new());
                        std::mem::swap(&mut self.cur, &mut c);
                        self.records.push(c);
                        assert(self.records@.map_values(|r: Record| r@) =~= before.map_values(|r: Record| r@).push(c@));
                        assert(pairs_view(Seq::<(String, String)>::empty()) =~= Seq::empty());
                    } else {
                        self.phase = Phase::Failed;
                    }
                },
                XmlToken::Text(x) => {
                    push_str(&mut self.cur.text, x.as_str());
                },
                XmlToken::Other => {},
                XmlToken::End => {
                    self.phase = Phase::Failed;
                },
            },
            Phase::InField => match t {
                XmlToken::Open { .. } => {
                    self.phase = Phase::Skip;
                    self.resume = Phase::InField;
                    self.depth = 1;
                },
                XmlToken::Leaf { .. } => {},
                XmlToken::Close { name } => {
                    if str_eq(name.as_str(), self.field.name.as_str()) {
                        self.phase = Phase::InRecord;
                        let ghost before = self.cur.fields@;
                        let mut f = new_field(String::new(), Vec::new());
                        std::mem::swap(&mut self.field, &mut f);
                        self.cur.fields.push(f);
                        assert(self.cur.fields@.map_values(|f: Field| f@) =~= before.map_values(|f: Field| f@).push(f@));
                        assert(pairs_view(Seq::<(String, String)>::empty()) =~= Seq::empty());
                    } else {
                        self.phase = Phase::Failed;
                    }
                },
                XmlToken::Text(x) => {
                    push_str(&mut self.field.text, x.as_str());
                },
                XmlToken::Other => {},
                XmlToken::End => {
                    self.phase = Phase::Failed;
                },
            },
            Phase::Skip => match t {
                XmlToken::Open { .. } => {
                    self.depth = self.depth + 1;
                },
                XmlToken::Close { .. } => {
                    if self.depth <= 1 {
                        self.phase = self.resume;
                        self.depth = 0;
                    } else {
                        self.depth = self.depth - 1;
                    }
                },
                XmlToken::End => {
                    self.phase = Phase::Failed;
                },
                _ => {},
            },
            Phase::Done | Phase::Failed => {
                self.phase = Phase::Failed;
            },
        }
    }

    /// The framed document, where the tokens ended well.
    pub fn finish(self) -> (r: Option<Frame>)
        ensures
            self@.phase == Phase::Done ==> (r matches Some(f) && f@ == (FrameModel { text: self@.text, records: self@.records })),
            self@.phase != Phase::Done ==> r is None,
    {
        if self.phase == Phase::Done {
            Some(Frame { text: self.text, records: self.records })
        } else {
            None
        }
    }
}

/// Frames the tokens of a document whose root element is named `root` and
/// whose records are elements named `record`.
pub fn frame(root: &str, record: &str, toks: Vec<XmlToken>) -> (r: Option<Frame>)
    ensures
        r is None <==> frame_of(root@, record@, tokens_view(toks@)) is None,
        r matches Some(f) ==> frame_of(root@, record@, tokens_view(toks@)) == Some(f@),
{
    let mut toks = toks;
    let ghost orig = tokens_view(toks@);
    let mut fr = Framer::new();
    let mut i: usize = 0;
    while i < toks.len()
        invariant
            0 <= i <= toks@.len(),
            toks@.len() == orig.len(),
            forall|j: int| i <= j < orig.len() ==> toks@[j]@ == orig[j],
            fr@ == frame_run(root@, record@, orig.subrange(0, i as int)),
        decreases toks@.len() - i,
    {
        let mut t = XmlToken::Other;
        std::mem::swap(&mut toks[i], &mut t);
        proof {
            lemma_depth_bound(root@, record@, orig.subrange(0, i as int));
            assert(orig.subrange(0, i + 1).drop_last() =~= orig.subrange(0, i as int));
        }
        fr.step(root, record, t);
        i += 1;
    }
    assert(orig.subrange(0, orig.len() as int) =~= orig);
    fr.finish()
}


/// An event of the XML reader, with a start tag's attributes still as
/// written. Empty elements come as a start tag and an end tag.
#[derive(Clone, Debug)]
pub enum RawEvent {
    Start { name: String, attrs: String },
    End { name: String },
    /// Character data, line ends normalized.
    Text(String),
    /// A reference, by what stands between `&` and `;`.
    Ref(String),
    /// A comment, declaration, processing instruction or document type.
    Other,
}

/// What a reader event holds, as plain values.
pub enum RawView {
    Start { name: Seq<char>, attrs: Seq<char> },
    End { name: Seq<char> },
    Text(Seq<char>),
    Ref(Seq<char>),
    Other,
}

impl View for RawEvent {
    type V = RawView;

    open spec fn view(&self) -> RawView {
        match self {
            RawEvent::Start { name, attrs } => RawView::Start { name: name@, attrs: attrs@ },
            RawEvent::End { name } => RawView::End { name: name@ },
            RawEvent::Text(x) => RawView::Text(x@),
            RawEvent::Ref(x) => RawView::Ref(x@),
            RawEvent::Other => RawView::Other,
        }
    }
}

/// The views of a sequence of reader events.
pub open spec fn events_view(es: Seq<RawEvent>) -> Seq<RawView> {
    es.map_values(|e: RawEvent| e@)
}

#[verifier::external_type_specification]
#[verifier::external_body]
pub struct ExXmlError(quick_xml::Error);

/// The events that the XML reader hands out for a document, up to its end;
/// `None` where it finds the document malformed.
pub uninterp spec fn xml_events_of(s: Seq<char>) -> Option<Seq<RawView>>;

/// Relies on `Reader::from_str` and `Reader::read_event`, with
/// `expand_empty_elements` set: the document's events up to its end, or `Err`
/// where the reader finds it malformed. A reader over a string depends on the
/// string alone.
#[verifier::external_body]
fn xml_events(s: &str) -> (r: Result<Vec<RawEvent>, quick_xml::Error>)
    ensures
        r is Ok <==> xml_events_of(s@) is Some,
        r matches Ok(v) ==> xml_events_of(s@) == Some(events_view(v@)),
{
    let mut r = Reader::from_str(s);
    r.config_mut().expand_empty_elements = true;
    let mut v = Vec::new();
    loop {
        v.push(match r.read_event()? {
            Event::Start(e) => RawEvent::Start { name: e.name().as_ref().into(), attrs: e.attributes_raw().into() },
            Event::End(e) => RawEvent::End { name: e.name().as_ref().into() },
            Event::Text(e) => RawEvent::Text(e.xml10_content().into()),
            Event::CData(e) => RawEvent::Text(e.xml10_content().into()),
            Event::GeneralRef(e) => RawEvent::Ref(e.xml10_content().into()),
            Event::Eof => return Ok(v),
            _ => RawEvent::Other,
        });
    }
}

/// The attributes that a start tag writes after its name, values unescaped;
/// `None` where one is malformed.
pub uninterp spec fn xml_attrs_of(raw: Seq<char>) -> Option<Seq<(Seq<char>, Seq<char>)>>;

/// Relies on `Attributes::new` and `Attribute::normalized_value`: the
/// attributes written in `raw`, values unescaped, or `Err` where one is
/// malformed.
#[verifier::external_body]
fn xml_attrs(raw: &str) -> (r: Result<Vec<(String, String)>, ()>)
    ensures
        r is Ok <==> xml_attrs_of(raw@) is Some,
        r matches Ok(v) ==> xml_attrs_of(raw@) == Some(pairs_view(v@)),
{
    Attributes::new(raw, 0).map(|a| match a {
        Ok(a) => a.normalized_value(quick_xml::XmlVersion::Implicit1_0)
            .map(|v| (a.key.as_ref().to_owned(), v.into_owned())).map_err(|_| ()),
        Err(_) => Err(()),
    }).collect()
}

/// The text that XML's predefined entities stand for.
pub open spec fn predefined_entity_of(name: Seq<char>) -> Option<Seq<char>> {
    if name == "lt"@ {
        Some("<"@)
    } else if name == "gt"@ {
        Some(">"@)
    } else if name == "amp"@ {
        Some("&"@)
    } else if name == "apos"@ {
        Some("'"@)
    } else if name == "quot"@ {
        Some("\""@)
    } else {
        None
    }
}

/// Relies on `quick_xml::escape::resolve_predefined_entity`, built without
/// HTML entities: the five entities that XML predefines.
#[verifier::external_body]
fn predefined_entity(name: &str) -> (r: Option<&'static str>)
    ensures
        r is Some <==> predefined_entity_of(name@) is Some,
        r matches Some(v) ==> predefined_entity_of(name@) == Some(v@),
{
    quick_xml::escape::resolve_predefined_entity(name)
}

/// The value of a digit in base 10 or 16 (either case).
pub open spec fn digit_value(c: char, radix: nat) -> Option<nat> {
    if '0' <= c && c <= '9' {
        Some(((c as nat) - ('0' as nat)) as nat)
    } else if radix == 16 && 'a' <= c && c <= 'f' {
        Some(((c as nat) - ('a' as nat) + 10) as nat)
    } else if radix == 16 && 'A' <= c && c <= 'F' {
        Some(((c as nat) - ('A' as nat) + 10) as nat)
    } else {
        None
    }
}

/// The number that one or more digits write in the given base.
pub open spec fn radix_value(s: Seq<char>, radix: nat) -> Option<nat>
    decreases s.len(),
{
    if s.len() == 0 {
        None
    } else {
        match digit_value(s.last(), radix) {
            Some(d) => if s.len() == 1 {
                Some(d)
            } else {
                match radix_value(s.drop_last(), radix) {
                    Some(v) => Some(v * radix + d),
                    None => None,
                }
            },
            None => None,
        }
    }
}

/// The character that a character reference such as `#x41` or `#65` names:
/// the hexadecimal number after `#x` or the decimal number after `#`, where
/// it fits in 32 bits, is not zero and is a Unicode scalar value; `None`
/// otherwise.
pub open spec fn char_ref_of(name: Seq<char>) -> Option<char> {
    let num = name.drop_first();
    let code = if num.len() > 0 && num[0] == 'x' {
        radix_value(num.drop_first(), 16)
    } else {
        radix_value(num, 10)
    };
    match code {
        Some(c) => if 0 < c && c <= u32::MAX as nat && (c < 0xD800 || (0xDFFF < c && c <= 0x10FFFF)) {
            Some((c as u32) as char)
        } else {
            None
        },
        None => None,
    }
}

/// A reference whose name starts with `#`.
pub open spec fn is_char_ref(name: Seq<char>) -> bool {
    name.len() > 0 && name[0] == '#'
}

/// Relies on `BytesRef::resolve_char_ref`: `None` for a name that does not
/// start with `#`; otherwise the character it names, or `Err` where it names
/// none.
#[verifier::external_body]
fn char_reference(name: &str) -> (r: Result<Option<String>, ()>)
    ensures
        r matches Ok(None) <==> !is_char_ref(name@),
        is_char_ref(name@) ==> (r is Ok <==> char_ref_of(name@) is Some),
        r matches Ok(Some(s)) ==> (char_ref_of(name@) matches Some(c) && s@ == seq![c]),
{
    BytesRef::new(name).resolve_char_ref().map(|c| c.map(|c| c.to_string())).map_err(|_| ())
}

/// The text that a reference stands for, if any.
pub open spec fn reference_text(name: Seq<char>) -> Option<Seq<char>> {
    if is_char_ref(name) {
        match char_ref_of(name) {
            Some(c) => Some(seq![c]),
            None => None,
        }
    } else {
        predefined_entity_of(name)
    }
}

/// The text that a reference stands for.
fn resolve_reference(name: String) -> (r: Result<String, DecodeError>)
    ensures
        r is Ok <==> reference_text(name@) is Some,
        r matches Ok(s) ==> reference_text(name@) == Some(s@),
        r matches Err(e) ==> e == DecodeError::UnknownReference(name),
{
    match char_reference(name.as_str()) {
        Ok(Some(s)) => Ok(s),
        Ok(None) => match predefined_entity(name.as_str()) {
            Some(v) => Ok(v.to_owned()),
            None => Err(DecodeError::UnknownReference(name)),
        },
        Err(()) => Err(DecodeError::UnknownReference(name)),
    }
}

/// The token that a reader event stands for, attributes read and references
/// resolved; `None` where either fails.
pub open spec fn token_of_event(e: RawView) -> Option<TokenView> {
    match e {
        RawView::Start { name, attrs } => match xml_attrs_of(attrs) {
            Some(a) => Some(TokenView::Open { name, attrs: a }),
            None => None,
        },
        RawView::End { name } => Some(TokenView::Close { name }),
        RawView::Text(x) => Some(TokenView::Text(x)),
        RawView::Ref(n) => match reference_text(n) {
            Some(t) => Some(TokenView::Text(t)),
            None => None,
        },
        RawView::Other => Some(TokenView::Other),
    }
}

/// The tokens of a sequence of events, where every event has one.
pub open spec fn tokens_of_events(es: Seq<RawView>) -> Option<Seq<TokenView>>
    decreases es.len(),
{
    if es.len() == 0 {
        Some(Seq::empty())
    } else {
        match (tokens_of_events(es.drop_last()), token_of_event(es.last())) {
            (Some(t), Some(x)) => Some(t.push(x)),
            _ => None,
        }
    }
}

/// The tokens of a document, ending with `End`; `None` where the document
/// is malformed or holds a reference to nothing.
pub open spec fn document_tokens(s: Seq<char>) -> Option<Seq<TokenView>> {
    match xml_events_of(s) {
        Some(es) => match tokens_of_events(es) {
            Some(t) => Some(t.push(TokenView::End)),
            None => None,
        },
        None => None,
    }
}

/// The token that one reader event stands for.
fn token_of(e: RawEvent) -> (r: Result<XmlToken, DecodeError>)
    ensures
        r is Ok <==> token_of_event(e@) is Some,
        r matches Ok(t) ==> token_of_event(e@) == Some(t@),
{
    match e {
        RawEvent::Start { name, attrs } => match xml_attrs(attrs.as_str()) {
            Ok(a) => Ok(XmlToken::Open { name, attrs: a }),
            Err(()) => Err(DecodeError::Malformed),
        },
        RawEvent::End { name } => Ok(XmlToken::Close { name }),
        RawEvent::Text(x) => Ok(XmlToken::Text(x)),
        RawEvent::Ref(n) => match resolve_reference(n) {
            Ok(t) => Ok(XmlToken::Text(t)),
            Err(err) => Err(err),
        },
        RawEvent::Other => Ok(XmlToken::Other),
    }
}

/// The tokens of a document, ending with `End`.
pub fn read_tokens(xml: &str) -> (r: Result<Vec<XmlToken>, DecodeError>)
    ensures
        r is Ok <==> document_tokens(xml@) is Some,
        r matches Ok(toks) ==> document_tokens(xml@) == Some(tokens_view(toks@)),
{
    let mut events = match xml_events(xml) {
        Ok(v) => v,
        Err(_) => return Err(DecodeError::Malformed),
    };
    let ghost orig = events_view(events@);
    let mut toks: Vec<XmlToken> = Vec::new();
    let mut i: usize = 0;
    while i < events.len()
        invariant
            0 <= i <= events@.len(),
            events@.len() == orig.len(),
            xml_events_of(xml@) == Some(orig),
            forall|j: int| i <= j < orig.len() ==> events@[j]@ == orig[j],
            tokens_of_events(orig.subrange(0, i as int)) == Some(tokens_view(toks@)),
        decreases events@.len() - i,
    {
        let mut e = RawEvent::Other;
        std::mem::swap(&mut events[i], &mut e);
        assert(orig.subrange(0, i + 1).drop_last() =~= orig.subrange(0, i as int));
        let ghost before = toks@;
        assert(e@ == orig[i as int]);
        assert(orig.subrange(0, i + 1).last() == orig[i as int]);
        match token_of(e) {
            Ok(t) => {
                let ghost tv = t@;
                toks.push(t);
                assert(tokens_view(toks@) =~= tokens_view(before).push(tv));
            },
            Err(err) => {
                proof {
                    let pre = orig.subrange(0, i + 1);
                    assert(token_of_event(pre.last()) is None);
                    assert(tokens_of_events(pre) is None);
                    lemma_tokens_of_events_prefix(orig, i + 1);
                }
                return Err(err);
            },
        }
        i += 1;
    }
    assert(orig.subrange(0, orig.len() as int) =~= orig);
    let ghost before = toks@;
    toks.push(XmlToken::End);
    assert(tokens_view(toks@) =~= tokens_view(before).push(TokenView::End));
    Ok(toks)
}

/// A sequence of events has tokens only where each of its prefixes has.
proof fn lemma_tokens_of_events_prefix(es: Seq<RawView>, k: int)
    requires
        0 <= k <= es.len(),
    ensures
        tokens_of_events(es.subrange(0, k)) is None ==> tokens_of_events(es) is None,
    decreases es.len(),
{
    if k < es.len() {
        assert(es.drop_last().subrange(0, k) =~= es.subrange(0, k));
        lemma_tokens_of_events_prefix(es.drop_last(), k);
    } else {
        assert(es.subrange(0, k) =~= es);
    }
}

} // verus!
