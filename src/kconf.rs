//! The kernel's current LUNs and ports, as its XML reports describe them.

use vstd::prelude::*;
use crate::conf::{backend_of_token, device_type_of_code, Backend, DeviceType};
use crate::text::{blank, bounded_decimal, is_blank, parse_u16, parse_u32, parse_u64, str_eq};
use crate::xml::{document_tokens, frame, frame_of, read_tokens, tokens_view, DecodeError, Field, FieldModel, Frame, FrameModel, Record, RecordModel, XmlToken};

verus! {

/// A LUN that the kernel reports. The kernel may report other fields too,
/// which are ignored.
#[derive(Clone, Debug)]
pub struct Lun {
    pub id: u64,
    pub backend_type: Backend,
    pub lun_type: DeviceType,
    /// Device size in blocks.
    pub size: u64,
    /// Block size in bytes.
    pub blocksize: u32,
    pub serial_number: String,
    pub device_id: String,
    pub num_threads: Option<u32>,
    pub file: Option<String>,
    /// The daemon's name for the LUN, where the daemon made it.
    pub ctld_name: Option<String>,
}

/// The kernel's LUN list.
#[derive(Clone, Debug)]
pub struct Ctllunlist {
    /// Text directly inside the list, if any that is not white space.
    pub text: Option<String>,
    pub lun: Vec<Lun>,
}

/// A LUN that a target port maps.
#[derive(Clone, Debug)]
pub struct TargetLun {
    pub id: String,
    pub text: Option<String>,
}

/// A target port that the kernel reports; which of the optional fields are
/// there depends on the frontend.
#[derive(Clone, Debug)]
pub struct TargPort {
    pub id: String,
    pub text: Option<String>,
    pub frontend_type: String,
    pub port_type: String,
    pub online: String,
    pub port_name: String,
    pub physical_port: String,
    pub virtual_port: String,
    pub lun: Option<TargetLun>,
    pub lun_map: Option<String>,
    pub cfiscsi_portal_group_tag: Option<u16>,
    pub ctld_portal_group_name: Option<String>,
    pub cfiscsi_target: Option<String>,
    pub cfiscsi_state: Option<String>,
    pub port: Option<String>,
    pub target: Option<String>,
}

/// The kernel's port list.
#[derive(Clone, Debug)]
pub struct Ctlportlist {
    pub text: Option<String>,
    pub targ_port: Vec<TargPort>,
}


/// The view of an optional string.
pub open spec fn opt_view(o: Option<String>) -> Option<Seq<char>> {
    match o {
        Some(s) => Some(s@),
        None => None,
    }
}

/// Text that is white space alone counts as none.
pub open spec fn nonblank(t: Seq<char>) -> Option<Seq<char>> {
    if is_blank(t) { None } else { Some(t) }
}

/// The last field of a given name: a later field overrides an earlier one.
pub open spec fn last_field(fields: Seq<FieldModel>, name: Seq<char>) -> Option<FieldModel>
    decreases fields.len(),
{
    if fields.len() == 0 {
        None
    } else if fields.last().name == name {
        Some(fields.last())
    } else {
        last_field(fields.drop_last(), name)
    }
}

/// The value of the last attribute of a given name.
pub open spec fn last_attr(attrs: Seq<(Seq<char>, Seq<char>)>, key: Seq<char>) -> Option<Seq<char>>
    decreases attrs.len(),
{
    if attrs.len() == 0 {
        None
    } else if attrs.last().0 == key {
        Some(attrs.last().1)
    } else {
        last_attr(attrs.drop_last(), key)
    }
}

/// The text of a field, where the record has it.
pub open spec fn field_text_of(r: RecordModel, name: Seq<char>) -> Option<Seq<char>> {
    match last_field(r.fields, name) {
        Some(f) => Some(f.text),
        None => None,
    }
}

/// The text of a field, or the empty text where the record lacks it.
pub open spec fn text_or_empty(t: Option<Seq<char>>) -> Seq<char> {
    match t {
        Some(t) => t,
        None => Seq::empty(),
    }
}

/// An optional number is sound: absent, or a decimal of at most `max`.
pub open spec fn number_ok(t: Option<Seq<char>>, max: nat) -> bool {
    match t {
        Some(t) => bounded_decimal(t, max) is Some,
        None => true,
    }
}

/// The value of an optional number.
pub open spec fn number_of(t: Option<Seq<char>>, max: nat) -> Option<nat> {
    match t {
        Some(t) => bounded_decimal(t, max),
        None => None,
    }
}

/// The value of an optional number, or zero where it is absent.
pub open spec fn number_or_zero(t: Option<Seq<char>>, max: nat) -> nat {
    match number_of(t, max) {
        Some(v) => v,
        None => 0,
    }
}

/// Every value of a LUN record is of its kind.
pub open spec fn lun_record_ok(r: RecordModel) -> bool {
    &&& number_ok(last_attr(r.attrs, "id"@), u64::MAX as nat)
    &&& (field_text_of(r, "backend_type"@) matches Some(t) ==> backend_of_token(t) is Some)
    &&& (field_text_of(r, "lun_type"@) matches Some(t) ==> device_type_of_code(t) is Some)
    &&& number_ok(field_text_of(r, "size"@), u64::MAX as nat)
    &&& number_ok(field_text_of(r, "blocksize"@), u32::MAX as nat)
    &&& number_ok(field_text_of(r, "num_threads"@), u32::MAX as nat)
}

/// `l` is what a sound LUN record says: absent fields are zero, empty, the
/// first backend and device type, or absent.
pub open spec fn lun_from_record(r: RecordModel, l: Lun) -> bool {
    &&& l.id as nat == number_or_zero(last_attr(r.attrs, "id"@), u64::MAX as nat)
    &&& l.backend_type == (match field_text_of(r, "backend_type"@) {
        Some(t) => backend_of_token(t).unwrap(),
        None => Backend::Block,
    })
    &&& l.lun_type == (match field_text_of(r, "lun_type"@) {
        Some(t) => device_type_of_code(t).unwrap(),
        None => DeviceType::Disk,
    })
    &&& l.size as nat == number_or_zero(field_text_of(r, "size"@), u64::MAX as nat)
    &&& l.blocksize as nat == number_or_zero(field_text_of(r, "blocksize"@), u32::MAX as nat)
    &&& l.serial_number@ == text_or_empty(field_text_of(r, "serial_number"@))
    &&& l.device_id@ == text_or_empty(field_text_of(r, "device_id"@))
    &&& (match l.num_threads {
        Some(n) => number_of(field_text_of(r, "num_threads"@), u32::MAX as nat) == Some(n as nat),
        None => field_text_of(r, "num_threads"@) is None,
    })
    &&& opt_view(l.file) == field_text_of(r, "file"@)
    &&& opt_view(l.ctld_name) == field_text_of(r, "ctld_name"@)
}

/// `l` is the LUN list that a framed document says.
pub open spec fn lun_list_from(f: FrameModel, l: Ctllunlist) -> bool {
    &&& opt_view(l.text) == nonblank(f.text)
    &&& l.lun@.len() == f.records.len()
    &&& forall|i: int| 0 <= i < f.records.len() ==> lun_from_record(f.records[i], #[trigger] l.lun@[i])
}

/// Every record of a framed LUN list is sound.
pub open spec fn lun_records_ok(f: FrameModel) -> bool {
    forall|i: int| 0 <= i < f.records.len() ==> lun_record_ok(#[trigger] f.records[i])
}

/// Finds the last field of a given name.
fn find_field(fields: &Vec<Field>, name: &str) -> (r: Option<String>)
    ensures
        opt_view(r) == (match last_field(fields@.map_values(|f: Field| f@), name@) {
            Some(f) => Some(f.text),
            None => None,
        }),
{
    let mut i: usize = fields.len();
    assert(fields@.subrange(0, i as int) =~= fields@);
    while i > 0
        invariant
            0 <= i <= fields@.len(),
            last_field(fields@.map_values(|f: Field| f@), name@) == last_field(
                fields@.subrange(0, i as int).map_values(|f: Field| f@),
                name@,
            ),
        decreases i,
    {
        let ghost pre = fields@.subrange(0, i as int).map_values(|f: Field| f@);
        assert(pre.drop_last() =~= fields@.subrange(0, i - 1).map_values(|f: Field| f@));
        if str_eq(fields[i - 1].name.as_str(), name) {
            return Some(fields[i - 1].text.clone());
        }
        i -= 1;
    }
    assert(fields@.subrange(0, 0).map_values(|f: Field| f@) =~= Seq::<FieldModel>::empty());
    None
}

/// Finds the value of the last attribute of a given name.
fn find_attr(attrs: &Vec<(String, String)>, key: &str) -> (r: Option<String>)
    ensures
        opt_view(r) == last_attr(crate::text::pairs_view(attrs@), key@),
{
    let mut i: usize = attrs.len();
    assert(attrs@.subrange(0, i as int) =~= attrs@);
    while i > 0
        invariant
            0 <= i <= attrs@.len(),
            last_attr(crate::text::pairs_view(attrs@), key@) == last_attr(
                crate::text::pairs_view(attrs@.subrange(0, i as int)),
                key@,
            ),
        decreases i,
    {
        let ghost pre = crate::text::pairs_view(attrs@.subrange(0, i as int));
        assert(pre.drop_last() =~= crate::text::pairs_view(attrs@.subrange(0, i - 1)));
        if str_eq(attrs[i - 1].0.as_str(), key) {
            return Some(attrs[i - 1].1.clone());
        }
        i -= 1;
    }
    assert(crate::text::pairs_view(attrs@.subrange(0, 0)) =~= Seq::empty());
    None
}

/// The text, where it is not white space alone.
fn nonblank_text(t: &String) -> (r: Option<String>)
    ensures
        opt_view(r) == nonblank(t@),
{
    if blank(t.as_str()) { None } else { Some(t.clone()) }
}

fn bad_value(name: &str) -> (r: DecodeError)
    ensures
        r matches DecodeError::BadValue(n) && n@ == name@,
{
    DecodeError::BadValue(name.to_owned())
}

/// An optional `u64` field or attribute.
fn opt_u64(t: Option<String>, name: &str) -> (r: Result<Option<u64>, DecodeError>)
    ensures
        r is Ok <==> number_ok(opt_view(t), u64::MAX as nat),
        r matches Ok(v) ==> (match v {
            Some(v) => number_of(opt_view(t), u64::MAX as nat) == Some(v as nat),
            None => t is None,
        }),
{
    match t {
        Some(t) => match parse_u64(t.as_str()) {
            Some(v) => Ok(Some(v)),
            None => Err(bad_value(name)),
        },
        None => Ok(None),
    }
}

/// An optional `u32` field.
fn opt_u32(t: Option<String>, name: &str) -> (r: Result<Option<u32>, DecodeError>)
    ensures
        r is Ok <==> number_ok(opt_view(t), u32::MAX as nat),
        r matches Ok(v) ==> (match v {
            Some(v) => number_of(opt_view(t), u32::MAX as nat) == Some(v as nat),
            None => t is None,
        }),
{
    match t {
        Some(t) => match parse_u32(t.as_str()) {
            Some(v) => Ok(Some(v)),
            None => Err(bad_value(name)),
        },
        None => Ok(None),
    }
}

/// An optional `u16` field.
fn opt_u16(t: Option<String>, name: &str) -> (r: Result<Option<u16>, DecodeError>)
    ensures
        r is Ok <==> number_ok(opt_view(t), u16::MAX as nat),
        r matches Ok(v) ==> (match v {
            Some(v) => number_of(opt_view(t), u16::MAX as nat) == Some(v as nat),
            None => t is None,
        }),
{
    match t {
        Some(t) => match parse_u16(t.as_str()) {
            Some(v) => Ok(Some(v)),
            None => Err(bad_value(name)),
        },
        None => Ok(None),
    }
}

fn or_empty(t: Option<String>) -> (r: String)
    ensures
        r@ == text_or_empty(opt_view(t)),
{
    match t {
        Some(t) => t,
        None => String::new(),
    }
}

impl Lun {
    /// The LUN that a record of the kernel's LUN list describes.
    pub fn from_record(rec: &Record) -> (r: Result<Lun, DecodeError>)
        ensures
            r is Ok <==> lun_record_ok(rec@),
            r matches Ok(l) ==> lun_from_record(rec@, l),
    {
        let ghost fv = rec@.fields;
        let id = match opt_u64(find_attr(&rec.attrs, "id"), "id") {
            Ok(v) => match v {
                Some(v) => v,
                None => 0,
            },
            Err(e) => return Err(e),
        };
        let backend_type = match find_field(&rec.fields, "backend_type") {
            Some(t) => match Backend::from_token(t.as_str()) {
                Some(b) => b,
                None => return Err(bad_value("backend_type")),
            },
            None => Backend::Block,
        };
        let lun_type = match find_field(&rec.fields, "lun_type") {
            Some(t) => match DeviceType::from_code(t.as_str()) {
                Some(d) => d,
                None => return Err(bad_value("lun_type")),
            },
            None => DeviceType::Disk,
        };
        let size = match opt_u64(find_field(&rec.fields, "size"), "size") {
            Ok(v) => match v {
                Some(v) => v,
                None => 0,
            },
            Err(e) => return Err(e),
        };
        let blocksize = match opt_u32(find_field(&rec.fields, "blocksize"), "blocksize") {
            Ok(v) => match v {
                Some(v) => v,
                None => 0,
            },
            Err(e) => return Err(e),
        };
        let num_threads = match opt_u32(find_field(&rec.fields, "num_threads"), "num_threads") {
            Ok(v) => v,
            Err(e) => return Err(e),
        };
        Ok(Lun {
            id,
            backend_type,
            lun_type,
            size,
            blocksize,
            serial_number: or_empty(find_field(&rec.fields, "serial_number")),
            device_id: or_empty(find_field(&rec.fields, "device_id")),
            num_threads,
            file: find_field(&rec.fields, "file"),
            ctld_name: find_field(&rec.fields, "ctld_name"),
        })
    }
}


impl Ctllunlist {
    /// The LUN list that a framed document describes.
    pub fn from_frame(f: &Frame) -> (r: Result<Ctllunlist, DecodeError>)
        ensures
            r is Ok <==> lun_records_ok(f@),
            r matches Ok(l) ==> lun_list_from(f@, l),
    {
        let mut lun: Vec<Lun> = Vec::new();
        let mut i: usize = 0;
        while i < f.records.len()
            invariant
                0 <= i <= f.records@.len(),
                lun@.len() == i,
                forall|j: int| 0 <= j < i ==> lun_record_ok(#[trigger] f@.records[j]),
                forall|j: int| 0 <= j < i ==> lun_from_record(f@.records[j], #[trigger] lun@[j]),
            decreases f.records@.len() - i,
        {
            assert(f@.records[i as int] == f.records@[i as int]@);
            match Lun::from_record(&f.records[i]) {
                Ok(l) => lun.push(l),
                Err(e) => return Err(e),
            }
            i += 1;
        }
        Ok(Ctllunlist { text: nonblank_text(&f.text), lun })
    }

    /// The LUN list that a document's tokens describe: its root element is
    /// `ctllunlist` and its records are `lun` elements.
    pub fn from_tokens(toks: Vec<XmlToken>) -> (r: Result<Ctllunlist, DecodeError>)
        ensures
            r is Ok <==> (frame_of("ctllunlist"@, "lun"@, tokens_view(toks@)) matches Some(f) && lun_records_ok(f)),
            r matches Ok(l) ==> (frame_of("ctllunlist"@, "lun"@, tokens_view(toks@)) matches Some(f) && lun_list_from(f, l)),
            frame_of("ctllunlist"@, "lun"@, tokens_view(toks@)) is None ==> r == Err::<Ctllunlist, _>(DecodeError::Malformed),
    {
        match frame("ctllunlist", "lun", toks) {
            Some(f) => Ctllunlist::from_frame(&f),
            None => Err(DecodeError::Malformed),
        }
    }
}

/// Every value of a target port record is of its kind.
pub open spec fn port_record_ok(r: RecordModel) -> bool {
    number_ok(field_text_of(r, "cfiscsi_portal_group_tag"@), u16::MAX as nat)
}

/// `t` is the LUN that a port's `lun` field names, if it has one.
pub open spec fn target_lun_from(f: Option<FieldModel>, t: Option<TargetLun>) -> bool {
    match f {
        Some(f) => t matches Some(t) && t.id@ == text_or_empty(last_attr(f.attrs, "id"@)) && opt_view(t.text)
            == nonblank(f.text),
        None => t is None,
    }
}

/// `p` is what a sound target port record says: absent text fields are
/// empty or absent.
pub open spec fn port_from_record(r: RecordModel, p: TargPort) -> bool {
    &&& p.id@ == text_or_empty(last_attr(r.attrs, "id"@))
    &&& opt_view(p.text) == nonblank(r.text)
    &&& p.frontend_type@ == text_or_empty(field_text_of(r, "frontend_type"@))
    &&& p.port_type@ == text_or_empty(field_text_of(r, "port_type"@))
    &&& p.online@ == text_or_empty(field_text_of(r, "online"@))
    &&& p.port_name@ == text_or_empty(field_text_of(r, "port_name"@))
    &&& p.physical_port@ == text_or_empty(field_text_of(r, "physical_port"@))
    &&& p.virtual_port@ == text_or_empty(field_text_of(r, "virtual_port"@))
    &&& target_lun_from(last_field(r.fields, "lun"@), p.lun)
    &&& opt_view(p.lun_map) == field_text_of(r, "lun_map"@)
    &&& (match p.cfiscsi_portal_group_tag {
        Some(t) => number_of(field_text_of(r, "cfiscsi_portal_group_tag"@), u16::MAX as nat) == Some(t as nat),
        None => field_text_of(r, "cfiscsi_portal_group_tag"@) is None,
    })
    &&& opt_view(p.ctld_portal_group_name) == field_text_of(r, "ctld_portal_group_name"@)
    &&& opt_view(p.cfiscsi_target) == field_text_of(r, "cfiscsi_target"@)
    &&& opt_view(p.cfiscsi_state) == field_text_of(r, "cfiscsi_state"@)
    &&& opt_view(p.port) == field_text_of(r, "port"@)
    &&& opt_view(p.target) == field_text_of(r, "target"@)
}

/// `l` is the port list that a framed document says.
pub open spec fn port_list_from(f: FrameModel, l: Ctlportlist) -> bool {
    &&& opt_view(l.text) == nonblank(f.text)
    &&& l.targ_port@.len() == f.records.len()
    &&& forall|i: int| 0 <= i < f.records.len() ==> port_from_record(f.records[i], #[trigger] l.targ_port@[i])
}

/// Every record of a framed port list is sound.
pub open spec fn port_records_ok(f: FrameModel) -> bool {
    forall|i: int| 0 <= i < f.records.len() ==> port_record_ok(#[trigger] f.records[i])
}

/// Finds the last field of a given name, whole.
fn find_whole_field<'a>(fields: &'a Vec<Field>, name: &str) -> (r: Option<&'a Field>)
    ensures
        match r {
            Some(f) => last_field(fields@.map_values(|f: Field| f@), name@) == Some(f@),
            None => last_field(fields@.map_values(|f: Field| f@), name@) is None,
        },
{
    let mut i: usize = fields.len();
    assert(fields@.subrange(0, i as int) =~= fields@);
    while i > 0
        invariant
            0 <= i <= fields@.len(),
            last_field(fields@.map_values(|f: Field| f@), name@) == last_field(
                fields@.subrange(0, i as int).map_values(|f: Field| f@),
                name@,
            ),
        decreases i,
    {
        let ghost pre = fields@.subrange(0, i as int).map_values(|f: Field| f@);
        assert(pre.drop_last() =~= fields@.subrange(0, i - 1).map_values(|f: Field| f@));
        if str_eq(fields[i - 1].name.as_str(), name) {
            return Some(&fields[i - 1]);
        }
        i -= 1;
    }
    assert(fields@.subrange(0, 0).map_values(|f: Field| f@) =~= Seq::<FieldModel>::empty());
    None
}

impl Ctllunlist {
    /// Reads the kernel's LUN list from its XML: the list that the document's
    /// tokens describe.
    pub fn from_xml(xml: &str) -> (r: Result<Ctllunlist, DecodeError>)
        ensures
            r is Ok <==> (document_tokens(xml@) matches Some(t) && frame_of("ctllunlist"@, "lun"@, t) matches Some(f)
                && lun_records_ok(f)),
            r matches Ok(l) ==> (document_tokens(xml@) matches Some(t) && frame_of("ctllunlist"@, "lun"@, t) matches Some(f)
                && lun_list_from(f, l)),
    {
        match read_tokens(xml) {
            Ok(toks) => Ctllunlist::from_tokens(toks),
            Err(e) => Err(e),
        }
    }
}

impl TargPort {
    /// The target port that a record of the kernel's port list describes.
    pub fn from_record(rec: &Record) -> (r: Result<TargPort, DecodeError>)
        ensures
            r is Ok <==> port_record_ok(rec@),
            r matches Ok(p) ==> port_from_record(rec@, p),
    {
        let tag = match opt_u16(find_field(&rec.fields, "cfiscsi_portal_group_tag"), "cfiscsi_portal_group_tag") {
            Ok(v) => v,
            Err(e) => return Err(e),
        };
        let lun = match find_whole_field(&rec.fields, "lun") {
            Some(f) => Some(TargetLun { id: or_empty(find_attr(&f.attrs, "id")), text: nonblank_text(&f.text) }),
            None => None,
        };
        Ok(TargPort {
            id: or_empty(find_attr(&rec.attrs, "id")),
            text: nonblank_text(&rec.text),
            frontend_type: or_empty(find_field(&rec.fields, "frontend_type")),
            port_type: or_empty(find_field(&rec.fields, "port_type")),
            online: or_empty(find_field(&rec.fields, "online")),
            port_name: or_empty(find_field(&rec.fields, "port_name")),
            physical_port: or_empty(find_field(&rec.fields, "physical_port")),
            virtual_port: or_empty(find_field(&rec.fields, "virtual_port")),
            lun,
            lun_map: find_field(&rec.fields, "lun_map"),
            cfiscsi_portal_group_tag: tag,
            ctld_portal_group_name: find_field(&rec.fields, "ctld_portal_group_name"),
            cfiscsi_target: find_field(&rec.fields, "cfiscsi_target"),
            cfiscsi_state: find_field(&rec.fields, "cfiscsi_state"),
            port: find_field(&rec.fields, "port"),
            target: find_field(&rec.fields, "target"),
        })
    }
}

impl Ctlportlist {
    /// The port list that a framed document describes.
    pub fn from_frame(f: &Frame) -> (r: Result<Ctlportlist, DecodeError>)
        ensures
            r is Ok <==> port_records_ok(f@),
            r matches Ok(l) ==> port_list_from(f@, l),
    {
        let mut targ_port: Vec<TargPort> = Vec::new();
        let mut i: usize = 0;
        while i < f.records.len()
            invariant
                0 <= i <= f.records@.len(),
                targ_port@.len() == i,
                forall|j: int| 0 <= j < i ==> port_record_ok(#[trigger] f@.records[j]),
                forall|j: int| 0 <= j < i ==> port_from_record(f@.records[j], #[trigger] targ_port@[j]),
            decreases f.records@.len() - i,
        {
            assert(f@.records[i as int] == f.records@[i as int]@);
            match TargPort::from_record(&f.records[i]) {
                Ok(p) => targ_port.push(p),
                Err(e) => return Err(e),
            }
            i += 1;
        }
        Ok(Ctlportlist { text: nonblank_text(&f.text), targ_port })
    }

    /// The port list that a document's tokens describe: its root element is
    /// `ctlportlist` and its records are `targ_port` elements.
    pub fn from_tokens(toks: Vec<XmlToken>) -> (r: Result<Ctlportlist, DecodeError>)
        ensures
            r is Ok <==> (frame_of("ctlportlist"@, "targ_port"@, tokens_view(toks@)) matches Some(f) && port_records_ok(f)),
            r matches Ok(l) ==> (frame_of("ctlportlist"@, "targ_port"@, tokens_view(toks@)) matches Some(f) && port_list_from(f, l)),
            frame_of("ctlportlist"@, "targ_port"@, tokens_view(toks@)) is None ==> r == Err::<Ctlportlist, _>(DecodeError::Malformed),
    {
        match frame("ctlportlist", "targ_port", toks) {
            Some(f) => Ctlportlist::from_frame(&f),
            None => Err(DecodeError::Malformed),
        }
    }

    /// Reads the kernel's port list from its XML: the list that the
    /// document's tokens describe.
    pub fn from_xml(xml: &str) -> (r: Result<Ctlportlist, DecodeError>)
        ensures
            r is Ok <==> (document_tokens(xml@) matches Some(t) && frame_of("ctlportlist"@, "targ_port"@, t) matches Some(f)
                && port_records_ok(f)),
            r matches Ok(l) ==> (document_tokens(xml@) matches Some(t) && frame_of("ctlportlist"@, "targ_port"@, t)
                matches Some(f) && port_list_from(f, l)),
    {
        match read_tokens(xml) {
            Ok(toks) => Ctlportlist::from_tokens(toks),
            Err(e) => Err(e),
        }
    }
}

} // verus!
