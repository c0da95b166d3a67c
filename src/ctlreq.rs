//! The kernel's LUN request record in native form: what is sent to create or
//! remove a LUN, built field by field, with nothing left to a zeroed memory
//! image.

use vstd::prelude::*;
use vstd::utf8::encode_utf8;
use crate::conf::{backend_token, device_type_code, Backend, Lun};

verus! {

/// Size of the NUL-padded backend name.
pub const BACKEND_NAME_LEN: usize = 32;
/// Size of the NUL-padded serial number.
pub const SERIAL_NUM_LEN: usize = 16;
/// Size of the NUL-padded device identifier.
pub const DEVICE_ID_LEN: usize = 64;

/// The request asks for the LUN id it carries.
pub const LUN_FLAG_ID_REQ: u32 = 0x01;
/// The request carries a serial number.
pub const LUN_FLAG_SERIAL_NUM: u32 = 0x10;
/// The request carries a device identifier.
pub const LUN_FLAG_DEVID: u32 = 0x20;
/// The request carries a device type.
pub const LUN_FLAG_DEV_TYPE: u32 = 0x40;

/// The status the kernel writes back when a request succeeded.
pub const LUN_STATUS_OK: u32 = 0;
/// The status the kernel writes back when a request failed.
pub const LUN_STATUS_ERROR: u32 = 1;
/// The status the kernel writes back when a request succeeded with a warning.
pub const LUN_STATUS_WARNING: u32 = 2;

/// What a LUN request asks for.
#[derive(Clone, Copy, Debug, PartialEq, Eq, Structural)]
pub enum LunReqType {
    Create,
    Remove,
}

impl LunReqType {
    /// The kernel's number for the request type.
    pub fn code(&self) -> (r: u32)
        ensures
            r == (match *self {
                LunReqType::Create => 0u32,
                LunReqType::Remove => 1u32,
            }),
    {
        match self {
            LunReqType::Create => 0,
            LunReqType::Remove => 1,
        }
    }
}

/// The part of a create request that describes the new LUN.
#[derive(Clone, Debug)]
pub struct CreateParams {
    pub blocksize_bytes: u32,
    pub lun_size_bytes: u64,
    pub req_lun_id: u32,
    pub flags: u32,
    pub device_type: u8,
    /// `SERIAL_NUM_LEN` bytes.
    pub serial_num: Vec<u8>,
    /// `DEVICE_ID_LEN` bytes.
    pub device_id: Vec<u8>,
}

/// The part of a request that depends on its type.
#[derive(Clone, Debug)]
pub enum LunReqData {
    Create(CreateParams),
    Remove { lun_id: u32 },
}

/// A LUN request as the kernel reads it and writes its status back.
#[derive(Clone, Debug)]
pub struct LunReq {
    /// `BACKEND_NAME_LEN` bytes: the backend's name, NUL-padded.
    pub backend: Vec<u8>,
    pub reqtype: LunReqType,
    pub reqdata: LunReqData,
    /// The packed name-value list of backend options.
    pub args: Vec<u8>,
    /// Written by the kernel.
    pub status: u32,
}

/// A field of `cap` bytes that holds as much of `src` as fits while leaving
/// room for a terminating NUL, and NUL bytes after it.
pub open spec fn nul_padded(src: Seq<u8>, cap: nat) -> Seq<u8> {
    Seq::new(cap, |i: int| if i < src.len() && i < cap - 1 { src[i] } else { 0u8 })
}

/// How many bytes of `src` a NUL-padded field of `cap` bytes keeps.
pub open spec fn kept_len(src: Seq<u8>, cap: nat) -> nat {
    if src.len() < cap - 1 { src.len() } else { (cap - 1) as nat }
}

/// The flags of a create request, from whether an id is asked for and
/// whether a serial number is given.
pub open spec fn create_flags(id_requested: bool, has_serial: bool) -> u32 {
    (if id_requested { LUN_FLAG_ID_REQ } else { 0u32 }) | LUN_FLAG_DEV_TYPE | (if has_serial {
        LUN_FLAG_SERIAL_NUM
    } else {
        0u32
    }) | LUN_FLAG_DEVID
}

/// The backend field of a request for the given backend.
pub open spec fn backend_field(b: Backend) -> Seq<u8> {
    nul_padded(encode_utf8(backend_token(b)), BACKEND_NAME_LEN as nat)
}

/// The serial number field of a create request.
pub open spec fn serial_field(serial: Option<String>) -> Seq<u8> {
    match serial {
        Some(s) => nul_padded(encode_utf8(s@), SERIAL_NUM_LEN as nat),
        None => nul_padded(Seq::empty(), SERIAL_NUM_LEN as nat),
    }
}

/// The device identifier field of a create request.
pub open spec fn device_id_field(device_id: Seq<char>) -> Seq<u8> {
    nul_padded(encode_utf8(device_id), DEVICE_ID_LEN as nat)
}

/// The create parameters that describe `lun`.
pub open spec fn create_params_describe(p: CreateParams, lun: Lun) -> bool {
    &&& p.blocksize_bytes == (match lun.blocksize {
        Some(b) => b,
        None => 0u32,
    })
    &&& p.lun_size_bytes == (match lun.size {
        Some(s) => s,
        None => 0u64,
    })
    &&& p.req_lun_id == (match lun.ctl_lun {
        Some(id) => id,
        None => 0u32,
    })
    &&& p.flags == create_flags(lun.ctl_lun is Some, lun.serial is Some)
    &&& p.device_type == device_type_code(lun.device_type)
    &&& p.serial_num@ == serial_field(lun.serial)
    &&& p.device_id@ == device_id_field(lun.device_id@)
}

/// The flags of a create request hold the id-requested bit exactly when an
/// id is asked for, the serial bit exactly when a serial number is given, the
/// device type and device identifier bits always, and no other bit.
pub proof fn lemma_create_flags(id_requested: bool, has_serial: bool)
    ensures
        (create_flags(id_requested, has_serial) & LUN_FLAG_ID_REQ != 0) == id_requested,
        (create_flags(id_requested, has_serial) & LUN_FLAG_SERIAL_NUM != 0) == has_serial,
        create_flags(id_requested, has_serial) & LUN_FLAG_DEV_TYPE != 0,
        create_flags(id_requested, has_serial) & LUN_FLAG_DEVID != 0,
        create_flags(id_requested, has_serial) & !(LUN_FLAG_ID_REQ | LUN_FLAG_SERIAL_NUM | LUN_FLAG_DEV_TYPE
            | LUN_FLAG_DEVID) == 0,
{
    let f = create_flags(id_requested, has_serial);
    let a: u32 = if id_requested { 1 } else { 0 };
    let b: u32 = if has_serial { 0x10 } else { 0 };
    assert(f == a | 0x40u32 | b | 0x20u32);
    assert((a | 0x40u32 | b | 0x20u32) & 1u32 == a & 1u32 && (a | 0x40u32 | b | 0x20u32) & 0x10u32 == b & 0x10u32
        && (a | 0x40u32 | b | 0x20u32) & 0x40u32 != 0 && (a | 0x40u32 | b | 0x20u32) & 0x20u32 != 0
        && (a | 0x40u32 | b | 0x20u32) & !(1u32 | 0x10u32 | 0x40u32 | 0x20u32) == 0) by (bit_vector)
        requires
            a == 0 || a == 1,
            b == 0 || b == 0x10,
    ;
    assert(a & 1u32 == a && b & 0x10u32 == b) by (bit_vector)
        requires
            a == 0 || a == 1,
            b == 0 || b == 0x10,
    ;
}

/// A NUL-padded field is exactly `cap` bytes long, begins with as much of
/// `src` as fits before a terminating NUL, and holds NUL bytes after it.
pub proof fn lemma_nul_padded(src: Seq<u8>, cap: nat)
    requires
        cap >= 1,
    ensures
        nul_padded(src, cap).len() == cap,
        kept_len(src, cap) < cap,
        nul_padded(src, cap).subrange(0, kept_len(src, cap) as int) == src.subrange(0, kept_len(src, cap) as int),
        nul_padded(src, cap)[kept_len(src, cap) as int] == 0u8,
        forall|i: int| kept_len(src, cap) <= i < cap ==> #[trigger] nul_padded(src, cap)[i] == 0u8,
        src.len() < cap ==> kept_len(src, cap) == src.len(),
{
    let k = kept_len(src, cap);
    assert(nul_padded(src, cap).subrange(0, k as int) =~= src.subrange(0, k as int));
}

/// Copies `src` into a NUL-padded field of `cap` bytes.
pub fn nul_padded_field(src: &[u8], cap: usize) -> (r: Vec<u8>)
    requires
        cap >= 1,
    ensures
        r@ == nul_padded(src@, cap as nat),
{
    let mut r: Vec<u8> = Vec::with_capacity(cap);
    let mut i: usize = 0;
    while i < cap
        invariant
            0 <= i <= cap,
            cap >= 1,
            r@.len() == i,
            forall|j: int| 0 <= j < i ==> r@[j] == nul_padded(src@, cap as nat)[j],
        decreases cap - i,
    {
        if i < src.len() && i < cap - 1 {
            r.push(src[i]);
        } else {
            r.push(0u8);
        }
        i += 1;
    }
    assert(r@ =~= nul_padded(src@, cap as nat));
    r
}

impl LunReq {
    /// The request that creates `lun`, with `args` as its packed options.
    pub fn create(lun: &Lun, args: Vec<u8>) -> (r: LunReq)
        ensures
            r.backend@ == backend_field(lun.backend),
            r.reqtype == LunReqType::Create,
            r.reqdata matches LunReqData::Create(p) && create_params_describe(p, *lun),
            r.args@ == args@,
            r.status == LUN_STATUS_OK,
    {
        let backend = nul_padded_field(lun.backend.as_str().as_bytes(), BACKEND_NAME_LEN);
        let req_lun_id: u32 = match lun.ctl_lun {
            Some(id) => id,
            None => 0,
        };
        let id_flag: u32 = if lun.ctl_lun.is_some() { LUN_FLAG_ID_REQ } else { 0 };
        let serial_num = match &lun.serial {
            Some(s) => nul_padded_field(s.as_str().as_bytes(), SERIAL_NUM_LEN),
            None => nul_padded_field(&[], SERIAL_NUM_LEN),
        };
        let serial_flag: u32 = if lun.serial.is_some() { LUN_FLAG_SERIAL_NUM } else { 0 };
        let flags: u32 = id_flag | LUN_FLAG_DEV_TYPE | serial_flag | LUN_FLAG_DEVID;
        let device_id = nul_padded_field(lun.device_id.as_str().as_bytes(), DEVICE_ID_LEN);
        let params = CreateParams {
            blocksize_bytes: match lun.blocksize {
                Some(b) => b,
                None => 0,
            },
            lun_size_bytes: match lun.size {
                Some(s) => s,
                None => 0,
            },
            req_lun_id,
            flags,
            device_type: lun.device_type.code(),
            serial_num,
            device_id,
        };
        assert(params.flags == create_flags(lun.ctl_lun is Some, lun.serial is Some));
        assert(params.serial_num@ == serial_field(lun.serial));
        assert(params.device_id@ == device_id_field(lun.device_id@));
        assert(params.device_type == device_type_code(lun.device_type));
        LunReq {
            backend,
            reqtype: LunReqType::Create,
            reqdata: LunReqData::Create(params),
            args,
            status: LUN_STATUS_OK,
        }
    }

    /// The request that removes the LUN `id` of `backend`.
    pub fn remove(backend: Backend, id: u32) -> (r: LunReq)
        ensures
            r.backend@ == backend_field(backend),
            r.reqtype == LunReqType::Remove,
            r.reqdata == (LunReqData::Remove { lun_id: id }),
            r.args@.len() == 0,
            r.status == LUN_STATUS_OK,
    {
        LunReq {
            backend: nul_padded_field(backend.as_str().as_bytes(), BACKEND_NAME_LEN),
            reqtype: LunReqType::Remove,
            reqdata: LunReqData::Remove { lun_id: id },
            args: Vec::new(),
            status: LUN_STATUS_OK,
        }
    }
}

} // verus!
