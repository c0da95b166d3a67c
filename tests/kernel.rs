use ctld::conf::{Backend, DeviceType, Lun};
use ctld::ctlreq::{
    nul_padded_field, LunReq, LunReqData, LunReqType, DEVICE_ID_LEN, LUN_FLAG_DEVID, LUN_FLAG_DEV_TYPE,
    LUN_FLAG_ID_REQ, LUN_FLAG_SERIAL_NUM, LUN_STATUS_ERROR, LUN_STATUS_OK, SERIAL_NUM_LEN,
};
use ctld::kernel::{self, LunReqError};
use ctld::options::option_pairs;

fn ramdisk_lun() -> Lun {
    Lun {
        backend: Backend::Ramdisk,
        blocksize: Some(2048),
        ctl_lun: Some(0),
        device_id: String::from("ramdisk0"),
        device_type: DeviceType::Disk,
        options: Vec::new(),
        path: String::new(),
        serial: None,
        size: Some(131072),
    }
}

fn params(req: &LunReq) -> &ctld::ctlreq::CreateParams {
    match &req.reqdata {
        LunReqData::Create(p) => p,
        LunReqData::Remove { .. } => panic!("not a create request"),
    }
}

/// Add the simplest possible LUN. Test that we pass a correctly formatted request to the
/// kernel.
#[test]
fn basic() {
    let lun = ramdisk_lun();
    let req = LunReq::create(&lun, Vec::new());
    let flags = LUN_FLAG_ID_REQ | LUN_FLAG_DEV_TYPE | LUN_FLAG_DEVID;
    assert_eq!(req.backend[0..8], b"ramdisk\0"[0..8]);
    assert_eq!(req.reqtype, LunReqType::Create);
    let p = params(&req);
    assert_eq!(p.flags, flags);
    assert_eq!(p.device_type, 0);
    assert_eq!(p.lun_size_bytes, 131072);
    assert_eq!(p.blocksize_bytes, 2048);
    assert_eq!(p.device_id[0..9], b"ramdisk0\0"[0..9]);
    let pairs = option_pairs("foo", &lun);
    assert_eq!(pairs[1], (String::from("ctld_name"), String::from("foo")));
}

/// Remove a LUN. Test that we pass a correctly formatted request to the kernel.
#[test]
fn ok() {
    let req = LunReq::remove(Backend::Ramdisk, 42);
    assert_eq!(req.backend[0..8], b"ramdisk\0"[0..8]);
    assert_eq!(req.reqtype, LunReqType::Remove);
    match req.reqdata {
        LunReqData::Remove { lun_id } => assert_eq!(lun_id, 42),
        LunReqData::Create(_) => panic!("not a remove request"),
    }
}

#[test]
fn flags_follow_optional_fields() {
    for (id, serial) in [(None, None), (Some(5), None), (None, Some("S1")), (Some(5), Some("S1"))] {
        let mut lun = ramdisk_lun();
        lun.ctl_lun = id;
        lun.serial = serial.map(String::from);
        let req = LunReq::create(&lun, Vec::new());
        let p = params(&req);
        assert_eq!(p.flags & LUN_FLAG_ID_REQ != 0, id.is_some());
        assert_eq!(p.flags & LUN_FLAG_SERIAL_NUM != 0, serial.is_some());
        assert_ne!(p.flags & LUN_FLAG_DEV_TYPE, 0);
        assert_ne!(p.flags & LUN_FLAG_DEVID, 0);
        assert_eq!(p.flags & !(LUN_FLAG_ID_REQ | LUN_FLAG_SERIAL_NUM | LUN_FLAG_DEV_TYPE | LUN_FLAG_DEVID), 0);
        assert_eq!(p.req_lun_id, id.unwrap_or(0));
    }
}

#[test]
fn absent_size_and_blocksize_are_zero() {
    let mut lun = ramdisk_lun();
    lun.backend = Backend::Block;
    lun.size = None;
    lun.blocksize = None;
    lun.device_type = DeviceType::Cd;
    let req = LunReq::create(&lun, vec![1, 2, 3]);
    assert_eq!(&req.backend[0..6], b"block\0");
    assert_eq!(req.backend.len(), 32);
    assert_eq!(req.args, vec![1, 2, 3]);
    let p = params(&req);
    assert_eq!(p.lun_size_bytes, 0);
    assert_eq!(p.blocksize_bytes, 0);
    assert_eq!(p.device_type, 5);
}

#[test]
fn serial_fits_with_terminating_nul() {
    for n in [0usize, 1, 14, 15, 16, 17, 40] {
        let s: String = "0123456789abcdefghijklmnopqrstuvwxyz0123".chars().take(n).collect();
        let mut lun = ramdisk_lun();
        lun.serial = Some(s.clone());
        let req = LunReq::create(&lun, Vec::new());
        let p = params(&req);
        assert_eq!(p.serial_num.len(), SERIAL_NUM_LEN);
        let kept = n.min(SERIAL_NUM_LEN - 1);
        assert_eq!(&p.serial_num[..kept], &s.as_bytes()[..kept]);
        assert!(p.serial_num[kept..].iter().all(|b| *b == 0));
    }
}

#[test]
fn device_id_fits_with_terminating_nul() {
    for n in [62usize, 63, 64, 65, 100] {
        let s = "d".repeat(n);
        let mut lun = ramdisk_lun();
        lun.device_id = s.clone();
        let req = LunReq::create(&lun, Vec::new());
        let p = params(&req);
        assert_eq!(p.device_id.len(), DEVICE_ID_LEN);
        let kept = n.min(DEVICE_ID_LEN - 1);
        assert_eq!(&p.device_id[..kept], &s.as_bytes()[..kept]);
        assert_eq!(p.device_id[kept], 0);
    }
}

#[test]
fn multibyte_device_id_is_copied_as_utf8() {
    let mut lun = ramdisk_lun();
    lun.device_id = String::from("dé");
    let req = LunReq::create(&lun, Vec::new());
    assert_eq!(&params(&req).device_id[0..4], &[b'd', 0xc3, 0xa9, 0]);
}

#[test]
fn nul_padded_field_of_one_byte_is_a_nul() {
    assert_eq!(nul_padded_field(b"abc", 1), vec![0]);
    assert_eq!(nul_padded_field(b"abc", 5), vec![b'a', b'b', b'c', 0, 0]);
}

#[test]
fn handle_from_reply_and_removal() {
    let lun = ramdisk_lun();
    let mut reply = LunReq::create(&lun, Vec::new());
    if let LunReqData::Create(p) = &mut reply.reqdata {
        p.req_lun_id = 42;
    }
    reply.status = LUN_STATUS_OK;
    let h = kernel::Lun::create(Backend::Ramdisk, &reply).unwrap();
    assert_eq!(h.backend(), Backend::Ramdisk);
    assert_eq!(h.id(), 42);
    let rm = h.remove_request();
    assert_eq!(rm.backend, LunReq::remove(Backend::Ramdisk, 42).backend);
    assert_eq!(rm.reqtype, LunReqType::Remove);
    assert!(matches!(rm.reqdata, LunReqData::Remove { lun_id: 42 }));
    assert!(rm.args.is_empty());
}

#[test]
fn failed_create_carries_status() {
    let mut reply = LunReq::create(&ramdisk_lun(), Vec::new());
    reply.status = LUN_STATUS_ERROR;
    assert_eq!(kernel::Lun::create(Backend::Ramdisk, &reply).unwrap_err(), LunReqError::Status(LUN_STATUS_ERROR));
    let rm = LunReq::remove(Backend::Block, 1);
    assert_eq!(kernel::Lun::create(Backend::Block, &rm).unwrap_err(), LunReqError::NotCreate);
}

#[test]
fn removal_reply_status() {
    let mut rm = LunReq::remove(Backend::Block, 1);
    assert_eq!(kernel::Lun::removed(&rm), Ok(()));
    rm.status = 2;
    assert_eq!(kernel::Lun::removed(&rm), Err(LunReqError::Status(2)));
}

#[test]
fn reserved_options_are_not_shadowed() {
    let mut lun = ramdisk_lun();
    lun.path = String::from("/dev/zvol/tank/lun0");
    lun.options = vec![
        (String::from("file"), String::from("/elsewhere")),
        (String::from("vendor"), String::from("FreeBSD")),
        (String::from("ctld_name"), String::from("other")),
        (String::from("readonly"), String::from("on")),
    ];
    let pairs = option_pairs("lun0", &lun);
    assert_eq!(
        pairs,
        vec![
            (String::from("file"), String::from("/dev/zvol/tank/lun0")),
            (String::from("ctld_name"), String::from("lun0")),
            (String::from("vendor"), String::from("FreeBSD")),
            (String::from("readonly"), String::from("on")),
        ]
    );
}
