use ctld::listing::{
    ListError, ListFetch, ListKind, ListReply, ListStep, INITIAL_LIST_LEN, LIST_STATUS_ERROR,
    LIST_STATUS_NEED_MORE_SPACE, LIST_STATUS_NONE, LIST_STATUS_OK,
};

fn reply(status: u32, payload: &[u8]) -> ListReply {
    let mut data = payload.to_vec();
    data.push(0);
    let fill_len = data.len() as u32;
    data.resize(4096, 0);
    ListReply { status, fill_len, data, error_str: vec![0; 160] }
}

/// Drives a read against canned replies; returns the calls made and the end.
fn drive(kind: ListKind, replies: Vec<ListReply>) -> (Vec<u32>, ListStep) {
    let mut fetch = ListFetch::new(kind);
    let mut calls = vec![fetch.request().alloc_len];
    for r in replies.iter() {
        match fetch.on_reply(r) {
            ListStep::Again(req) => {
                assert_eq!(req.kind, kind);
                assert_eq!(req.status, LIST_STATUS_NONE);
                calls.push(req.alloc_len);
            }
            end => return (calls, end),
        }
    }
    panic!("replies ran out");
}

#[test]
fn first_call_offers_initial_buffer() {
    let f = ListFetch::new(ListKind::Luns);
    let req = f.request();
    assert_eq!(req.alloc_len, 4096);
    assert_eq!(req.alloc_len, INITIAL_LIST_LEN);
    assert_eq!(req.status, LIST_STATUS_NONE);
    assert_eq!(req.kind, ListKind::Luns);
}

#[test]
fn need_more_space_doubles_until_ok() {
    let xml = b"<ctllunlist></ctllunlist>";
    let replies = vec![
        reply(LIST_STATUS_NEED_MORE_SPACE, b""),
        reply(LIST_STATUS_NEED_MORE_SPACE, b""),
        reply(LIST_STATUS_NEED_MORE_SPACE, b""),
        reply(LIST_STATUS_OK, xml),
    ];
    let (calls, end) = drive(ListKind::Ports, replies);
    assert_eq!(calls, vec![4096, 8192, 16384, 32768]);
    match end {
        ListStep::Done(s) => assert_eq!(s, "<ctllunlist></ctllunlist>"),
        other => panic!("unexpected {:?}", other),
    }
}

#[test]
fn ok_at_once_is_one_call() {
    let (calls, end) = drive(ListKind::Luns, vec![reply(LIST_STATUS_OK, b"<a/>")]);
    assert_eq!(calls.len(), 1);
    assert!(matches!(end, ListStep::Done(s) if s == "<a/>"));
}

#[test]
fn error_stops_growth() {
    let mut err = reply(LIST_STATUS_ERROR, b"");
    err.error_str[..9].copy_from_slice(b"no memory");
    let replies = vec![reply(LIST_STATUS_NEED_MORE_SPACE, b""), err, reply(LIST_STATUS_OK, b"<a/>")];
    let (calls, end) = drive(ListKind::Luns, replies);
    assert_eq!(calls, vec![4096, 8192]);
    match end {
        ListStep::Failed(ListError::Kernel(m)) => assert_eq!(m, b"no memory".to_vec()),
        other => panic!("unexpected {:?}", other),
    }
}

#[test]
fn unexpected_status_is_its_own_failure() {
    let (_, end) = drive(ListKind::Luns, vec![reply(LIST_STATUS_NONE, b""), reply(LIST_STATUS_OK, b"")]);
    assert!(matches!(end, ListStep::Failed(ListError::UnexpectedStatus(0))));
    let (_, end) = drive(ListKind::Luns, vec![reply(9, b"")]);
    assert!(matches!(end, ListStep::Failed(ListError::UnexpectedStatus(9))));
}

#[test]
fn invalid_utf8_is_reported() {
    let (_, end) = drive(ListKind::Luns, vec![reply(LIST_STATUS_OK, &[0x3c, 0xff, 0x3e])]);
    assert!(matches!(end, ListStep::Failed(ListError::NotUtf8)));
}

#[test]
fn fill_beyond_buffer_is_reported() {
    let mut r = reply(LIST_STATUS_OK, b"");
    r.fill_len = 5000;
    let (_, end) = drive(ListKind::Luns, vec![r]);
    assert!(matches!(end, ListStep::Failed(ListError::BadLength)));
}

#[test]
fn fill_without_trailing_nul_is_reported() {
    let mut r = reply(LIST_STATUS_OK, b"");
    r.fill_len = 0;
    let (_, end) = drive(ListKind::Luns, vec![r]);
    assert!(matches!(end, ListStep::Failed(ListError::BadLength)));
    let (_, end) = drive(ListKind::Luns, vec![reply(LIST_STATUS_OK, b"")]);
    assert!(matches!(end, ListStep::Done(s) if s.is_empty()));
}

#[test]
fn buffer_stops_growing_at_the_limit() {
    let replies: Vec<ListReply> = (0..25).map(|_| reply(LIST_STATUS_NEED_MORE_SPACE, b"")).collect();
    let (calls, end) = drive(ListKind::Luns, replies);
    // 4096 doubled 19 times is 2^31; one more doubling would not fit.
    assert_eq!(calls.len(), 20);
    assert_eq!(*calls.last().unwrap(), 1u32 << 31);
    assert!(matches!(end, ListStep::Failed(ListError::TooLarge)));
}
