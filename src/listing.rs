//! The protocol that reads the kernel's LUN or port list: ask with a buffer,
//! and double the buffer for as long as the kernel answers that it needs more
//! room. The decisions are made here, one reply at a time; the caller makes
//! the calls.

use vstd::prelude::*;
use vstd::arithmetic::power2::{pow2, lemma_pow2_unfold};
use vstd::utf8::{decode_utf8, encode_utf8, valid_utf8, encode_utf8_decode_utf8};
use crate::text::string_from_utf8;

verus! {

/// The status of a list request before the kernel has answered.
pub const LIST_STATUS_NONE: u32 = 0;
/// The list is in the buffer.
pub const LIST_STATUS_OK: u32 = 1;
/// The buffer is too small for the list.
pub const LIST_STATUS_NEED_MORE_SPACE: u32 = 2;
/// The kernel could not make the list; its message says why.
pub const LIST_STATUS_ERROR: u32 = 3;

/// The size of the first buffer offered.
pub const INITIAL_LIST_LEN: u32 = 4096;

/// Which list to read.
#[derive(Clone, Copy, Debug, PartialEq, Eq, Structural)]
pub enum ListKind {
    Luns,
    Ports,
}

/// One call to make: the list, the size of the buffer offered, and the
/// status field as it is handed to the kernel.
#[derive(Clone, Copy, Debug, PartialEq, Eq, Structural)]
pub struct ListRequest {
    pub kind: ListKind,
    pub alloc_len: u32,
    pub status: u32,
}

/// What the kernel wrote back: the status, how many bytes of the buffer it
/// filled (a trailing NUL included), the buffer, and its message.
#[derive(Clone, Debug)]
pub struct ListReply {
    pub status: u32,
    pub fill_len: u32,
    pub data: Vec<u8>,
    pub error_str: Vec<u8>,
}

/// Why a list could not be read.
#[derive(Clone, Debug, PartialEq, Eq)]
pub enum ListError {
    /// The kernel reported an error, with this message.
    Kernel(Vec<u8>),
    /// The kernel answered with a status that the protocol does not have.
    UnexpectedStatus(u32),
    /// The buffer cannot grow any more.
    TooLarge,
    /// The kernel reports no byte filled, not even the trailing NUL, or more
    /// bytes filled than the buffer holds.
    BadLength,
    /// The list is not UTF-8.
    NotUtf8,
}

/// The kind of a failure, without its message.
pub enum ListFailure {
    Kernel,
    UnexpectedStatus(u32),
    TooLarge,
    BadLength,
    NotUtf8,
}

/// What one reply leads to.
pub enum ListOutcome {
    /// Call again, offering a buffer of this size.
    Again(u32),
    /// The list, as text.
    Done(Seq<char>),
    Failed(ListFailure),
}

/// What comes after a reply: the next call, the list, or a failure.
#[derive(Clone, Debug)]
pub enum ListStep {
    Again(ListRequest),
    Done(String),
    Failed(ListError),
}

/// The bytes of the list in a reply: those filled, less the trailing NUL.
pub open spec fn payload(r: ListReply) -> Seq<u8> {
    r.data@.subrange(0, r.fill_len - 1)
}

/// What a reply leads to when the buffer offered held `alloc_len` bytes.
pub open spec fn reply_outcome(alloc_len: u32, r: ListReply) -> ListOutcome {
    if r.status == LIST_STATUS_OK {
        if r.fill_len == 0 || r.fill_len as nat > r.data@.len() {
            ListOutcome::Failed(ListFailure::BadLength)
        } else if valid_utf8(payload(r)) {
            ListOutcome::Done(decode_utf8(payload(r)))
        } else {
            ListOutcome::Failed(ListFailure::NotUtf8)
        }
    } else if r.status == LIST_STATUS_NEED_MORE_SPACE {
        if alloc_len <= u32::MAX / 2 {
            ListOutcome::Again((alloc_len * 2) as u32)
        } else {
            ListOutcome::Failed(ListFailure::TooLarge)
        }
    } else if r.status == LIST_STATUS_ERROR {
        ListOutcome::Failed(ListFailure::Kernel)
    } else {
        ListOutcome::Failed(ListFailure::UnexpectedStatus(r.status))
    }
}

/// The outcome that a step stands for.
pub open spec fn step_outcome(s: ListStep) -> ListOutcome {
    match s {
        ListStep::Again(req) => ListOutcome::Again(req.alloc_len),
        ListStep::Done(t) => ListOutcome::Done(t@),
        ListStep::Failed(ListError::Kernel(_)) => ListOutcome::Failed(ListFailure::Kernel),
        ListStep::Failed(ListError::UnexpectedStatus(s)) => ListOutcome::Failed(ListFailure::UnexpectedStatus(s)),
        ListStep::Failed(ListError::TooLarge) => ListOutcome::Failed(ListFailure::TooLarge),
        ListStep::Failed(ListError::BadLength) => ListOutcome::Failed(ListFailure::BadLength),
        ListStep::Failed(ListError::NotUtf8) => ListOutcome::Failed(ListFailure::NotUtf8),
    }
}

/// The kernel's message: the bytes of `s` before its first NUL.
pub open spec fn is_message_of(m: Seq<u8>, s: Seq<u8>) -> bool {
    &&& m.len() <= s.len()
    &&& m == s.subrange(0, m.len() as int)
    &&& forall|i: int| 0 <= i < m.len() ==> m[i] != 0u8
    &&& m.len() == s.len() || s[m.len() as int] == 0u8
}

/// Reading a list from its first call, against the replies in order: how
/// many calls are made, and what the last reply leads to (`None` while the
/// replies run out first).
pub open spec fn drive(alloc_len: u32, replies: Seq<ListReply>) -> (nat, Option<ListOutcome>)
    decreases replies.len(),
{
    if replies.len() == 0 {
        (1, None)
    } else {
        match reply_outcome(alloc_len, replies[0]) {
            ListOutcome::Again(next) => {
                let rest = drive(next, replies.drop_first());
                (rest.0 + 1, rest.1)
            },
            o => (1, Some(o)),
        }
    }
}

/// The state of one list read.
pub struct ListFetch {
    kind: ListKind,
    alloc_len: u32,
}

impl ListFetch {
    /// The buffer offered never shrinks below the first one.
    #[verifier::type_invariant]
    spec fn inv(&self) -> bool {
        self.alloc_len >= INITIAL_LIST_LEN
    }

    /// The list being read.
    pub closed spec fn spec_kind(&self) -> ListKind {
        self.kind
    }

    /// The size of the buffer offered by the latest call.
    pub closed spec fn spec_alloc_len(&self) -> u32 {
        self.alloc_len
    }

    /// A read of the given list that has made no call yet.
    pub fn new(kind: ListKind) -> (r: ListFetch)
        ensures
            r.spec_kind() == kind,
            r.spec_alloc_len() == INITIAL_LIST_LEN,
    {
        ListFetch { kind, alloc_len: INITIAL_LIST_LEN }
    }

    /// The call to make now.
    pub fn request(&self) -> (r: ListRequest)
        ensures
            r == (ListRequest { kind: self.spec_kind(), alloc_len: self.spec_alloc_len(), status: LIST_STATUS_NONE }),
    {
        ListRequest { kind: self.kind, alloc_len: self.alloc_len, status: LIST_STATUS_NONE }
    }

    /// Takes the kernel's reply to the latest call and says what comes next.
    pub fn on_reply(&mut self, reply: &ListReply) -> (r: ListStep)
        ensures
            old(self).spec_alloc_len() >= INITIAL_LIST_LEN,
            final(self).spec_alloc_len() >= INITIAL_LIST_LEN,
            r is Again ==> final(self).spec_alloc_len() > old(self).spec_alloc_len(),
            step_outcome(r) == reply_outcome(old(self).spec_alloc_len(), *reply),
            final(self).spec_kind() == old(self).spec_kind(),
            r matches ListStep::Again(req) ==> req == (ListRequest {
                kind: old(self).spec_kind(),
                alloc_len: final(self).spec_alloc_len(),
                status: LIST_STATUS_NONE,
            }),
            !(r is Again) ==> final(self).spec_alloc_len() == old(self).spec_alloc_len(),
            r matches ListStep::Failed(ListError::Kernel(m)) ==> is_message_of(m@, reply.error_str@),
    {
        proof {
            use_type_invariant(&*self);
        }
        if reply.status == LIST_STATUS_OK {
            if reply.fill_len == 0 || reply.fill_len as usize > reply.data.len() {
                return ListStep::Failed(ListError::BadLength);
            }
            let n: usize = (reply.fill_len - 1) as usize;
            let mut bytes: Vec<u8> = Vec::with_capacity(n);
            let mut i: usize = 0;
            while i < n
                invariant
                    0 <= i <= n,
                    n <= reply.data@.len(),
                    bytes@ == reply.data@.subrange(0, i as int),
                decreases n - i,
            {
                bytes.push(reply.data[i]);
                assert(bytes@ =~= reply.data@.subrange(0, i + 1));
                i += 1;
            }
            assert(bytes@ =~= payload(*reply));
            match string_from_utf8(bytes) {
                Some(s) => {
                    proof {
                        encode_utf8_decode_utf8(s@);
                    }
                    ListStep::Done(s)
                },
                None => ListStep::Failed(ListError::NotUtf8),
            }
        } else if reply.status == LIST_STATUS_NEED_MORE_SPACE {
            if self.alloc_len <= u32::MAX / 2 {
                self.alloc_len = self.alloc_len * 2;
                ListStep::Again(self.request())
            } else {
                ListStep::Failed(ListError::TooLarge)
            }
        } else if reply.status == LIST_STATUS_ERROR {
            let mut m: Vec<u8> = Vec::new();
            let mut i: usize = 0;
            while i < reply.error_str.len() && reply.error_str[i] != 0
                invariant
                    0 <= i <= reply.error_str@.len(),
                    m@ == reply.error_str@.subrange(0, i as int),
                    forall|j: int| 0 <= j < i ==> reply.error_str@[j] != 0u8,
                decreases reply.error_str@.len() - i,
            {
                m.push(reply.error_str[i]);
                assert(m@ =~= reply.error_str@.subrange(0, i + 1));
                i += 1;
            }
            ListStep::Failed(ListError::Kernel(m))
        } else {
            ListStep::Failed(ListError::UnexpectedStatus(reply.status))
        }
    }
}


proof fn lemma_drive_grows(alloc_len: u32, replies: Seq<ListReply>, k: nat)
    requires
        k <= replies.len(),
        forall|i: int| 0 <= i < k ==> (#[trigger] replies[i]).status == LIST_STATUS_NEED_MORE_SPACE,
        alloc_len as nat * pow2(k) <= u32::MAX as nat,
    ensures
        drive(alloc_len, replies).0 == drive((alloc_len as nat * pow2(k)) as u32, replies.subrange(k as int, replies.len() as int)).0 + k,
        drive(alloc_len, replies).1 == drive((alloc_len as nat * pow2(k)) as u32, replies.subrange(k as int, replies.len() as int)).1,
    decreases k,
{
    if k == 0 {
        assert(replies.subrange(0, replies.len() as int) =~= replies);
        vstd::arithmetic::power2::lemma2_to64();
    } else {
        lemma_pow2_unfold(k);
        let p = pow2((k - 1) as nat);
        assert(pow2(k) == 2 * p);
        assert(p >= 1) by {
            vstd::arithmetic::power2::lemma_pow2_pos((k - 1) as nat);
        }
        assert(alloc_len as nat * 2 <= u32::MAX as nat) by (nonlinear_arith)
            requires
                alloc_len as nat * (2 * p) <= u32::MAX as nat,
                p >= 1,
        ;
        assert(replies[0].status == LIST_STATUS_NEED_MORE_SPACE);
        let next = (alloc_len * 2) as u32;
        assert(reply_outcome(alloc_len, replies[0]) == ListOutcome::Again(next));
        let rest = replies.drop_first();
        assert forall|i: int| 0 <= i < (k - 1) as nat implies (#[trigger] rest[i]).status
            == LIST_STATUS_NEED_MORE_SPACE by {
            assert(rest[i] == replies[i + 1]);
        }
        assert(next as nat * p == alloc_len as nat * pow2(k)) by (nonlinear_arith)
            requires
                next as nat == alloc_len as nat * 2,
                pow2(k) == 2 * p,
        ;
        lemma_drive_grows(next, rest, (k - 1) as nat);
        assert(rest.subrange((k - 1) as int, rest.len() as int) =~= replies.subrange(k as int, replies.len() as int));
    }
}

/// After `n` replies that ask for more room and one that brings the list,
/// exactly `n + 1` calls have been made, each offering twice the room of the
/// one before, and the outcome is that of the last reply: the list itself
/// where its bytes are sound.
pub proof fn lemma_need_more_space_then_ok(replies: Seq<ListReply>, n: nat)
    requires
        replies.len() == n + 1,
        forall|i: int| 0 <= i < n ==> (#[trigger] replies[i]).status == LIST_STATUS_NEED_MORE_SPACE,
        replies[n as int].status == LIST_STATUS_OK,
        INITIAL_LIST_LEN as nat * pow2(n) <= u32::MAX as nat,
    ensures
        drive(INITIAL_LIST_LEN, replies).0 == n + 1,
        drive(INITIAL_LIST_LEN, replies).1 == Some(reply_outcome((INITIAL_LIST_LEN as nat * pow2(n)) as u32, replies[n as int])),
        1 <= replies[n as int].fill_len && replies[n as int].fill_len as nat <= replies[n as int].data@.len() && valid_utf8(payload(replies[n as int]))
            ==> drive(INITIAL_LIST_LEN, replies).1 == Some(ListOutcome::Done(decode_utf8(payload(replies[n as int])))),
{
    lemma_drive_grows(INITIAL_LIST_LEN, replies, n);
    let tail = replies.subrange(n as int, replies.len() as int);
    assert(tail[0] == replies[n as int]);
}

/// A reply that reports an error ends the read at once: no further call is
/// made and the buffer grows no more, whatever replies would have followed.
pub proof fn lemma_error_stops(replies: Seq<ListReply>, k: nat)
    requires
        k < replies.len(),
        forall|i: int| 0 <= i < k ==> (#[trigger] replies[i]).status == LIST_STATUS_NEED_MORE_SPACE,
        replies[k as int].status == LIST_STATUS_ERROR,
        INITIAL_LIST_LEN as nat * pow2(k) <= u32::MAX as nat,
    ensures
        drive(INITIAL_LIST_LEN, replies) == (k + 1, Some(ListOutcome::Failed(ListFailure::Kernel))),
{
    lemma_drive_grows(INITIAL_LIST_LEN, replies, k);
    let tail = replies.subrange(k as int, replies.len() as int);
    assert(tail[0] == replies[k as int]);
}

} // verus!
