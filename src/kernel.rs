//! A LUN as it exists in the kernel: the handle that the daemon keeps for it,
//! made from the kernel's reply to a create request and given up only by
//! turning it into the request that removes it.

use vstd::prelude::*;
use crate::conf::Backend;
use crate::ctlreq::{backend_field, LunReq, LunReqData, LunReqType, LUN_STATUS_OK};

verus! {

/// A LUN that the kernel holds on the daemon's behalf.
#[derive(Debug)]
pub struct Lun {
    backend: Backend,
    id: u32,
}

/// Why the kernel's reply to a LUN request is not a success.
#[derive(Clone, Copy, Debug, PartialEq, Eq, Structural)]
pub enum LunReqError {
    /// The kernel wrote back this status rather than success.
    Status(u32),
    /// The reply is not one to a create request.
    NotCreate,
}

impl Lun {
    /// The backend that holds the LUN.
    pub closed spec fn spec_backend(&self) -> Backend {
        self.backend
    }

    /// The kernel's id of the LUN.
    pub closed spec fn spec_id(&self) -> u32 {
        self.id
    }

    /// The backend that holds the LUN.
    pub fn backend(&self) -> (r: Backend)
        ensures
            r == self.spec_backend(),
    {
        self.backend
    }

    /// The kernel's id of the LUN.
    pub fn id(&self) -> (r: u32)
        ensures
            r == self.spec_id(),
    {
        self.id
    }

    /// The handle of the LUN that a create request for `backend` made, from
    /// the request as the kernel wrote it back: the id is the one the kernel
    /// reports, and any status but success is an error that carries it.
    pub fn create(backend: Backend, reply: &LunReq) -> (r: Result<Lun, LunReqError>)
        ensures
            reply.reqdata is Remove ==> r == Err::<Lun, _>(LunReqError::NotCreate),
            reply.reqdata matches LunReqData::Create(p) ==> {
                &&& reply.status != LUN_STATUS_OK ==> r == Err::<Lun, _>(LunReqError::Status(reply.status))
                &&& reply.status == LUN_STATUS_OK ==> (r matches Ok(h) && h.spec_backend() == backend
                    && h.spec_id() == p.req_lun_id)
            },
    {
        match &reply.reqdata {
            LunReqData::Create(p) => {
                if reply.status != LUN_STATUS_OK {
                    Err(LunReqError::Status(reply.status))
                } else {
                    Ok(Lun { backend, id: p.req_lun_id })
                }
            },
            LunReqData::Remove { .. } => Err(LunReqError::NotCreate),
        }
    }

    /// Gives the handle up for the request that removes the LUN: the same
    /// backend and the same id. The handle is consumed, so the request can
    /// be made once only.
    pub fn remove_request(self) -> (r: LunReq)
        ensures
            r.backend@ == backend_field(self.spec_backend()),
            r.reqtype == LunReqType::Remove,
            r.reqdata == (LunReqData::Remove { lun_id: self.spec_id() }),
            r.args@.len() == 0,
            r.status == LUN_STATUS_OK,
    {
        LunReq::remove(self.backend, self.id)
    }

    /// Whether the kernel's reply to a remove request is a success.
    pub fn removed(reply: &LunReq) -> (r: Result<(), LunReqError>)
        ensures
            r is Ok <==> reply.status == LUN_STATUS_OK,
            r matches Err(e) ==> e == LunReqError::Status(reply.status),
    {
        if reply.status == LUN_STATUS_OK {
            Ok(())
        } else {
            Err(LunReqError::Status(reply.status))
        }
    }
}

} // verus!
