//! Applying a desired configuration to the kernel: the kernel must hold
//! nothing that the daemon would have to merge with, and each portal group
//! gets a tag of its own.

use vstd::prelude::*;
use crate::conf::{Backend, Conf, Lun, PortalGroup};
use crate::ctlreq::{backend_field, create_params_describe, LunReq, LunReqData, LunReqType, LUN_STATUS_OK};
use crate::options::{backend_options, option_pairs};
use crate::text::pairs_view;
use crate::kconf::{Ctllunlist, Ctlportlist};
use crate::text::str_eq;

verus! {

/// The first portal group tag that the daemon hands out.
pub const FIRST_PORTAL_GROUP_TAG: u16 = 0xff;

/// Hands out portal group tags in increasing order, each at most once.
#[derive(Debug)]
pub struct TagCounter {
    next: u16,
    exhausted: bool,
}

impl TagCounter {
    /// The next tag to hand out; 65536 once every tag is gone.
    pub closed spec fn spec_next(&self) -> nat {
        if self.exhausted { 65536 } else { self.next as nat }
    }

    /// No counter goes past the last tag.
    pub proof fn lemma_bounded(&self)
        ensures
            self.spec_next() <= 65536,
    {
    }

    /// A counter whose first tag is `FIRST_PORTAL_GROUP_TAG`.
    pub fn new() -> (r: TagCounter)
        ensures
            r.spec_next() == FIRST_PORTAL_GROUP_TAG as nat,
    {
        TagCounter { next: FIRST_PORTAL_GROUP_TAG, exhausted: false }
    }

    /// A counter whose first tag is `first`.
    pub fn starting_at(first: u16) -> (r: TagCounter)
        ensures
            r.spec_next() == first as nat,
    {
        TagCounter { next: first, exhausted: false }
    }

    /// How many tags are left.
    pub fn remaining(&self) -> (r: u32)
        ensures
            r as nat == 65536 - self.spec_next(),
    {
        if self.exhausted { 0 } else { 65536 - self.next as u32 }
    }

    /// Hands out the next tag, or `None` once every tag is gone.
    pub fn next_tag(&mut self) -> (r: Option<u16>)
        ensures
            old(self).spec_next() < 65536 ==> r == Some(old(self).spec_next() as u16)
                && final(self).spec_next() == old(self).spec_next() + 1,
            old(self).spec_next() == 65536 ==> r is None && final(self).spec_next() == 65536,
            old(self).spec_next() <= 65536 ==> final(self).spec_next() <= 65536,
    {
        if self.exhausted {
            return None;
        }
        let t = self.next;
        if self.next == u16::MAX {
            self.exhausted = true;
        } else {
            self.next = self.next + 1;
        }
        Some(t)
    }
}

/// Why a configuration cannot be applied to the kernel as it stands.
#[derive(Clone, Debug, PartialEq, Eq)]
pub enum ApplyError {
    /// The kernel already holds LUNs.
    PreexistingLuns,
    /// The kernel already has the port of this id, of a frontend that the
    /// daemon would have to take over.
    PreexistingPort(String),
    /// The portal group of this name has a tag already.
    TagAlreadySet(String),
    /// Fewer tags are left than there are portal groups.
    TagsExhausted,
}

/// The frontends whose ports the kernel has by itself.
pub open spec fn frontend_builtin(t: Seq<char>) -> bool {
    t == "camsim"@ || t == "tpc"@ || t == "ioctl"@
}

/// The kernel holds no LUN, and no port but those it has by itself.
pub open spec fn kernel_pristine(luns: Ctllunlist, ports: Ctlportlist) -> bool {
    &&& luns.lun@.len() == 0
    &&& forall|i: int| 0 <= i < ports.targ_port@.len() ==> frontend_builtin(#[trigger] ports.targ_port@[i].frontend_type@)
}

/// No portal group has a tag yet.
pub open spec fn tags_unset(groups: Seq<(String, PortalGroup)>) -> bool {
    forall|i: int| 0 <= i < groups.len() ==> (#[trigger] groups[i]).1.tag is None
}

/// `after` is `before` with the `i`-th portal group tagged `first + i`.
pub open spec fn tagged_from(before: Seq<(String, PortalGroup)>, after: Seq<(String, PortalGroup)>, first: nat) -> bool {
    &&& after.len() == before.len()
    &&& forall|i: int| 0 <= i < after.len() ==> {
        &&& (#[trigger] after[i]).0 == before[i].0
        &&& after[i].1 == (PortalGroup { tag: Some((first + i) as u16), ..before[i].1 })
    }
}

/// Checks that the kernel holds nothing that would have to be merged with
/// the configuration. LUNs are checked before ports.
pub fn check_pristine(luns: &Ctllunlist, ports: &Ctlportlist) -> (r: Result<(), ApplyError>)
    ensures
        r is Ok <==> kernel_pristine(*luns, *ports),
        r matches Err(ApplyError::PreexistingPort(id)) ==> luns.lun@.len() == 0 && exists|i: int|
            0 <= i < ports.targ_port@.len() && ports.targ_port@[i].id@ == id@
                && !frontend_builtin(#[trigger] ports.targ_port@[i].frontend_type@),
        r is Err ==> (r->Err_0 is PreexistingLuns || r->Err_0 is PreexistingPort),
        luns.lun@.len() != 0 ==> r == Err::<(), _>(ApplyError::PreexistingLuns),
{
    if luns.lun.len() != 0 {
        return Err(ApplyError::PreexistingLuns);
    }
    let mut i: usize = 0;
    while i < ports.targ_port.len()
        invariant
            0 <= i <= ports.targ_port@.len(),
            luns.lun@.len() == 0,
            forall|j: int| 0 <= j < i ==> frontend_builtin(#[trigger] ports.targ_port@[j].frontend_type@),
        decreases ports.targ_port@.len() - i,
    {
        let p = &ports.targ_port[i];
        let f = p.frontend_type.as_str();
        if !(str_eq(f, "camsim") || str_eq(f, "tpc") || str_eq(f, "ioctl")) {
            return Err(ApplyError::PreexistingPort(p.id.clone()));
        }
        i += 1;
    }
    Ok(())
}

/// Gives each portal group, in order, the next tag of the counter. Nothing
/// changes unless every group is still untagged and enough tags are left.
pub fn assign_tags(groups: &mut Vec<(String, PortalGroup)>, tags: &mut TagCounter) -> (r: Result<(), ApplyError>)
    ensures
        r is Ok <==> tags_unset(old(groups)@) && old(tags).spec_next() + old(groups)@.len() <= 65536,
        r is Ok ==> tagged_from(old(groups)@, final(groups)@, old(tags).spec_next())
            && final(tags).spec_next() == old(tags).spec_next() + old(groups)@.len(),
        r is Err ==> final(groups)@ == old(groups)@ && final(tags).spec_next() == old(tags).spec_next(),
        r matches Err(ApplyError::TagAlreadySet(name)) ==> exists|i: int|
            0 <= i < old(groups)@.len() && old(groups)@[i].0@ == name@ && (#[trigger] old(groups)@[i]).1.tag is Some,
        r == Err::<(), _>(ApplyError::TagsExhausted) ==> tags_unset(old(groups)@),
        r is Err ==> (r->Err_0 is TagAlreadySet || r->Err_0 is TagsExhausted),
{
    proof {
        tags.lemma_bounded();
    }
    let mut i: usize = 0;
    while i < groups.len()
        invariant
            0 <= i <= groups@.len(),
            forall|j: int| 0 <= j < i ==> (#[trigger] groups@[j]).1.tag is None,
        decreases groups@.len() - i,
    {
        if groups[i].1.tag.is_some() {
            return Err(ApplyError::TagAlreadySet(groups[i].0.clone()));
        }
        i += 1;
    }
    if (groups.len() as u64) > (tags.remaining() as u64) {
        return Err(ApplyError::TagsExhausted);
    }
    let ghost before = groups@;
    let ghost first = tags.spec_next();
    let mut k: usize = 0;
    while k < groups.len()
        invariant
            0 <= k <= groups@.len(),
            groups@.len() == before.len(),
            first + before.len() <= 65536,
            tags.spec_next() == first + k,
            tags_unset(before),
            forall|j: int| k <= j < groups@.len() ==> groups@[j] == before[j],
            forall|j: int| 0 <= j < k ==> {
                &&& (#[trigger] groups@[j]).0 == before[j].0
                &&& groups@[j].1 == (PortalGroup { tag: Some((first + j) as u16), ..before[j].1 })
            },
        decreases groups@.len() - k,
    {
        let t = tags.next_tag();
        match t {
            Some(t) => {
                groups[k].1.tag = Some(t);
            },
            None => {},
        }
        k += 1;
    }
    Ok(())
}

/// A LUN of the configuration to create: its name, its backend, the options
/// of its create request, and the request itself, whose packed options the
/// caller fills in.
#[derive(Debug)]
pub struct LunCreate {
    pub name: String,
    pub backend: Backend,
    pub options: Vec<(String, String)>,
    pub req: LunReq,
}

/// `c` creates the LUN of the configuration entry `entry`, under its name.
pub open spec fn plans_lun(c: LunCreate, entry: (String, Lun)) -> bool {
    &&& c.name@ == entry.0@
    &&& c.backend == entry.1.backend
    &&& pairs_view(c.options@) == backend_options(entry.0@, entry.1)
    &&& c.req.backend@ == backend_field(entry.1.backend)
    &&& c.req.reqtype == LunReqType::Create
    &&& (c.req.reqdata matches LunReqData::Create(p) && create_params_describe(p, entry.1))
    &&& c.req.args@.len() == 0
    &&& c.req.status == LUN_STATUS_OK
}

/// One create request for each LUN of the configuration, in order.
pub fn lun_plan(luns: &Vec<(String, Lun)>) -> (r: Vec<LunCreate>)
    ensures
        r@.len() == luns@.len(),
        forall|i: int| 0 <= i < luns@.len() ==> plans_lun(#[trigger] r@[i], luns@[i]),
{
    let mut r: Vec<LunCreate> = Vec::new();
    let mut i: usize = 0;
    while i < luns.len()
        invariant
            0 <= i <= luns@.len(),
            r@.len() == i,
            forall|j: int| 0 <= j < i ==> plans_lun(#[trigger] r@[j], luns@[j]),
        decreases luns@.len() - i,
    {
        let name = &luns[i].0;
        let lun = &luns[i].1;
        let c = LunCreate {
            name: name.clone(),
            backend: lun.backend,
            options: option_pairs(name.as_str(), lun),
            req: LunReq::create(lun, Vec::new()),
        };
        r.push(c);
        i += 1;
    }
    r
}

/// Applies the configuration as far as the daemon decides it: the kernel
/// must be pristine, each portal group is tagged, and then each LUN of the
/// configuration gets one create request, in order, under its own name.
pub fn apply_conf(luns: &Ctllunlist, ports: &Ctlportlist, conf: &mut Conf, tags: &mut TagCounter) -> (r: Result<Vec<LunCreate>, ApplyError>)
    ensures
        r is Ok <==> kernel_pristine(*luns, *ports) && tags_unset(old(conf).portal_groups@)
            && old(tags).spec_next() + old(conf).portal_groups@.len() <= 65536,
        r is Ok ==> tagged_from(old(conf).portal_groups@, final(conf).portal_groups@, old(tags).spec_next())
            && final(tags).spec_next() == old(tags).spec_next() + old(conf).portal_groups@.len(),
        r matches Ok(plan) ==> plan@.len() == old(conf).luns@.len(),
        r matches Ok(plan) ==> forall|i: int| 0 <= i < plan@.len() ==> plans_lun(#[trigger] plan@[i], old(conf).luns@[i]),
        r is Err ==> final(conf).portal_groups@ == old(conf).portal_groups@ && final(tags).spec_next() == old(tags).spec_next(),
        final(conf).luns == old(conf).luns,
        final(conf).auth_groups == old(conf).auth_groups,
        final(conf).targets == old(conf).targets,
{
    match check_pristine(luns, ports) {
        Ok(()) => {},
        Err(e) => return Err(e),
    }
    match assign_tags(&mut conf.portal_groups, tags) {
        Ok(()) => {},
        Err(e) => return Err(e),
    }
    Ok(lun_plan(&conf.luns))
}

/// Tags are handed out one greater than the last, from the counter's value:
/// every two groups get different tags, the later one the greater.
pub proof fn lemma_tags_distinct_increasing(
    before: Seq<(String, PortalGroup)>,
    after: Seq<(String, PortalGroup)>,
    first: nat,
    i: int,
    j: int,
)
    requires
        tagged_from(before, after, first),
        first + before.len() <= 65536,
        0 <= i < j < after.len(),
    ensures
        after[i].1.tag matches Some(a) && after[j].1.tag matches Some(b) && a < b && a as nat == first + i
            && b as nat == first + j,
{
    assert(after[i].1.tag == Some((first + i) as u16));
    assert(after[j].1.tag == Some((first + j) as u16));
}

} // verus!
