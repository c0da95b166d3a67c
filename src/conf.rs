//! The desired configuration: LUNs, portal groups and auth-groups, as the
//! configuration parser hands them over, with the rules that are checked
//! before anything is sent to the kernel.

use vstd::prelude::*;
use crate::text::str_eq;

verus! {

/// The storage behind a LUN.
#[derive(Clone, Copy, Debug, PartialEq, Eq, Structural)]
pub enum Backend {
    /// Backed by a file or a block device.
    Block,
    /// Backed by memory.
    Ramdisk,
}

/// The token that names a backend, in the configuration, in the kernel's
/// XML reports and in the kernel's request records.
pub open spec fn backend_token(b: Backend) -> Seq<char> {
    match b {
        Backend::Block => "block"@,
        Backend::Ramdisk => "ramdisk"@,
    }
}

/// The backend that a token names, if any.
pub open spec fn backend_of_token(t: Seq<char>) -> Option<Backend> {
    if t == "block"@ {
        Some(Backend::Block)
    } else if t == "ramdisk"@ {
        Some(Backend::Ramdisk)
    } else {
        None
    }
}

impl Backend {
    /// The backend's token.
    pub fn as_str(&self) -> (r: &'static str)
        ensures
            r@ == backend_token(*self),
    {
        match self {
            Backend::Block => "block",
            Backend::Ramdisk => "ramdisk",
        }
    }

    /// The backend that `s` names; unknown tokens are refused.
    pub fn from_token(s: &str) -> (r: Option<Backend>)
        ensures
            r == backend_of_token(s@),
    {
        if str_eq(s, "block") {
            Some(Backend::Block)
        } else if str_eq(s, "ramdisk") {
            Some(Backend::Ramdisk)
        } else {
            None
        }
    }
}

/// Each backend's token reads back as that backend.
pub proof fn lemma_backend_round_trip(b: Backend)
    ensures
        backend_of_token(backend_token(b)) == Some(b),
{
    reveal_strlit("block");
    reveal_strlit("ramdisk");
    assert("block"@.len() != "ramdisk"@.len());
}

/// The SCSI peripheral device type of a LUN.
#[derive(Clone, Copy, Debug, PartialEq, Eq, Structural)]
pub enum DeviceType {
    /// Direct access block device, type 0.
    Disk,
    /// Processor device, type 3.
    Processor,
    /// CD or DVD device, type 5.
    Cd,
}

/// The numeric SCSI peripheral device type.
pub open spec fn device_type_code(d: DeviceType) -> u8 {
    match d {
        DeviceType::Disk => 0,
        DeviceType::Processor => 3,
        DeviceType::Cd => 5,
    }
}

/// The device type that the kernel's XML reports write as a decimal code.
pub open spec fn device_type_of_code(t: Seq<char>) -> Option<DeviceType> {
    if t == "0"@ {
        Some(DeviceType::Disk)
    } else if t == "3"@ {
        Some(DeviceType::Processor)
    } else if t == "5"@ {
        Some(DeviceType::Cd)
    } else {
        None
    }
}

/// The device type that the configuration names, by word or by code.
pub open spec fn device_type_of_token(t: Seq<char>) -> Option<DeviceType> {
    if t == "disk"@ || t == "direct"@ || t == "0"@ {
        Some(DeviceType::Disk)
    } else if t == "processor"@ || t == "3"@ {
        Some(DeviceType::Processor)
    } else if t == "cd"@ || t == "cdrom"@ || t == "dvd"@ || t == "dvdrom"@ || t == "5"@ {
        Some(DeviceType::Cd)
    } else {
        None
    }
}

/// The decimal code of each device type as the kernel writes it.
pub open spec fn device_type_code_token(d: DeviceType) -> Seq<char> {
    match d {
        DeviceType::Disk => "0"@,
        DeviceType::Processor => "3"@,
        DeviceType::Cd => "5"@,
    }
}

impl DeviceType {
    /// The numeric SCSI peripheral device type.
    pub fn code(&self) -> (r: u8)
        ensures
            r == device_type_code(*self),
    {
        match self {
            DeviceType::Disk => 0,
            DeviceType::Processor => 3,
            DeviceType::Cd => 5,
        }
    }

    /// The device type of a decimal code in the kernel's XML; other codes are
    /// refused.
    pub fn from_code(s: &str) -> (r: Option<DeviceType>)
        ensures
            r == device_type_of_code(s@),
    {
        if str_eq(s, "0") {
            Some(DeviceType::Disk)
        } else if str_eq(s, "3") {
            Some(DeviceType::Processor)
        } else if str_eq(s, "5") {
            Some(DeviceType::Cd)
        } else {
            None
        }
    }

    /// The device type that a configuration token names; unknown tokens are
    /// refused.
    pub fn from_token(s: &str) -> (r: Option<DeviceType>)
        ensures
            r == device_type_of_token(s@),
    {
        if str_eq(s, "disk") || str_eq(s, "direct") || str_eq(s, "0") {
            Some(DeviceType::Disk)
        } else if str_eq(s, "processor") || str_eq(s, "3") {
            Some(DeviceType::Processor)
        } else if str_eq(s, "cd") || str_eq(s, "cdrom") || str_eq(s, "dvd") || str_eq(s, "dvdrom")
            || str_eq(s, "5") {
            Some(DeviceType::Cd)
        } else {
            None
        }
    }
}

/// Each device type's code reads back as that device type.
pub proof fn lemma_device_type_round_trip(d: DeviceType)
    ensures
        device_type_of_code(device_type_code_token(d)) == Some(d),
        device_type_of_token(device_type_code_token(d)) == Some(d),
{
    reveal_strlit("0");
    reveal_strlit("3");
    reveal_strlit("5");
    reveal_strlit("disk");
    reveal_strlit("direct");
    reveal_strlit("processor");
    assert("0"@[0] != "3"@[0] && "0"@[0] != "5"@[0] && "3"@[0] != "5"@[0]);
    assert("0"@ != "3"@ && "0"@ != "5"@ && "3"@ != "5"@);
    assert("3"@.len() != "disk"@.len() && "3"@.len() != "direct"@.len());
    assert("5"@.len() != "disk"@.len() && "5"@.len() != "direct"@.len());
    assert("5"@.len() != "processor"@.len());
}


/// How initiators of an auth-group authenticate.
#[derive(Clone, Copy, Debug, PartialEq, Eq, Structural)]
pub enum AuthType {
    /// Not given in the configuration.
    Unknown,
    /// No authentication.
    NoAuthentication,
    /// All access refused.
    Deny,
    /// CHAP.
    Chap,
    /// Mutual CHAP.
    ChapMutual,
}

/// The authentication type that a configuration token names.
pub open spec fn auth_type_of_token(t: Seq<char>) -> Option<AuthType> {
    if t == "none"@ {
        Some(AuthType::NoAuthentication)
    } else if t == "deny"@ {
        Some(AuthType::Deny)
    } else if t == "chap"@ {
        Some(AuthType::Chap)
    } else if t == "chap-mutual"@ {
        Some(AuthType::ChapMutual)
    } else {
        None
    }
}

impl AuthType {
    /// The authentication type that `s` names; unknown tokens are refused.
    pub fn from_token(s: &str) -> (r: Option<AuthType>)
        ensures
            r == auth_type_of_token(s@),
    {
        if str_eq(s, "none") {
            Some(AuthType::NoAuthentication)
        } else if str_eq(s, "deny") {
            Some(AuthType::Deny)
        } else if str_eq(s, "chap") {
            Some(AuthType::Chap)
        } else if str_eq(s, "chap-mutual") {
            Some(AuthType::ChapMutual)
        } else {
            None
        }
    }
}

/// Which targets a discovery session of a portal group may see.
#[derive(Clone, Copy, Debug, PartialEq, Eq, Structural)]
pub enum DiscoveryFilter {
    /// Every target.
    Unfiltered,
    /// Targets that the initiator's portal may reach.
    Portal,
    /// Targets that the initiator's portal and name may reach.
    PortalName,
    /// Targets that the initiator's portal, name and credentials may reach.
    PortalNameAuth,
}

/// The discovery filter that a configuration token names.
pub open spec fn discovery_filter_of_token(t: Seq<char>) -> Option<DiscoveryFilter> {
    if t == "none"@ {
        Some(DiscoveryFilter::Unfiltered)
    } else if t == "portal"@ {
        Some(DiscoveryFilter::Portal)
    } else if t == "portal-name"@ {
        Some(DiscoveryFilter::PortalName)
    } else if t == "portal-name-auth"@ {
        Some(DiscoveryFilter::PortalNameAuth)
    } else {
        None
    }
}

impl DiscoveryFilter {
    /// The discovery filter that `s` names; unknown tokens are refused.
    pub fn from_token(s: &str) -> (r: Option<DiscoveryFilter>)
        ensures
            r == discovery_filter_of_token(s@),
    {
        if str_eq(s, "none") {
            Some(DiscoveryFilter::Unfiltered)
        } else if str_eq(s, "portal") {
            Some(DiscoveryFilter::Portal)
        } else if str_eq(s, "portal-name") {
            Some(DiscoveryFilter::PortalName)
        } else if str_eq(s, "portal-name-auth") {
            Some(DiscoveryFilter::PortalNameAuth)
        } else {
            None
        }
    }
}

/// A CHAP credential.
#[derive(Clone, Debug)]
pub struct Chap {
    pub user: String,
    pub secret: String,
}

/// A mutual CHAP credential: the initiator's and the target's.
#[derive(Clone, Debug)]
pub struct ChapMutual {
    pub user: String,
    pub secret: String,
    pub mutual_user: String,
    pub mutual_secret: String,
}

/// A named set of credentials and access rules.
#[derive(Clone, Debug)]
pub struct AuthGroup {
    pub auth_type: AuthType,
    pub chap: Vec<Chap>,
    pub chap_mutual: Vec<ChapMutual>,
    pub initiator_name: Option<String>,
    pub initiator_portal: Vec<String>,
}

/// An auth-group may hold CHAP entries or mutual CHAP entries, not both.
pub open spec fn auth_group_valid(ag: AuthGroup) -> bool {
    !(ag.chap@.len() > 0 && ag.chap_mutual@.len() > 0)
}

/// Why a configuration is refused.
#[derive(Clone, Debug, PartialEq, Eq)]
pub enum ConfError {
    /// The auth-group of this name holds both CHAP and mutual CHAP entries.
    ChapAndChapMutual(String),
    /// The memory-backed LUN of this name has no size.
    MissingSize(String),
    /// This name is given twice in one map of the configuration.
    DuplicateName(String),
}

impl AuthGroup {
    /// Checks the auth-group on its own.
    pub fn validate(&self) -> (r: Result<(), ()>)
        ensures
            r is Ok <==> auth_group_valid(*self),
    {
        if self.chap.len() > 0 && self.chap_mutual.len() > 0 {
            Err(())
        } else {
            Ok(())
        }
    }
}

/// A named set of listen points.
#[derive(Clone, Debug)]
pub struct PortalGroup {
    pub discovery_auth_group: String,
    pub discovery_filter: DiscoveryFilter,
    /// The address to listen on, as the configuration writes it.
    pub listen: String,
    pub offload: Option<String>,
    pub options: Vec<(String, String)>,
    pub redirect: Option<String>,
    /// Assigned by the daemon; absent in the configuration.
    pub tag: Option<u16>,
    pub foreign: bool,
    pub dscp: Option<i32>,
    pub pcp: Option<i32>,
}

/// A LUN that the configuration asks for.
#[derive(Clone, Debug)]
pub struct Lun {
    pub backend: Backend,
    pub blocksize: Option<u32>,
    /// The kernel's LUN id to ask for.
    pub ctl_lun: Option<u32>,
    pub device_id: String,
    pub device_type: DeviceType,
    /// Further options passed to the backend, by name, in the order given.
    pub options: Vec<(String, String)>,
    /// The backing file or device.
    pub path: String,
    pub serial: Option<String>,
    /// Must be given for memory-backed LUNs; optional for block-backed ones.
    pub size: Option<u64>,
}

/// A memory-backed LUN needs a size.
pub open spec fn lun_valid(l: Lun) -> bool {
    l.backend == Backend::Ramdisk ==> l.size is Some
}

/// A LUN that a target exports, by its number within the target.
#[derive(Clone, Debug)]
pub struct TargetLun {
    pub number: u64,
    /// The name of the LUN in the configuration.
    pub name: String,
}

/// The portal group a target is reachable through.
#[derive(Clone, Debug)]
pub struct TargetPortalGroup {
    pub name: String,
    pub ag_name: Option<String>,
}

/// An exported target.
#[derive(Clone, Debug)]
pub struct Target {
    pub alias: Option<String>,
    pub auth_group: String,
    pub auth_type: AuthType,
    pub chap: Vec<Chap>,
    pub chap_mutual: Vec<ChapMutual>,
    pub initiator_name: Option<String>,
    pub initiator_portal: Vec<String>,
    pub portal_group: TargetPortalGroup,
    pub port: Option<String>,
    pub redirect: Option<String>,
    pub lun: Vec<TargetLun>,
}

/// The configuration, each map written as its entries in order, name first.
#[derive(Clone, Debug)]
pub struct Conf {
    pub auth_groups: Vec<(String, AuthGroup)>,
    pub portal_groups: Vec<(String, PortalGroup)>,
    pub luns: Vec<(String, Lun)>,
    pub targets: Vec<(String, Target)>,
}

/// No name is given twice among the entries of a map.
pub open spec fn names_unique<T>(s: Seq<(String, T)>) -> bool {
    forall|i: int, j: int| 0 <= i < j < s.len() ==> #[trigger] s[i].0@ != #[trigger] s[j].0@
}

/// Every map of the configuration, the option maps included, names each
/// entry once.
pub open spec fn conf_names_unique(c: Conf) -> bool {
    &&& names_unique(c.auth_groups@)
    &&& names_unique(c.portal_groups@)
    &&& names_unique(c.luns@)
    &&& names_unique(c.targets@)
    &&& forall|i: int| 0 <= i < c.portal_groups@.len() ==> names_unique(#[trigger] c.portal_groups@[i].1.options@)
    &&& forall|i: int| 0 <= i < c.luns@.len() ==> names_unique(#[trigger] c.luns@[i].1.options@)
}

/// Every auth-group and every LUN of the configuration is valid, and no name
/// is given twice.
pub open spec fn conf_valid(c: Conf) -> bool {
    &&& forall|i: int| 0 <= i < c.auth_groups@.len() ==> auth_group_valid(#[trigger] c.auth_groups@[i].1)
    &&& forall|i: int| 0 <= i < c.luns@.len() ==> lun_valid(#[trigger] c.luns@[i].1)
    &&& conf_names_unique(c)
}

/// Finds an entry whose name an earlier entry has already given.
fn find_duplicate<T>(s: &Vec<(String, T)>) -> (r: Option<String>)
    ensures
        r is None <==> names_unique(s@),
        r matches Some(n) ==> exists|i: int, j: int| 0 <= i < j < s@.len() && s@[i].0@ == n@ && s@[j].0@ == n@,
{
    let mut k: usize = 0;
    while k < s.len()
        invariant
            0 <= k <= s@.len(),
            forall|i: int, j: int| 0 <= i < j < k ==> #[trigger] s@[i].0@ != #[trigger] s@[j].0@,
        decreases s@.len() - k,
    {
        let mut i: usize = 0;
        while i < k
            invariant
                0 <= i <= k < s@.len(),
                forall|a: int, b: int| 0 <= a < b < k ==> #[trigger] s@[a].0@ != #[trigger] s@[b].0@,
                forall|a: int| 0 <= a < i ==> #[trigger] s@[a].0@ != s@[k as int].0@,
            decreases k - i,
        {
            if str_eq(s[i].0.as_str(), s[k].0.as_str()) {
                return Some(s[k].0.clone());
            }
            i += 1;
        }
        k += 1;
    }
    None
}

impl Conf {
    /// Checks the rules that the configuration must meet before anything is
    /// sent to the kernel. The auth-groups are checked before the LUNs, and
    /// the error names the first entry that breaks a rule.
    pub fn validate(&self) -> (r: Result<(), ConfError>)
        ensures
            r is Ok <==> conf_valid(*self),
            r matches Err(ConfError::ChapAndChapMutual(name)) ==> exists|i: int|
                0 <= i < self.auth_groups@.len() && self.auth_groups@[i].0@ == name@
                    && !auth_group_valid(#[trigger] self.auth_groups@[i].1),
            r matches Err(ConfError::MissingSize(name)) ==> {
                &&& forall|i: int| 0 <= i < self.auth_groups@.len() ==> auth_group_valid(#[trigger] self.auth_groups@[i].1)
                &&& exists|i: int|
                    0 <= i < self.luns@.len() && self.luns@[i].0@ == name@
                        && !lun_valid(#[trigger] self.luns@[i].1)
            },
            r matches Err(ConfError::DuplicateName(_)) ==> {
                &&& forall|i: int| 0 <= i < self.auth_groups@.len() ==> auth_group_valid(#[trigger] self.auth_groups@[i].1)
                &&& forall|i: int| 0 <= i < self.luns@.len() ==> lun_valid(#[trigger] self.luns@[i].1)
                &&& !conf_names_unique(*self)
            },
    {
        let mut i: usize = 0;
        while i < self.auth_groups.len()
            invariant
                0 <= i <= self.auth_groups@.len(),
                forall|j: int| 0 <= j < i ==> auth_group_valid(#[trigger] self.auth_groups@[j].1),
            decreases self.auth_groups@.len() - i,
        {
            let entry = &self.auth_groups[i];
            if entry.1.validate().is_err() {
                return Err(ConfError::ChapAndChapMutual(entry.0.clone()));
            }
            i += 1;
        }
        let mut k: usize = 0;
        while k < self.luns.len()
            invariant
                0 <= k <= self.luns@.len(),
                forall|j: int| 0 <= j < self.auth_groups@.len() ==> auth_group_valid(#[trigger] self.auth_groups@[j].1),
                forall|j: int| 0 <= j < k ==> lun_valid(#[trigger] self.luns@[j].1),
            decreases self.luns@.len() - k,
        {
            let entry = &self.luns[k];
            if entry.1.backend == Backend::Ramdisk && entry.1.size.is_none() {
                return Err(ConfError::MissingSize(entry.0.clone()));
            }
            k += 1;
        }
        self.check_names()
    }

    /// Checks that no map names an entry twice.
    fn check_names(&self) -> (r: Result<(), ConfError>)
        ensures
            r is Ok <==> conf_names_unique(*self),
            r matches Err(e) ==> e is DuplicateName,
    {
        if let Some(n) = find_duplicate(&self.auth_groups) {
            return Err(ConfError::DuplicateName(n));
        }
        if let Some(n) = find_duplicate(&self.portal_groups) {
            return Err(ConfError::DuplicateName(n));
        }
        if let Some(n) = find_duplicate(&self.luns) {
            return Err(ConfError::DuplicateName(n));
        }
        if let Some(n) = find_duplicate(&self.targets) {
            return Err(ConfError::DuplicateName(n));
        }
        let mut i: usize = 0;
        while i < self.portal_groups.len()
            invariant
                0 <= i <= self.portal_groups@.len(),
                forall|j: int| 0 <= j < i ==> names_unique(#[trigger] self.portal_groups@[j].1.options@),
            decreases self.portal_groups@.len() - i,
        {
            if let Some(n) = find_duplicate(&self.portal_groups[i].1.options) {
                return Err(ConfError::DuplicateName(n));
            }
            i += 1;
        }
        let mut k: usize = 0;
        while k < self.luns.len()
            invariant
                0 <= k <= self.luns@.len(),
                forall|j: int| 0 <= j < k ==> names_unique(#[trigger] self.luns@[j].1.options@),
            decreases self.luns@.len() - k,
        {
            if let Some(n) = find_duplicate(&self.luns[k].1.options) {
                return Err(ConfError::DuplicateName(n));
            }
            k += 1;
        }
        Ok(())
    }
}


/// Where every LUN is sound and every name is given once, a configuration is
/// refused exactly when one of its auth-groups holds both CHAP and mutual
/// CHAP entries.
pub proof fn lemma_chap_rule(c: Conf)
    requires
        forall|i: int| 0 <= i < c.luns@.len() ==> lun_valid(#[trigger] c.luns@[i].1),
        conf_names_unique(c),
    ensures
        !conf_valid(c) <==> exists|i: int|
            0 <= i < c.auth_groups@.len() && (#[trigger] c.auth_groups@[i]).1.chap@.len() > 0
                && c.auth_groups@[i].1.chap_mutual@.len() > 0,
{
    if !conf_valid(c) {
        let i = choose|i: int| 0 <= i < c.auth_groups@.len() && !auth_group_valid(#[trigger] c.auth_groups@[i].1);
        assert(c.auth_groups@[i].1.chap@.len() > 0 && c.auth_groups@[i].1.chap_mutual@.len() > 0);
    }
}

} // verus!
