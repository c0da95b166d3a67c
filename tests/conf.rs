use ctld::conf::{
    AuthGroup, AuthType, Backend, Chap, ChapMutual, Conf, ConfError, DeviceType, DiscoveryFilter, Lun,
};

fn chap() -> Chap {
    Chap { user: String::from("foo"), secret: String::from("bar") }
}

fn chap_mutual() -> ChapMutual {
    ChapMutual {
        user: String::from("foo"),
        secret: String::from("bar"),
        mutual_user: String::from("mutualfoo"),
        mutual_secret: String::from("mutualbar"),
    }
}

fn auth_group(chap: Vec<Chap>, chap_mutual: Vec<ChapMutual>) -> AuthGroup {
    AuthGroup {
        auth_type: AuthType::Unknown,
        chap,
        chap_mutual,
        initiator_name: None,
        initiator_portal: Vec::new(),
    }
}

fn conf_with(groups: Vec<(String, AuthGroup)>) -> Conf {
    Conf { auth_groups: groups, portal_groups: Vec::new(), luns: Vec::new(), targets: Vec::new() }
}

/// It is an error to mix chap and chap-mutual entries for the same auth-group
#[test]
fn chap_and_chap_mutual() {
    let conf = conf_with(vec![(String::from("ag0"), auth_group(vec![chap()], vec![chap_mutual()]))]);
    assert_eq!(conf.validate().unwrap_err(), ConfError::ChapAndChapMutual(String::from("ag0")));
}

#[test]
fn chap_alone_or_chap_mutual_alone_is_valid() {
    let conf = conf_with(vec![
        (String::from("ag0"), auth_group(vec![chap()], vec![])),
        (String::from("ag1"), auth_group(vec![], vec![chap_mutual()])),
        (String::from("ag2"), auth_group(vec![], vec![])),
    ]);
    assert_eq!(conf.validate(), Ok(()));
    assert!(conf.auth_groups[0].1.validate().is_ok());
}

#[test]
fn memory_backed_lun_needs_a_size() {
    let lun = Lun {
        backend: Backend::Ramdisk,
        blocksize: None,
        ctl_lun: None,
        device_id: String::from("r0"),
        device_type: DeviceType::Disk,
        options: Vec::new(),
        path: String::new(),
        serial: None,
        size: None,
    };
    let mut conf = conf_with(Vec::new());
    conf.luns.push((String::from("r0"), lun.clone()));
    assert_eq!(conf.validate().unwrap_err(), ConfError::MissingSize(String::from("r0")));
    conf.luns[0].1.size = Some(1 << 20);
    assert_eq!(conf.validate(), Ok(()));
    conf.luns[0].1.size = None;
    conf.luns[0].1.backend = Backend::Block;
    assert_eq!(conf.validate(), Ok(()));
}

#[test]
fn tokens_map_both_ways() {
    assert_eq!(Backend::from_token("block"), Some(Backend::Block));
    assert_eq!(Backend::from_token("ramdisk"), Some(Backend::Ramdisk));
    assert_eq!(Backend::from_token("Block"), None);
    assert_eq!(Backend::Ramdisk.as_str(), "ramdisk");
    assert_eq!(Backend::Block.as_str(), "block");
    for t in ["disk", "direct", "0"] {
        assert_eq!(DeviceType::from_token(t), Some(DeviceType::Disk));
    }
    for t in ["processor", "3"] {
        assert_eq!(DeviceType::from_token(t), Some(DeviceType::Processor));
    }
    for t in ["cd", "cdrom", "dvd", "dvdrom", "5"] {
        assert_eq!(DeviceType::from_token(t), Some(DeviceType::Cd));
    }
    assert_eq!(DeviceType::from_token("tape"), None);
    assert_eq!(DeviceType::from_code("disk"), None);
    assert_eq!(DeviceType::from_code("3"), Some(DeviceType::Processor));
    assert_eq!(DeviceType::Cd.code(), 5);
    assert_eq!(DeviceType::Processor.code(), 3);
    assert_eq!(AuthType::from_token("chap-mutual"), Some(AuthType::ChapMutual));
    assert_eq!(AuthType::from_token("none"), Some(AuthType::NoAuthentication));
    assert_eq!(AuthType::from_token("deny"), Some(AuthType::Deny));
    assert_eq!(AuthType::from_token("chap"), Some(AuthType::Chap));
    assert_eq!(AuthType::from_token(""), None);
    assert_eq!(DiscoveryFilter::from_token("none"), Some(DiscoveryFilter::Unfiltered));
    assert_eq!(DiscoveryFilter::from_token("portal-name-auth"), Some(DiscoveryFilter::PortalNameAuth));
    assert_eq!(DiscoveryFilter::from_token("portal-name"), Some(DiscoveryFilter::PortalName));
    assert_eq!(DiscoveryFilter::from_token("portal"), Some(DiscoveryFilter::Portal));
    assert_eq!(DiscoveryFilter::from_token("portals"), None);
}

#[test]
fn names_are_given_once() {
    let mut conf = conf_with(vec![
        (String::from("ag0"), auth_group(vec![chap()], vec![])),
        (String::from("ag0"), auth_group(vec![], vec![])),
    ]);
    assert_eq!(conf.validate().unwrap_err(), ConfError::DuplicateName(String::from("ag0")));
    conf.auth_groups[1].0 = String::from("ag1");
    assert_eq!(conf.validate(), Ok(()));
    let lun = Lun {
        backend: Backend::Block,
        blocksize: None,
        ctl_lun: None,
        device_id: String::from("b0"),
        device_type: DeviceType::Disk,
        options: vec![
            (String::from("vendor"), String::from("a")),
            (String::from("vendor"), String::from("b")),
        ],
        path: String::from("/dev/da0"),
        serial: None,
        size: None,
    };
    conf.luns.push((String::from("b0"), lun));
    assert_eq!(conf.validate().unwrap_err(), ConfError::DuplicateName(String::from("vendor")));
}
