use ctld::conf::{Backend, DeviceType};
use ctld::kconf::{Ctllunlist, Ctlportlist};
use ctld::xml::{frame, DecodeError, XmlToken};

/// Parse a CtlLunlist that contains no LUNs.
#[test]
fn blank() {
    let xml = "<ctllunlist></ctllunlist>";
    let llist = Ctllunlist::from_xml(xml).unwrap();
    assert!(llist.text.is_none());
    assert!(llist.lun.is_empty());
}

/// Parse a Ctllunlist containing one ramdisk LUN
#[test]
fn ramdisk() {
    let xml =
"<ctllunlist>
<lun id=\"42\">
	<backend_type>ramdisk</backend_type>
	<lun_type>0</lun_type>
	<size>64</size>
	<blocksize>2048</blocksize>
	<serial_number>123456</serial_number>
	<device_id>foo</device_id>
</lun>
</ctllunlist>";
    let llist = Ctllunlist::from_xml(xml).unwrap();
    assert!(llist.text.is_none());
    assert_eq!(llist.lun.len(), 1);
    assert_eq!(llist.lun[0].id, 42);
    assert_eq!(llist.lun[0].backend_type, Backend::Ramdisk);
    assert_eq!(llist.lun[0].blocksize, 2048);
    assert_eq!(llist.lun[0].size, 64);
    assert_eq!(llist.lun[0].device_id, "foo");
    assert_eq!(llist.lun[0].serial_number, "123456");
    assert_eq!(llist.lun[0].lun_type, DeviceType::Disk);
}

/// Parse a Ctllunlist containing one block LUN
#[test]
fn block() {
    let xml =
"<ctllunlist>
<lun id=\"42\">
	<backend_type>block</backend_type>
	<lun_type>0</lun_type>
	<size>64</size>
	<blocksize>2048</blocksize>
	<serial_number>123456</serial_number>
	<device_id>foo</device_id>
	<num_threads>32</num_threads>
</lun>
</ctllunlist>";
    let llist = Ctllunlist::from_xml(xml).unwrap();
    assert_eq!(llist.lun[0].id, 42);
    assert_eq!(llist.lun[0].backend_type, Backend::Block);
    assert_eq!(llist.lun[0].blocksize, 2048);
    assert_eq!(llist.lun[0].size, 64);
    assert_eq!(llist.lun[0].device_id, "foo");
    assert_eq!(llist.lun[0].serial_number, "123456");
    assert_eq!(llist.lun[0].lun_type, DeviceType::Disk);
    assert_eq!(llist.lun[0].num_threads, Some(32));
}

/// Parse a Ctllunlist containing various options
#[test]
fn options() {
    let xml =
"<ctllunlist>
<lun id=\"0\">
	<backend_type>block</backend_type>
	<lun_type>0</lun_type>
	<size>2097152</size>
	<blocksize>512</blocksize>
	<serial_number>MYSERIAL0000</serial_number>
	<device_id>MYDEVID0000</device_id>
	<num_threads>32</num_threads>
	<file>/tmp/testlun</file>
	<vendor>foo</vendor>
	<product>bar</product>
	<revision>0123</revision>
	<scsiname>baz</scsiname>
	<eui>0xdeadbeef</eui>
	<naa>0x1a7ebabe</naa>
	<uuid>2dec855d-895c-40a1-8e98-8cba77d79777</uuid>
	<ident_info>0x8888</ident_info>
	<text_ident_info>eighteighteighteight</text_ident_info>
	<ha_role>primary</ha_role>
	<insecure_tpc>on</insecure_tpc>
	<readcache>off</readcache>
	<readonly>on</readonly>
	<removable>on</removable>
	<reordering>unrestricted</reordering>
	<serseq>on</serseq>
	<pblocksize>4096</pblocksize>
	<pblockoffset>512</pblockoffset>
	<ublocksize>131072</ublocksize>
	<ublockoffset>0</ublockoffset>
	<rpm>7200</rpm>
	<formfactor>2</formfactor>
	<temperature>75</temperature>
	<reftemperature>70</reftemperature>
	<provisioning_type>thin</provisioning_type>
	<unmap>on</unmap>
	<unmap_max_lba>1048576</unmap_max_lba>
	<write_same_max_lba>1048576</write_same_max_lba>
	<avail-threashold>20</avail-threashold>
	<used-threshold>81</used-threshold>
	<pool-avail-threshold>22</pool-avail-threshold>
	<pool-used-threshold>83</pool-used-threshold>
	<writecache>off</writecache>
</lun>
</ctllunlist>";
    let llist = Ctllunlist::from_xml(xml).unwrap();
    assert_eq!(llist.lun[0].file, Some(String::from("/tmp/testlun")));
}

#[test]
fn lun_fields_absent_take_defaults() {
    let llist = Ctllunlist::from_xml("<ctllunlist><lun id=\"7\"/></ctllunlist>").unwrap();
    assert_eq!(llist.lun.len(), 1);
    assert_eq!(llist.lun[0].id, 7);
    assert_eq!(llist.lun[0].backend_type, Backend::Block);
    assert_eq!(llist.lun[0].lun_type, DeviceType::Disk);
    assert_eq!(llist.lun[0].size, 0);
    assert_eq!(llist.lun[0].serial_number, "");
    assert_eq!(llist.lun[0].num_threads, None);
    assert_eq!(llist.lun[0].file, None);
    assert_eq!(llist.lun[0].ctld_name, None);
}

#[test]
fn lun_ctld_name_and_processor_type() {
    let xml = "<ctllunlist><lun id=\"3\"><lun_type>3</lun_type><ctld_name>disk0</ctld_name>\
               <lun_type>5</lun_type></lun></ctllunlist>";
    let llist = Ctllunlist::from_xml(xml).unwrap();
    // A later field overrides an earlier one.
    assert_eq!(llist.lun[0].lun_type, DeviceType::Cd);
    assert_eq!(llist.lun[0].ctld_name, Some(String::from("disk0")));
}

#[test]
fn unknown_backend_is_refused() {
    let xml = "<ctllunlist><lun id=\"1\"><backend_type>tape</backend_type></lun></ctllunlist>";
    assert_eq!(
        Ctllunlist::from_xml(xml).unwrap_err(),
        DecodeError::BadValue(String::from("backend_type"))
    );
}

#[test]
fn unknown_device_type_is_refused() {
    let xml = "<ctllunlist><lun id=\"1\"><lun_type>7</lun_type></lun></ctllunlist>";
    assert_eq!(
        Ctllunlist::from_xml(xml).unwrap_err(),
        DecodeError::BadValue(String::from("lun_type"))
    );
}

#[test]
fn bad_numbers_are_refused() {
    let xml = "<ctllunlist><lun id=\"x1\"></lun></ctllunlist>";
    assert_eq!(Ctllunlist::from_xml(xml).unwrap_err(), DecodeError::BadValue(String::from("id")));
    let xml = "<ctllunlist><lun id=\"1\"><blocksize>4294967296</blocksize></lun></ctllunlist>";
    assert_eq!(
        Ctllunlist::from_xml(xml).unwrap_err(),
        DecodeError::BadValue(String::from("blocksize"))
    );
    let xml = "<ctllunlist><lun id=\"18446744073709551615\"><size>18446744073709551616</size></lun></ctllunlist>";
    assert_eq!(Ctllunlist::from_xml(xml).unwrap_err(), DecodeError::BadValue(String::from("size")));
}

#[test]
fn largest_id_is_read() {
    let xml = "<ctllunlist><lun id=\"18446744073709551615\"></lun></ctllunlist>";
    assert_eq!(Ctllunlist::from_xml(xml).unwrap().lun[0].id, u64::MAX);
}

#[test]
fn malformed_xml_is_an_error() {
    assert_eq!(Ctllunlist::from_xml("<ctllunlist><lun>").unwrap_err(), DecodeError::Malformed);
    assert_eq!(Ctllunlist::from_xml("<ctlportlist></ctlportlist>").unwrap_err(), DecodeError::Malformed);
    assert_eq!(Ctllunlist::from_xml("").unwrap_err(), DecodeError::Malformed);
    assert_eq!(
        Ctllunlist::from_xml("<ctllunlist></ctllunlist><x/>").unwrap_err(),
        DecodeError::Malformed
    );
}

#[test]
fn references_are_resolved() {
    let xml = "<ctllunlist><lun id=\"1\"><serial_number>a&amp;b&#x41;&#66;</serial_number></lun></ctllunlist>";
    let llist = Ctllunlist::from_xml(xml).unwrap();
    assert_eq!(llist.lun[0].serial_number, "a&bAB");
    let xml = "<ctllunlist><lun id=\"1\"><serial_number>&nbsp;</serial_number></lun></ctllunlist>";
    assert_eq!(
        Ctllunlist::from_xml(xml).unwrap_err(),
        DecodeError::UnknownReference(String::from("nbsp"))
    );
}

#[test]
fn root_text_is_kept() {
    let llist = Ctllunlist::from_xml("<ctllunlist> hello </ctllunlist>").unwrap();
    assert_eq!(llist.text, Some(String::from(" hello ")));
}

#[test]
fn unknown_elements_are_skipped() {
    let xml = "<?xml version=\"1.0\"?><!-- list --><ctllunlist><extra><lun id=\"9\"/></extra>\
               <lun id=\"2\"><size>8<b>ignored</b></size></lun></ctllunlist>";
    let llist = Ctllunlist::from_xml(xml).unwrap();
    assert_eq!(llist.lun.len(), 1);
    assert_eq!(llist.lun[0].id, 2);
    assert_eq!(llist.lun[0].size, 8);
}

#[test]
fn from_tokens_blank_list() {
    let toks = vec![
        XmlToken::Open { name: String::from("ctllunlist"), attrs: vec![] },
        XmlToken::Text(String::from("\n  ")),
        XmlToken::Close { name: String::from("ctllunlist") },
        XmlToken::End,
    ];
    let l = Ctllunlist::from_tokens(toks).unwrap();
    assert!(l.text.is_none());
    assert!(l.lun.is_empty());
}

#[test]
fn frame_keeps_records_and_fields() {
    let toks = vec![
        XmlToken::Open { name: String::from("r"), attrs: vec![] },
        XmlToken::Open { name: String::from("x"), attrs: vec![(String::from("id"), String::from("1"))] },
        XmlToken::Open { name: String::from("f"), attrs: vec![] },
        XmlToken::Text(String::from("a")),
        XmlToken::Text(String::from("b")),
        XmlToken::Close { name: String::from("f") },
        XmlToken::Leaf { name: String::from("g"), attrs: vec![] },
        XmlToken::Close { name: String::from("x") },
        XmlToken::Close { name: String::from("r") },
        XmlToken::End,
    ];
    let f = frame("r", "x", toks).unwrap();
    assert_eq!(f.records.len(), 1);
    assert_eq!(f.records[0].attrs, vec![(String::from("id"), String::from("1"))]);
    assert_eq!(f.records[0].fields.len(), 2);
    assert_eq!(f.records[0].fields[0].name, "f");
    assert_eq!(f.records[0].fields[0].text, "ab");
    assert_eq!(f.records[0].fields[1].name, "g");
    assert_eq!(f.records[0].fields[1].text, "");
    let unclosed = vec![XmlToken::Open { name: String::from("r"), attrs: vec![] }, XmlToken::End];
    assert!(frame("r", "x", unclosed).is_none());
}

#[test]
fn port_list() {
    let xml = "<ctlportlist>
<targ_port id=\"0\">
	<frontend_type>camsim</frontend_type>
	<port_type>8</port_type>
	<online>NO</online>
	<port_name>camsim</port_name>
	<physical_port>0</physical_port>
	<virtual_port>0</virtual_port>
	<target>naa.50000007f5a2e801</target>
</targ_port>
<targ_port id=\"1\">
	<frontend_type>iscsi</frontend_type>
	<port_type>16</port_type>
	<online>YES</online>
	<port_name>iqn.2012-06.com.example:target0,t,0x0101</port_name>
	<physical_port>0</physical_port>
	<virtual_port>0</virtual_port>
	<lun id=\"0\">3</lun>
	<cfiscsi_portal_group_tag>257</cfiscsi_portal_group_tag>
	<ctld_portal_group_name>pg0</ctld_portal_group_name>
</targ_port>
</ctlportlist>";
    let plist = Ctlportlist::from_xml(xml).unwrap();
    assert!(plist.text.is_none());
    assert_eq!(plist.targ_port.len(), 2);
    assert_eq!(plist.targ_port[0].id, "0");
    assert_eq!(plist.targ_port[0].frontend_type, "camsim");
    assert_eq!(plist.targ_port[0].online, "NO");
    assert_eq!(plist.targ_port[0].target, Some(String::from("naa.50000007f5a2e801")));
    assert!(plist.targ_port[0].lun.is_none());
    assert_eq!(plist.targ_port[1].frontend_type, "iscsi");
    assert_eq!(plist.targ_port[1].cfiscsi_portal_group_tag, Some(257));
    assert_eq!(plist.targ_port[1].ctld_portal_group_name, Some(String::from("pg0")));
    let lun = plist.targ_port[1].lun.as_ref().unwrap();
    assert_eq!(lun.id, "0");
    assert_eq!(lun.text, Some(String::from("3")));
}

#[test]
fn port_tag_out_of_range_is_refused() {
    let xml = "<ctlportlist><targ_port id=\"1\"><cfiscsi_portal_group_tag>65536</cfiscsi_portal_group_tag></targ_port></ctlportlist>";
    assert_eq!(
        Ctlportlist::from_xml(xml).unwrap_err(),
        DecodeError::BadValue(String::from("cfiscsi_portal_group_tag"))
    );
}

#[test]
fn empty_port_list() {
    let plist = Ctlportlist::from_xml("<ctlportlist/>").unwrap();
    assert!(plist.targ_port.is_empty());
}

#[test]
fn character_references_outside_unicode_are_refused() {
    for r in ["#0", "#xD800", "#X41", "#x110000", "#+65", "#", "#x", "#4294967296"] {
        let xml = format!("<ctllunlist><lun id=\"1\"><device_id>&{};</device_id></lun></ctllunlist>", r);
        assert_eq!(
            Ctllunlist::from_xml(&xml).unwrap_err(),
            DecodeError::UnknownReference(String::from(r)),
            "{}",
            r
        );
    }
    let xml = "<ctllunlist><lun id=\"1\"><device_id>&#x10FFFF;&#xe9;&#xE9;</device_id></lun></ctllunlist>";
    assert_eq!(Ctllunlist::from_xml(xml).unwrap().lun[0].device_id, "\u{10FFFF}\u{e9}\u{e9}");
}
