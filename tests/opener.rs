use dfu_nusb::error::DfuNusbError;
use dfu_core::DfuProtocol;
use dfu_nusb::opener::{
    alt_string_index, find_alt, first_language, language_for, layout_name_readable, locate_descriptor, name_or_empty,
    protocol_for, select_device, AltSetting,
};

fn interface_descriptor(alt: u8) -> Vec<u8> {
    vec![9, 4, 0, alt, 0, 0xfe, 1, 2, 0]
}

fn functional(minor: u8, major: u8) -> Vec<u8> {
    vec![9, 0x21, 0x0b, 0xff, 0x00, 0x00, 0x08, minor, major]
}

fn setting(number: u8, string_index: Option<u8>, extra: Vec<Vec<u8>>) -> AltSetting {
    let mut descriptors = vec![interface_descriptor(number)];
    descriptors.extend(extra);
    AltSetting { number, string_index, descriptors }
}

#[test]
fn no_matching_device_is_not_found() {
    let ids = vec![(0x1234, 0x5678), (0x0483, 0x0001)];
    assert!(matches!(select_device(&ids, 0x0483, 0xdf11), Err(DfuNusbError::DeviceNotFound)));
    assert!(matches!(select_device(&Vec::new(), 0x0483, 0xdf11), Err(DfuNusbError::DeviceNotFound)));
}

#[test]
fn first_matching_device_is_chosen() {
    let ids = vec![(0x1234, 0x5678), (0x0483, 0xdf11), (0x0483, 0xdf11)];
    assert_eq!(select_device(&ids, 0x0483, 0xdf11).unwrap(), 1);
}

#[test]
fn alternate_setting_found_by_number() {
    let alts = vec![setting(0, None, vec![]), setting(2, None, vec![]), setting(2, Some(5), vec![])];
    assert_eq!(find_alt(&alts, 2), Some(1));
    assert_eq!(find_alt(&alts, 1), None);
}

#[test]
fn functional_descriptor_is_parsed() {
    let alts = vec![setting(0, Some(4), vec![vec![7, 5, 0x81, 2, 64, 0, 0], functional(0x1a, 0x01)])];
    let (d, version) = locate_descriptor(&alts, 0).unwrap();
    assert_eq!(version, (0x01, 0x1a));
    assert_eq!(d.dfu_version, (0x01, 0x1a));
    assert_eq!(d.transfer_size, 0x0800);
    assert_eq!(d.detach_timeout, 0x00ff);
    assert!(d.can_download);
    assert!(d.can_upload);
    assert!(!d.manifestation_tolerant);
    assert!(d.will_detach);
}

#[test]
fn missing_functional_descriptor() {
    let alts = vec![setting(0, None, vec![vec![7, 5, 0x81, 2, 64, 0, 0]])];
    assert!(matches!(locate_descriptor(&alts, 0), Err(DfuNusbError::FunctionalDescriptorNotFound)));
}

#[test]
fn functional_descriptor_of_another_setting_is_ignored() {
    let alts = vec![setting(0, None, vec![]), setting(1, None, vec![functional(0x10, 0x01)])];
    assert!(matches!(locate_descriptor(&alts, 0), Err(DfuNusbError::FunctionalDescriptorNotFound)));
    assert!(locate_descriptor(&alts, 1).is_ok());
}

#[test]
fn missing_alternate_setting_has_no_descriptor() {
    let alts = vec![setting(0, None, vec![functional(0x10, 0x01)])];
    assert!(matches!(locate_descriptor(&alts, 3), Err(DfuNusbError::FunctionalDescriptorNotFound)));
}

#[test]
fn short_functional_descriptor_is_an_error() {
    let alts = vec![setting(0, None, vec![vec![5, 0x21, 0x0b, 0xff, 0x00]])];
    assert!(matches!(locate_descriptor(&alts, 0), Err(DfuNusbError::FunctionalDescriptor(_))));
}

#[test]
fn string_index_of_the_setting() {
    let alts = vec![setting(0, None, vec![]), setting(1, Some(6), vec![])];
    assert_eq!(alt_string_index(&alts, 1).unwrap(), Some(6));
    assert_eq!(alt_string_index(&alts, 0).unwrap(), None);
    assert!(matches!(alt_string_index(&alts, 2), Err(DfuNusbError::AltSettingNotFound)));
}

#[test]
fn first_supported_language_or_zero() {
    assert_eq!(first_language(&vec![0x0409, 0x0407]), 0x0409);
    assert_eq!(first_language(&Vec::new()), 0);
}

#[test]
fn readable_layout_names() {
    assert!(layout_name_readable("@Internal Flash  /0x08000000/04*016Kg,01*064Kg,07*128Kg"));
    assert!(layout_name_readable("x/0x0/1*4095Mg"));
    assert!(layout_name_readable("x/0x0/1*4194303Kg"));
    assert!(layout_name_readable(""));
}

#[test]
fn unreadable_layout_names() {
    assert!(!layout_name_readable("x/0x0/1*1\u{e9}"));
    assert!(!layout_name_readable("x/0x0/1*9999999Kg"));
    assert!(!layout_name_readable("x/0x0/1*4096Mg"));
    assert!(!layout_name_readable("x/0x0/1*4194304Kg"));
}

#[test]
fn plain_dfu_protocol() {
    assert!(matches!(protocol_for("", (1, 0x10)), Ok(DfuProtocol::Dfu)));
}

#[test]
fn dfuse_protocol_reads_address_and_layout() {
    let p = protocol_for("@Internal Flash  /0x08000000/04*016Kg,01*064Kg", (1, 0x1a)).unwrap();
    match p {
        DfuProtocol::Dfuse { address, memory_layout } => {
            assert_eq!(address, 0x0800_0000);
            assert_eq!(memory_layout.len(), 5);
            assert_eq!(memory_layout[0], 16 * 1024);
            assert_eq!(memory_layout[4], 64 * 1024);
        }
        DfuProtocol::Dfu => panic!("expected DfuSe"),
    }
}

#[test]
fn unknown_dfu_version_is_refused() {
    assert!(matches!(protocol_for("", (2, 0)), Err(DfuNusbError::Dfu(_))));
    assert!(matches!(protocol_for("no layout", (1, 0x1a)), Err(DfuNusbError::Dfu(_))));
}

#[test]
fn unsafe_layout_name_is_refused() {
    assert!(matches!(protocol_for("x/0x0/1*1\u{e9}", (1, 0x1a)), Err(DfuNusbError::InvalidInterfaceName)));
    assert!(matches!(protocol_for("x/0x0/1*9999999Kg", (1, 0x1a)), Err(DfuNusbError::InvalidInterfaceName)));
}

#[test]
fn name_queries_fall_back_to_empty() {
    let failed = || std::io::Error::new(std::io::ErrorKind::Other, "stall");
    assert_eq!(language_for(&Err(failed())), None);
    assert_eq!(language_for(&Ok(vec![0x0409])), Some(0x0409));
    assert_eq!(language_for(&Ok(Vec::new())), Some(0));
    assert_eq!(name_or_empty(Err(failed())), "");
    assert_eq!(name_or_empty(Ok("@Flash".to_string())), "@Flash");
}
