use dokany::option_flags::DOKAN_OPTION_MOUNT_MANAGER;
use dokany::OptionFlags;
use dokany::Options;

fn utf16(s: &str) -> Vec<u16> {
    s.encode_utf16().collect()
}

#[test]
fn new_options_are_empty() {
    let options = Options::new();
    assert_eq!(options.version(), 0);
    assert_eq!(options.option_flags(), 0);
    assert_eq!(options.mount_point(), &[] as &[u16]);
}

#[test]
fn default_options_match_new() {
    let options = Options::default();
    assert_eq!(options.version(), 0);
    assert_eq!(options.option_flags(), 0);
    assert_eq!(options.mount_point(), &[] as &[u16]);
}

#[test]
fn set_version_keeps_other_fields() {
    let mut options = Options::new();
    options.set_mount_point("Z");
    options.set_version(209);
    assert_eq!(options.version(), 209);
    assert_eq!(options.option_flags(), 0);
    assert_eq!(options.mount_point(), &[90, 0]);
}

#[test]
fn set_mount_point_appends_terminator() {
    let mut options = Options::new();
    options.set_mount_point("Z");
    assert_eq!(options.mount_point(), &[90, 0]);
    options.set_mount_point("C:\\mount\\dokan");
    let mut expected = utf16("C:\\mount\\dokan");
    expected.push(0);
    assert_eq!(options.mount_point(), expected.as_slice());
}

#[test]
fn set_option_flags_stores_raw_bits() {
    let mut options = Options::new();
    options.set_option_flags(OptionFlags::from_bits_retain(DOKAN_OPTION_MOUNT_MANAGER));
    assert_eq!(options.option_flags(), DOKAN_OPTION_MOUNT_MANAGER);
}
