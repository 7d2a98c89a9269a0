use dokany::access_mask::FILE_READ_DATA;
use dokany::access_mask::FILE_WRITE_DATA;
use dokany::file_system_flags::FILE_READ_ONLY_VOLUME;
use dokany::file_system_flags::FILE_UNICODE_ON_DISK;
use dokany::option_flags::DOKAN_OPTION_MOUNT_MANAGER;
use dokany::option_flags::DOKAN_OPTION_WRITE_PROTECT;
use dokany::AccessMask;
use dokany::FileSystemFlags;
use dokany::OptionFlags;

#[test]
fn option_flags_combine_extract_reconstruct() {
    let a = OptionFlags::from_bits_retain(DOKAN_OPTION_MOUNT_MANAGER);
    let b = OptionFlags::from_bits_retain(DOKAN_OPTION_WRITE_PROTECT);
    let combined = a.union(b);
    let raw = combined.bits();
    assert_eq!(raw, DOKAN_OPTION_MOUNT_MANAGER | DOKAN_OPTION_WRITE_PROTECT);
    let rebuilt = OptionFlags::from_bits_retain(raw);
    assert_eq!(rebuilt, combined);
    assert_eq!(rebuilt.bits(), raw);
}

#[test]
fn option_flags_preserve_unknown_bits() {
    let raw: u32 = 0xdead_beef;
    assert_eq!(OptionFlags::from_bits_retain(raw).bits(), raw);
}

#[test]
fn option_flags_contains_and_intersects() {
    let mut f = OptionFlags::empty();
    assert_eq!(f.bits(), 0);
    f.insert(OptionFlags::from_bits_retain(DOKAN_OPTION_MOUNT_MANAGER));
    assert!(f.contains(OptionFlags::from_bits_retain(DOKAN_OPTION_MOUNT_MANAGER)));
    assert!(!f.contains(OptionFlags::from_bits_retain(DOKAN_OPTION_WRITE_PROTECT)));
    assert!(f.intersects(OptionFlags::from_bits_retain(
        DOKAN_OPTION_MOUNT_MANAGER | DOKAN_OPTION_WRITE_PROTECT
    )));
    assert!(!f.intersects(OptionFlags::from_bits_retain(DOKAN_OPTION_WRITE_PROTECT)));
}

#[test]
fn file_system_flags_combine_extract_reconstruct() {
    let a = FileSystemFlags::from_bits_retain(FILE_UNICODE_ON_DISK);
    let b = FileSystemFlags::from_bits_retain(FILE_READ_ONLY_VOLUME);
    let combined = a.union(b);
    let raw = combined.bits();
    assert_eq!(raw, FILE_UNICODE_ON_DISK | FILE_READ_ONLY_VOLUME);
    assert_eq!(FileSystemFlags::from_bits_retain(raw), combined);
}

#[test]
fn file_system_flags_insert_accumulates() {
    let mut f = FileSystemFlags::empty();
    f.insert(FileSystemFlags::from_bits_retain(FILE_UNICODE_ON_DISK));
    f.insert(FileSystemFlags::from_bits_retain(FILE_READ_ONLY_VOLUME));
    assert_eq!(f.bits(), FILE_UNICODE_ON_DISK | FILE_READ_ONLY_VOLUME);
}

#[test]
fn access_mask_combine_extract_reconstruct() {
    let a = AccessMask::from_bits_retain(FILE_READ_DATA);
    let b = AccessMask::from_bits_retain(FILE_WRITE_DATA);
    let combined = a.union(b);
    let raw = combined.bits();
    assert_eq!(raw, FILE_READ_DATA | FILE_WRITE_DATA);
    assert_eq!(AccessMask::from_bits_retain(raw), combined);
    assert!(combined.contains(a));
    assert!(combined.contains(b));
    assert!(!AccessMask::empty().intersects(combined));
}

#[test]
fn access_mask_preserves_every_pattern() {
    let patterns: [u32; 5] = [0, 1, 0x1F01FF, 0x8000_0000, u32::MAX];
    for raw in patterns {
        assert_eq!(AccessMask::from_bits_retain(raw).bits(), raw);
    }
}
