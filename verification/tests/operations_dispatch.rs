use dokany::callback_status;
use dokany::dispatch_create_file;
use dokany::dispatch_find_files;
use dokany::dispatch_get_volume_information;
use dokany::dispatch_mounted;
use dokany::dispatch_unmounted;
use dokany::drive_letter_unit;
use dokany::file_system_flags::FILE_READ_ONLY_VOLUME;
use dokany::file_system_flags::FILE_UNICODE_ON_DISK;
use dokany::wide::terminated_prefix;
use dokany::AccessMask;
use dokany::FileSystem;
use dokany::FileSystemFlags;
use dokany::MountLifecycle;
use dokany::MountPhase;
use dokany::WriteWideCStringCell;
use dokany::NTSTATUS;
use dokany::STATUS_INTERNAL_ERROR;
use dokany::STATUS_NOT_IMPLEMENTED;
use dokany::STATUS_NO_SUCH_FILE;
use dokany::STATUS_SUCCESS;

fn utf16(s: &str) -> Vec<u16> {
    s.encode_utf16().collect()
}

/// A filesystem that implements nothing, leaving every default in place.
struct NullFileSystem;

impl FileSystem for NullFileSystem {}

/// A filesystem like a minimal in-memory example: it refuses one special
/// path, marks the root as a directory, and describes its volume.
struct SimpleFileSystem;

impl FileSystem for SimpleFileSystem {
    fn create_file(
        &self,
        file_name: &[u16],
        _desired_access: AccessMask,
        is_dir: &mut bool,
    ) -> NTSTATUS {
        if file_name == utf16("\\System Volume Information").as_slice() {
            return STATUS_NO_SUCH_FILE;
        }
        if file_name == utf16("\\").as_slice() {
            *is_dir = true;
        }
        STATUS_SUCCESS
    }

    fn find_files(&self, _file_name: &[u16]) -> NTSTATUS {
        STATUS_SUCCESS
    }

    fn get_volume_information(
        &self,
        volume_name: &mut WriteWideCStringCell,
        volume_serial_number: &mut u32,
        maximum_component_length: &mut u32,
        file_system_flags: &mut FileSystemFlags,
        file_system_name: &mut WriteWideCStringCell,
    ) -> NTSTATUS {
        volume_name.write("Simple Filesystem");
        *volume_serial_number = 1337;
        *maximum_component_length = 255;
        file_system_flags.insert(
            FileSystemFlags::from_bits_retain(FILE_UNICODE_ON_DISK)
                .union(FileSystemFlags::from_bits_retain(FILE_READ_ONLY_VOLUME)),
        );
        file_system_name.write("NTFS");
        STATUS_SUCCESS
    }
}

#[test]
fn clean_return_passes_status_verbatim() {
    assert_eq!(callback_status(Some(STATUS_SUCCESS)), STATUS_SUCCESS);
    assert_eq!(callback_status(Some(STATUS_NO_SUCH_FILE)), STATUS_NO_SUCH_FILE);
    assert_eq!(callback_status(Some(7)), 7);
}

#[test]
fn intercepted_fault_becomes_internal_error() {
    // `None` is what a trampoline hands over after it intercepted an
    // unwind from the filesystem instead of a status code.
    assert_eq!(callback_status(None), STATUS_INTERNAL_ERROR);
}

#[test]
fn create_file_refuses_special_path() {
    let fs = SimpleFileSystem;
    let name = utf16("\\System Volume Information");
    let mut is_dir = false;
    let status = dispatch_create_file(&fs, &name, 0, &mut is_dir);
    assert_eq!(status, STATUS_NO_SUCH_FILE);
    assert!(!is_dir);
}

#[test]
fn create_file_marks_root_as_directory() {
    let fs = SimpleFileSystem;
    let name = utf16("\\");
    let mut is_dir = false;
    let status = dispatch_create_file(&fs, &name, 1, &mut is_dir);
    assert_eq!(status, STATUS_SUCCESS);
    assert!(is_dir);
}

#[test]
fn unimplemented_operations_report_not_implemented() {
    let fs = NullFileSystem;
    let name = utf16("\\somewhere");
    let mut is_dir = false;
    assert_eq!(
        dispatch_create_file(&fs, &name, 0, &mut is_dir),
        STATUS_NOT_IMPLEMENTED
    );
    assert_eq!(dispatch_find_files(&fs, &name), STATUS_NOT_IMPLEMENTED);
}

#[test]
fn default_mount_notifications_succeed() {
    let fs = NullFileSystem;
    assert_eq!(dispatch_mounted(&fs, &utf16("Z:\\")), STATUS_SUCCESS);
    assert_eq!(dispatch_unmounted(&fs), STATUS_SUCCESS);
}

#[test]
fn volume_information_defaults_survive_a_null_filesystem() {
    let fs = NullFileSystem;
    let reply = dispatch_get_volume_information(&fs, 32, 16);
    assert_eq!(reply.status, STATUS_NOT_IMPLEMENTED);
    assert_eq!(reply.volume_serial_number, 0x19831116);
    assert_eq!(reply.maximum_component_length, 255);
    assert_eq!(reply.file_system_flags.bits(), 0);
    assert!(!reply.volume_name.is_initialized());
    assert!(!reply.file_system_name.is_initialized());
    // Untouched buffers are zeroed, so they read back as empty strings.
    assert_eq!(reply.volume_name.total_len(), 32);
    assert_eq!(terminated_prefix(reply.volume_name.as_units()), utf16(""));
    assert_eq!(terminated_prefix(reply.file_system_name.as_units()), utf16(""));
}

#[test]
fn volume_information_carries_what_the_filesystem_wrote() {
    let fs = SimpleFileSystem;
    let reply = dispatch_get_volume_information(&fs, 32, 16);
    assert_eq!(reply.status, STATUS_SUCCESS);
    assert_eq!(reply.volume_serial_number, 1337);
    assert_eq!(reply.maximum_component_length, 255);
    assert_eq!(
        reply.file_system_flags.bits(),
        FILE_UNICODE_ON_DISK | FILE_READ_ONLY_VOLUME
    );
    assert!(reply.volume_name.is_initialized());
    assert!(reply.file_system_name.is_initialized());
    assert_eq!(
        terminated_prefix(reply.volume_name.as_units()),
        utf16("Simple Filesystem")
    );
    assert_eq!(
        terminated_prefix(reply.file_system_name.as_units()),
        utf16("NTFS")
    );
}

#[test]
fn volume_name_longer_than_native_buffer_is_truncated() {
    let fs = SimpleFileSystem;
    let reply = dispatch_get_volume_information(&fs, 8, 16);
    // No overrun: the buffer keeps the size the native library gave.
    assert_eq!(reply.volume_name.total_len(), 8);
    let units = reply.volume_name.as_units();
    assert_eq!(units[7], 0);
    assert_eq!(terminated_prefix(units), utf16("Simple "));
}

#[test]
fn context_walks_install_then_release() {
    let mut lifecycle = MountLifecycle::new();
    assert_eq!(lifecycle.phase(), MountPhase::Idle);
    lifecycle.install();
    assert_eq!(lifecycle.phase(), MountPhase::Installed);
    lifecycle.release();
    assert_eq!(lifecycle.phase(), MountPhase::Released);
}

#[test]
fn drive_letters_fit_in_a_byte_or_are_refused() {
    assert_eq!(drive_letter_unit('Z'), Some(90));
    assert_eq!(drive_letter_unit('a'), Some(97));
    assert_eq!(drive_letter_unit('\u{FF}'), Some(255));
    assert_eq!(drive_letter_unit('\u{100}'), None);
    assert_eq!(drive_letter_unit('\u{1F600}'), None);
}
