use vstd::prelude::*;

use crate::access_mask::AccessMask;
use crate::file_system_flags::FileSystemFlags;
use crate::wide::wide_str_len;
use crate::FileSystem;
use crate::WriteWideCStringCell;
use crate::NTSTATUS;
use crate::STATUS_INTERNAL_ERROR;

verus! {

/// The status a trampoline hands back to the native library: the code the
/// filesystem operation returned when it returned cleanly, and the
/// designated internal-error status when the operation faulted instead of
/// returning. A fault is never propagated across the foreign boundary and
/// nothing is retried.
pub fn callback_status(outcome: Option<NTSTATUS>) -> (status: NTSTATUS)
    ensures
        outcome matches Some(code) ==> status == code,
        outcome is None ==> status == STATUS_INTERNAL_ERROR,
{
    match outcome {
        Some(code) => code,
        None => STATUS_INTERNAL_ERROR,
    }
}

/// The open operation behind the create-file trampoline: wraps the raw
/// desired-access word, lets the filesystem decide, and reports its status
/// code verbatim together with the directory marker it may have set.
pub fn dispatch_create_file<F: FileSystem>(
    fs: &F,
    file_name: &[u16],
    desired_access: u32,
    is_dir: &mut bool,
) -> (status: NTSTATUS)
    ensures
        exists|m: &mut bool|
            {
                &&& mut_ref_current(m) == *old(is_dir)
                &&& mut_ref_future(m) == *final(is_dir)
                &&& #[trigger] call_ensures(
                    F::create_file,
                    (fs, file_name, (AccessMask(desired_access)), m),
                    status,
                )
            },
{
    let status = fs.create_file(file_name, AccessMask::from_bits_retain(desired_access), is_dir);
    proof {
        assert(exists|m: &mut bool|
            #[trigger] call_ensures(
                F::create_file,
                (fs, file_name, (AccessMask(desired_access)), m),
                status,
            ));
    }
    status
}

/// The directory listing operation behind the find-files trampoline.
pub fn dispatch_find_files<F: FileSystem>(fs: &F, file_name: &[u16]) -> (status: NTSTATUS)
    ensures
        call_ensures(F::find_files, (fs, file_name), status),
{
    fs.find_files(file_name)
}

/// The notification behind the mounted trampoline.
pub fn dispatch_mounted<F: FileSystem>(fs: &F, mount_point: &[u16]) -> (status: NTSTATUS)
    ensures
        call_ensures(F::mounted, (fs, mount_point), status),
{
    fs.mounted(mount_point)
}

/// The notification behind the unmounted trampoline.
pub fn dispatch_unmounted<F: FileSystem>(fs: &F) -> (status: NTSTATUS)
    ensures
        call_ensures(F::unmounted, (fs,), status),
{
    fs.unmounted()
}

/// What a volume information query hands back to the native library: the
/// filesystem's status code, the name buffers it may have filled, and the
/// scalar fields it may have overwritten.
pub struct VolumeInformationReply {
    /// The status code the filesystem returned.
    pub status: NTSTATUS,
    /// The volume name buffer.
    pub volume_name: WriteWideCStringCell,
    /// The volume serial number.
    pub volume_serial_number: u32,
    /// The maximum length of a path component.
    pub maximum_component_length: u32,
    /// The capability flags of the volume.
    pub file_system_flags: FileSystemFlags,
    /// The filesystem name buffer.
    pub file_system_name: WriteWideCStringCell,
}

/// The volume information query behind its trampoline: makes name buffers
/// of the sizes the native library provided, fills every field with a
/// neutral default, lets the filesystem overwrite them, and hands
/// everything back. Whatever the filesystem did, both name buffers still
/// hold a terminating zero unit within their capacity, so copying them
/// back as zero-terminated strings cannot run past a buffer's end.
pub fn dispatch_get_volume_information<F: FileSystem>(
    fs: &F,
    volume_name_size: usize,
    file_system_name_size: usize,
) -> (r: VolumeInformationReply)
    requires
        volume_name_size >= 1,
        file_system_name_size >= 1,
    ensures
        r.volume_name@.len() >= 1,
        wide_str_len(r.volume_name@) < r.volume_name@.len(),
        r.file_system_name@.len() >= 1,
        wide_str_len(r.file_system_name@) < r.file_system_name@.len(),
        exists|
            vn: &mut WriteWideCStringCell,
            sn: &mut u32,
            mc: &mut u32,
            fl: &mut FileSystemFlags,
            fsn: &mut WriteWideCStringCell,
        |
            {
                &&& mut_ref_current(vn)@ == Seq::new(volume_name_size as nat, |i: int| 0u16)
                &&& !mut_ref_current(vn).is_init()
                &&& mut_ref_future(vn) == r.volume_name
                &&& mut_ref_current(sn) == 0x19831116u32
                &&& mut_ref_future(sn) == r.volume_serial_number
                &&& mut_ref_current(mc) == 255u32
                &&& mut_ref_future(mc) == r.maximum_component_length
                &&& mut_ref_current(fl) == (FileSystemFlags(0))
                &&& mut_ref_future(fl) == r.file_system_flags
                &&& mut_ref_current(fsn)@ == Seq::new(file_system_name_size as nat, |i: int| 0u16)
                &&& !mut_ref_current(fsn).is_init()
                &&& mut_ref_future(fsn) == r.file_system_name
                &&& #[trigger] call_ensures(
                    F::get_volume_information,
                    (fs, vn, sn, mc, fl, fsn),
                    r.status,
                )
            },
{
    let mut volume_name = WriteWideCStringCell::new(volume_name_size);
    let mut file_system_name = WriteWideCStringCell::new(file_system_name_size);
    // Defaults a filesystem may leave in place.
    let mut volume_serial_number: u32 = 0x19831116;
    let mut maximum_component_length: u32 = 255;
    let mut file_system_flags = FileSystemFlags::empty();
    let status = fs.get_volume_information(
        &mut volume_name,
        &mut volume_serial_number,
        &mut maximum_component_length,
        &mut file_system_flags,
        &mut file_system_name,
    );
    proof {
        use_type_invariant(&volume_name);
        use_type_invariant(&file_system_name);
    }
    let reply = VolumeInformationReply {
        status,
        volume_name,
        volume_serial_number,
        maximum_component_length,
        file_system_flags,
        file_system_name,
    };
    proof {
        assert(exists|
            vn: &mut WriteWideCStringCell,
            sn: &mut u32,
            mc: &mut u32,
            fl: &mut FileSystemFlags,
            fsn: &mut WriteWideCStringCell,
        |
            #[trigger] call_ensures(
                F::get_volume_information,
                (fs, vn, sn, mc, fl, fsn),
                status,
            ));
        assert(reply.status == status);
        assert(exists|
            vn: &mut WriteWideCStringCell,
            sn: &mut u32,
            mc: &mut u32,
            fl: &mut FileSystemFlags,
            fsn: &mut WriteWideCStringCell,
        |
            #[trigger] call_ensures(
                F::get_volume_information,
                (fs, vn, sn, mc, fl, fsn),
                reply.status,
            ));
    }
    reply
}

} // verus!
