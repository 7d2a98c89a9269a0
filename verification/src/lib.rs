//! A safety layer for a user-mode filesystem driver binding: typed mount
//! results, bitflag wrappers, wide-string buffer marshaling, and the
//! panic-containment and context-lifetime rules that the callback
//! trampolines must follow.
use vstd::prelude::*;

pub mod access_mask;
pub mod file_system_flags;
pub mod main_result;
pub mod operations;
pub mod option_flags;
pub mod options;
pub mod wide;

pub use access_mask::AccessMask;
pub use file_system_flags::FileSystemFlags;
pub use main_result::MainResult;
pub use operations::callback_status;
pub use operations::dispatch_create_file;
pub use operations::dispatch_find_files;
pub use operations::dispatch_get_volume_information;
pub use operations::dispatch_mounted;
pub use operations::dispatch_unmounted;
pub use operations::VolumeInformationReply;
pub use option_flags::OptionFlags;
pub use options::Options;
pub use wide::AsWide;

use wide::encode_into;
use wide::wide_str_len;

verus! {

/// A cell that wraps a wide c string buffer of fixed capacity, tracking
/// its initialization. The buffer always keeps a terminating zero unit
/// within its capacity, so reading it back as a zero-terminated string
/// can never run past the end.
pub struct WriteWideCStringCell {
    buffer: Vec<u16>,
    initialized: bool,
}

impl View for WriteWideCStringCell {
    type V = Seq<u16>;

    closed spec fn view(&self) -> Seq<u16> {
        self.buffer@
    }
}

impl WriteWideCStringCell {
    #[verifier::type_invariant]
    spec fn wf(self) -> bool {
        &&& self.buffer@.len() >= 1
        &&& wide_str_len(self.buffer@) < self.buffer@.len()
    }

    /// Whether a write has completed into this buffer.
    pub closed spec fn is_init(&self) -> bool {
        self.initialized
    }

    /// Make a zero-filled buffer of `capacity` wide characters, not yet
    /// marked as initialized.
    pub fn new(capacity: usize) -> (r: WriteWideCStringCell)
        requires
            capacity >= 1,
        ensures
            r@ == Seq::new(capacity as nat, |i: int| 0u16),
            !r.is_init(),
    {
        let buffer: Vec<u16> = vec![0u16; capacity];
        proof {
            wide::lemma_wide_str_len_le_zero_pos(buffer@, 0);
        }
        WriteWideCStringCell { buffer, initialized: false }
    }

    /// Write the contents of an AsWide into this buffer, marking it as
    /// initialized.
    ///
    /// If the AsWide is too long, it is truncated: at most capacity minus
    /// one of its wide characters are kept, and a terminating zero unit
    /// always follows them.
    pub fn write<A: AsWide>(&mut self, value: A)
        ensures
            final(self)@ == encode_into(old(self)@, value.wide_view()),
            final(self).is_init(),
    {
        proof {
            use_type_invariant(&*self);
        }
        let w = value.as_wide();
        // Reserve NUL
        let max_len = self.buffer.len() - 1;
        let n = if w.len() < max_len {
            w.len()
        } else {
            max_len
        };
        let mut next: Vec<u16> = Vec::new();
        let mut i: usize = 0;
        while i < n
            invariant
                i <= n,
                n <= w@.len(),
                next@ == w@.subrange(0, i as int),
            decreases n - i,
        {
            next.push(w[i]);
            assert(next@ =~= w@.subrange(0, i + 1 as int));
            i += 1;
        }
        next.push(0);
        let total = self.buffer.len();
        let mut j: usize = n + 1;
        while j < total
            invariant
                n + 1 <= j <= total,
                total == self.buffer@.len(),
                next@ == w@.subrange(0, n as int) + seq![0u16] + self.buffer@.subrange(
                    n + 1 as int,
                    j as int,
                ),
            decreases total - j,
        {
            next.push(self.buffer[j]);
            assert(next@ =~= w@.subrange(0, n as int) + seq![0u16] + self.buffer@.subrange(
                n + 1 as int,
                j + 1 as int,
            ));
            j += 1;
        }
        proof {
            wide::lemma_wide_str_len_le_zero_pos(next@, n as int);
            assert(next@ =~= encode_into(self.buffer@, w@));
        }
        self.buffer = next;
        self.initialized = true;
    }

    /// Get the total length of the buffer, in wide chars.
    pub fn total_len(&self) -> (r: usize)
        ensures
            r == self@.len(),
    {
        self.buffer.len()
    }

    /// The wide characters currently held, terminator and trailing slack
    /// included. A terminating zero unit always lies within the buffer,
    /// whatever has been written to it.
    pub fn as_units(&self) -> (r: &[u16])
        ensures
            r@ == self@,
            r@.len() >= 1,
            wide_str_len(r@) < r@.len(),
    {
        proof {
            use_type_invariant(&*self);
        }
        self.buffer.as_slice()
    }

    /// Whether a write has completed into this buffer.
    pub fn is_initialized(&self) -> (r: bool)
        ensures
            r == self.is_init(),
    {
        self.initialized
    }

    /// Exactly `size` wide characters for a caller-provided native buffer
    /// of that size: this buffer truncated or zero-padded to `size`, always
    /// with a terminating zero unit inside. The terminator is forced into
    /// the last unit only when this buffer's own terminator lies beyond the
    /// native buffer; whenever the string held here fits, it is handed over
    /// unchanged.
    pub fn units_for_buffer(&self, size: usize) -> (r: Vec<u16>)
        requires
            size >= 1,
        ensures
            r@ == wide::fit_to_buffer(self@, size as nat),
            r@.len() == size,
            wide_str_len(r@) < size,
            wide_str_len(self@) < size ==> wide_str_len(r@) == wide_str_len(self@)
                && r@.subrange(0, wide_str_len(r@) as int) == self@.subrange(
                0,
                wide_str_len(self@) as int,
            ),
    {
        proof {
            use_type_invariant(&*self);
        }
        let ghost padded = if self@.len() >= size as nat {
            self@.subrange(0, size as int)
        } else {
            self@ + Seq::new((size - self@.len()) as nat, |i: int| 0u16)
        };
        let total = self.buffer.len();
        let n = if total < size {
            total
        } else {
            size
        };
        let mut r: Vec<u16> = Vec::new();
        let mut i: usize = 0;
        while i < n
            invariant
                i <= n,
                n <= total,
                n <= size,
                total == self.buffer@.len(),
                r@ == self.buffer@.subrange(0, i as int),
            decreases n - i,
        {
            r.push(self.buffer[i]);
            assert(r@ =~= self.buffer@.subrange(0, i + 1 as int));
            i += 1;
        }
        while r.len() < size
            invariant
                n <= r@.len() <= size,
                n <= self.buffer@.len(),
                r@.subrange(0, n as int) == self.buffer@.subrange(0, n as int),
                forall|j: int| n <= j < r@.len() ==> r@[j] == 0,
            decreases size - r@.len(),
        {
            let ghost before = r@;
            r.push(0);
            assert(r@.subrange(0, n as int) =~= before.subrange(0, n as int));
        }
        proof {
            assert forall|j: int| 0 <= j < size implies r@[j] == padded[j] by {
                if j < n {
                    assert(r@.subrange(0, n as int)[j] == self.buffer@.subrange(0, n as int)[j]);
                }
            }
            assert(r@ =~= padded);
            if wide_str_len(self@) < size {
                if self@.len() >= size as nat {
                    wide::lemma_wide_str_len_subrange(self@, size as int);
                } else {
                    wide::lemma_wide_str_len_append(
                        self@,
                        Seq::new((size - self@.len()) as nat, |i: int| 0u16),
                    );
                }
                assert(r@.subrange(0, wide_str_len(self@) as int) =~= self@.subrange(
                    0,
                    wide_str_len(self@) as int,
                ));
            }
        }
        let t = wide::wide_strlen(r.as_slice());
        if t >= size {
            r.pop();
            r.push(0);
            proof {
                wide::lemma_wide_str_len_bounds(padded);
                assert(r@ =~= padded.update(size as int - 1, 0u16));
                wide::lemma_wide_str_len_le_zero_pos(r@, size as int - 1);
            }
        }
        r
    }
}

/// Operation status code in the native status space (zero is success).
pub type NTSTATUS = i32;

/// Status code reported for an operation that succeeded.
pub const STATUS_SUCCESS: NTSTATUS = 0;

/// Status code reported for an operation the filesystem does not implement.
pub const STATUS_NOT_IMPLEMENTED: NTSTATUS = -1073741822;

/// Status code substituted when a callback faults instead of returning.
pub const STATUS_INTERNAL_ERROR: NTSTATUS = -1073741595;

/// Status code reported when a requested file does not exist.
pub const STATUS_NO_SUCH_FILE: NTSTATUS = -1073741809;

/// The wide character that names a drive for the native unmount function:
/// the drive letter itself when its code fits in a byte, and nothing
/// otherwise.
pub fn drive_letter_unit(drive_letter: char) -> (r: Option<u16>)
    ensures
        r is Some <==> drive_letter as u32 <= 255,
        r matches Some(u) ==> u == drive_letter as u32,
{
    let code = drive_letter as u32;
    if code <= 255 {
        Some(code as u16)
    } else {
        None
    }
}

/// The trait a type must implement to serve as a file system.
///
/// Every operation has a neutral default, so a partial implementation is
/// valid: an unimplemented operation reports `STATUS_NOT_IMPLEMENTED` and
/// the native library applies its own fallback. The native library calls
/// these operations on threads it owns, possibly concurrently, so an
/// implementation must be shareable across threads.
pub trait FileSystem: Send + Sync {
    /// Called for opening files and directories. By default the operation
    /// is not implemented and the directory marker is left untouched.
    fn create_file(
        &self,
        _file_name: &[u16],
        _desired_access: AccessMask,
        _is_dir: &mut bool,
    ) -> (r: NTSTATUS)
        default_ensures
            r == STATUS_NOT_IMPLEMENTED,
            *final(_is_dir) == *old(_is_dir),
    {
        STATUS_NOT_IMPLEMENTED
    }

    /// Called to return entries in a directory. By default the operation
    /// is not implemented.
    fn find_files(&self, _file_name: &[u16]) -> (r: NTSTATUS)
        default_ensures
            r == STATUS_NOT_IMPLEMENTED,
    {
        STATUS_NOT_IMPLEMENTED
    }

    /// Called for queries of volume information. By default the operation
    /// is not implemented and every buffer and field is left untouched.
    fn get_volume_information(
        &self,
        _volume_name: &mut WriteWideCStringCell,
        _volume_serial_number: &mut u32,
        _maximum_component_length: &mut u32,
        _file_system_flags: &mut FileSystemFlags,
        _file_system_name: &mut WriteWideCStringCell,
    ) -> (r: NTSTATUS)
        default_ensures
            r == STATUS_NOT_IMPLEMENTED,
            *final(_volume_name) == *old(_volume_name),
            *final(_volume_serial_number) == *old(_volume_serial_number),
            *final(_maximum_component_length) == *old(_maximum_component_length),
            *final(_file_system_flags) == *old(_file_system_flags),
            *final(_file_system_name) == *old(_file_system_name),
    {
        STATUS_NOT_IMPLEMENTED
    }

    /// Called when the filesystem is mounted. By default the notification
    /// is accepted.
    fn mounted(&self, _mount_point: &[u16]) -> (r: NTSTATUS)
        default_ensures
            r == STATUS_SUCCESS,
    {
        STATUS_SUCCESS
    }

    /// Called when the filesystem is unmounted. By default the
    /// notification is accepted.
    fn unmounted(&self) -> (r: NTSTATUS)
        default_ensures
            r == STATUS_SUCCESS,
    {
        STATUS_SUCCESS
    }
}

/// Where one mount call's global context stands: not yet handed out, in
/// foreign custody while the blocking native call runs, or reclaimed after
/// that call returned.
#[derive(Debug, Copy, Clone, Eq, PartialEq, Structural)]
pub enum MountPhase {
    /// The context has not been handed to the native library.
    Idle,
    /// The context's address is installed in the mount options and the
    /// native library may invoke callbacks through it.
    Installed,
    /// The mount call returned and the context has been reclaimed.
    Released,
}

/// What happens to the global context around the blocking mount call.
#[derive(Debug, Copy, Clone, Eq, PartialEq, Structural)]
pub enum MountEvent {
    /// Hand the context to the native library.
    Install,
    /// Reclaim the context after the mount call returned.
    Release,
}

/// The only transitions the context's custody may take: install once,
/// and release only what was installed.
pub open spec fn mount_step(phase: MountPhase, event: MountEvent) -> Option<MountPhase> {
    match (phase, event) {
        (MountPhase::Idle, MountEvent::Install) => Some(MountPhase::Installed),
        (MountPhase::Installed, MountEvent::Release) => Some(MountPhase::Released),
        _ => None,
    }
}

/// Run a sequence of custody events from `phase`; `None` when some event
/// is not allowed in the phase it meets.
pub open spec fn mount_run(phase: MountPhase, events: Seq<MountEvent>) -> Option<MountPhase>
    decreases events.len(),
{
    if events.len() == 0 {
        Some(phase)
    } else {
        match mount_step(phase, events[0]) {
            Some(p) => mount_run(p, events.skip(1)),
            None => None,
        }
    }
}

/// How many times a sequence of events releases the context.
pub open spec fn release_count(events: Seq<MountEvent>) -> nat
    decreases events.len(),
{
    if events.len() == 0 {
        0
    } else {
        (if events[0] is Release {
            1nat
        } else {
            0nat
        }) + release_count(events.skip(1))
    }
}

/// One where a phase stands for a context already reclaimed.
spec fn released_weight(phase: MountPhase) -> nat {
    if phase is Released {
        1
    } else {
        0
    }
}

proof fn lemma_mount_run_release_count(phase: MountPhase, events: Seq<MountEvent>)
    requires
        mount_run(phase, events) is Some,
    ensures
        release_count(events) + released_weight(phase) == released_weight(
            mount_run(phase, events)->Some_0,
        ),
    decreases events.len(),
{
    if events.len() != 0 {
        let p = mount_step(phase, events[0])->Some_0;
        lemma_mount_run_release_count(p, events.skip(1));
    }
}

/// The global context of a mount call is never reclaimed twice: every
/// valid sequence of custody events releases it at most once, and exactly
/// once when and only when the walk ends with the context reclaimed.
pub proof fn lemma_context_released_exactly_once(events: Seq<MountEvent>)
    requires
        mount_run(MountPhase::Idle, events) is Some,
    ensures
        release_count(events) <= 1,
        mount_run(MountPhase::Idle, events) == Some(MountPhase::Released) <==> release_count(
            events,
        ) == 1,
{
    lemma_mount_run_release_count(MountPhase::Idle, events);
}

/// Tracks the custody of one mount call's global context, so that the
/// context is handed out before the blocking native call and reclaimed
/// exactly once, after that call returns.
pub struct MountLifecycle {
    phase: MountPhase,
}

impl MountLifecycle {
    /// The phase the context is in.
    pub closed spec fn spec_phase(&self) -> MountPhase {
        self.phase
    }

    /// Begin a mount: no context has been handed out yet.
    pub fn new() -> (r: MountLifecycle)
        ensures
            r.spec_phase() is Idle,
    {
        MountLifecycle { phase: MountPhase::Idle }
    }

    /// Record that the context's address was installed in the options
    /// record and handed to the native library.
    pub fn install(&mut self)
        requires
            old(self).spec_phase() is Idle,
        ensures
            final(self).spec_phase() is Installed,
            mount_step(old(self).spec_phase(), MountEvent::Install) == Some(
                final(self).spec_phase(),
            ),
    {
        self.phase = MountPhase::Installed;
    }

    /// Record that the blocking mount call returned and the context was
    /// reclaimed. Its precondition refuses a context that was never
    /// installed or was already reclaimed, so a release can happen only
    /// once per mount.
    pub fn release(&mut self)
        requires
            old(self).spec_phase() is Installed,
        ensures
            final(self).spec_phase() is Released,
            mount_step(old(self).spec_phase(), MountEvent::Release) == Some(
                final(self).spec_phase(),
            ),
    {
        self.phase = MountPhase::Released;
    }

    /// The phase the context is in.
    pub fn phase(&self) -> (r: MountPhase)
        ensures
            r == self.spec_phase(),
    {
        self.phase
    }
}

} // verus!
