use vstd::prelude::*;

verus! {

/// Options to configure the driver mount.
///
/// Unrecognized bits are preserved, not rejected, since the native library
/// may define additional bits this layer does not know about.
#[derive(Debug, Copy, Clone, Eq, PartialEq, Hash, Structural)]
pub struct OptionFlags(pub u32);

/// Enable output debug message
pub const DOKAN_OPTION_DEBUG: u32 = 1;

/// Enable output debug message to stderr
pub const DOKAN_OPTION_STDERR: u32 = 2;

/// Enable the use of alternate stream paths in the form
/// <file-name>:<stream-name>. If this is not specified then the driver
/// will fail any attempt to access a path with a colon.
pub const DOKAN_OPTION_ALT_STREAM: u32 = 4;

/// Enable mount drive as write-protected.
pub const DOKAN_OPTION_WRITE_PROTECT: u32 = 8;

/// Use network drive - the network provider needs to be installed and
/// a UNC name provided.
pub const DOKAN_OPTION_NETWORK: u32 = 16;

/// Use removable drive.
///
/// Be aware that on some environments, the userland application will
/// be denied to communicate with the drive which will result in an
/// unwanted unmount.
pub const DOKAN_OPTION_REMOVABLE: u32 = 32;

/// Use the system mount manager.
///
/// This option is highly recommended to use for better system
/// integration. If a drive letter is used but is busy, the mount
/// manager will assign one for us and the mounted callback's
/// parameters will contain the new mount point.
pub const DOKAN_OPTION_MOUNT_MANAGER: u32 = 64;

/// Mount the drive on current session only.
pub const DOKAN_OPTION_CURRENT_SESSION: u32 = 128;

/// Enable lock and unlock operations.
///
/// Otherwise the native library will take care of them.
pub const DOKAN_OPTION_FILELOCK_USER_MODE: u32 = 256;

/// Enable case sensitive paths.
///
/// By default all paths are case insensitive.
pub const DOKAN_OPTION_CASE_SENSITIVE: u32 = 512;

/// Allows unmounting of a network drive via the file explorer.
pub const DOKAN_OPTION_ENABLE_UNMOUNT_NETWORK_DRIVE: u32 = 1024;

/// Forward the kernel driver global and volume logs to the userland.
///
/// Can be very slow if single thread is enabled.
pub const DOKAN_OPTION_DISPATCH_DRIVER_LOGS: u32 = 2048;

/// Pull batches of events from the driver instead of a single one and
/// execute them in parallel.
///
/// This option should only be used on computers with low cpu count
/// and a userland filesystem taking time to process requests.
pub const DOKAN_OPTION_ALLOW_IPC_BATCHING: u32 = 4096;

impl OptionFlags {
    /// The set with no flags.
    pub fn empty() -> (r: OptionFlags)
        ensures
            r.0 == 0,
    {
        OptionFlags(0)
    }

    /// Extract the raw bit pattern, for passing back across the boundary.
    pub fn bits(self) -> (r: u32)
        ensures
            r == self.0,
    {
        self.0
    }

    /// Wrap a raw bit pattern, preserving unrecognized bits.
    pub fn from_bits_retain(bits: u32) -> (r: OptionFlags)
        ensures
            r.0 == bits,
    {
        OptionFlags(bits)
    }

    /// The combination of two flag sets (bitwise or).
    pub fn union(self, other: OptionFlags) -> (r: OptionFlags)
        ensures
            r.0 == self.0 | other.0,
    {
        OptionFlags(self.0 | other.0)
    }

    /// Whether every flag of `other` is present in `self`.
    pub fn contains(self, other: OptionFlags) -> (r: bool)
        ensures
            r <==> self.0 & other.0 == other.0,
    {
        self.0 & other.0 == other.0
    }

    /// Whether some flag of `other` is present in `self`.
    pub fn intersects(self, other: OptionFlags) -> (r: bool)
        ensures
            r <==> self.0 & other.0 != 0,
    {
        self.0 & other.0 != 0
    }

    /// Add the flags of `other` to `self` (bitwise or assign).
    pub fn insert(&mut self, other: OptionFlags)
        ensures
            final(self).0 == old(self).0 | other.0,
    {
        self.0 = self.0 | other.0;
    }
}

/// Round-tripping a combination through the wrapper is lossless: combining
/// two flag sets, extracting the raw bits and reconstructing a set from
/// them yields the combined set, and wrapping then extracting any raw bit
/// pattern yields that pattern again.
pub proof fn lemma_option_flags_roundtrip(a: OptionFlags, b: OptionFlags, bits: u32)
    ensures
        OptionFlags((OptionFlags(a.0 | b.0)).0) == OptionFlags(a.0 | b.0),
        (OptionFlags(bits)).0 == bits,
{
}

} // verus!
