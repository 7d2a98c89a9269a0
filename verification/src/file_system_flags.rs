use vstd::prelude::*;

verus! {

/// Capability flags for a filesystem.
///
/// FILE_FILE_COMPRESSION and FILE_VOLUME_IS_COMPRESSED are mutually
/// exclusive. Unrecognized bits are preserved, not rejected.
#[derive(Debug, Copy, Clone, Eq, PartialEq, Hash, Structural)]
pub struct FileSystemFlags(pub u32);

/// The specified volume supports case-sensitive file names.
pub const FILE_CASE_SENSITIVE_SEARCH: u32 = 1;

/// The specified volume supports preserved case of file names when it
/// places a name on disk.
pub const FILE_CASE_PRESERVED_NAMES: u32 = 2;

/// The specified volume supports Unicode in file names as they appear on
/// disk.
pub const FILE_UNICODE_ON_DISK: u32 = 4;

/// The specified volume preserves and enforces access control lists.
pub const FILE_PERSISTENT_ACLS: u32 = 8;

/// The specified volume supports file-based compression.
pub const FILE_FILE_COMPRESSION: u32 = 16;

/// The specified volume supports disk quotas.
pub const FILE_VOLUME_QUOTAS: u32 = 32;

/// The specified volume supports sparse files.
pub const FILE_SUPPORTS_SPARSE_FILES: u32 = 64;

/// The specified volume supports reparse points.
pub const FILE_SUPPORTS_REPARSE_POINTS: u32 = 128;

/// The specified volume supports remote storage.
pub const FILE_SUPPORTS_REMOTE_STORAGE: u32 = 256;

/// The specified volume returns cleanup result information.
pub const FILE_RETURNS_CLEANUP_RESULT_INFO: u32 = 512;

/// The specified volume supports one-pass unlink and rename.
pub const FILE_SUPPORTS_POSIX_UNLINK_RENAME: u32 = 1024;

/// The specified volume is a compressed volume.
pub const FILE_VOLUME_IS_COMPRESSED: u32 = 32768;

/// The specified volume supports object identifiers.
pub const FILE_SUPPORTS_OBJECT_IDS: u32 = 65536;

/// The specified volume supports the Encrypted File System.
pub const FILE_SUPPORTS_ENCRYPTION: u32 = 131072;

/// The specified volume supports named streams.
pub const FILE_NAMED_STREAMS: u32 = 262144;

/// The specified volume is read-only.
pub const FILE_READ_ONLY_VOLUME: u32 = 524288;

/// The specified volume supports a single sequential write.
pub const FILE_SEQUENTIAL_WRITE_ONCE: u32 = 1048576;

/// The specified volume supports transactions.
pub const FILE_SUPPORTS_TRANSACTIONS: u32 = 2097152;

/// The specified volume supports hard links.
pub const FILE_SUPPORTS_HARD_LINKS: u32 = 4194304;

/// The specified volume supports extended attributes.
///
/// An extended attribute is a piece of application-specific metadata that
/// an application can associate with a file and is not part of the file's
/// data.
pub const FILE_SUPPORTS_EXTENDED_ATTRIBUTES: u32 = 8388608;

/// The file system supports open by file identifier.
pub const FILE_SUPPORTS_OPEN_BY_FILE_ID: u32 = 16777216;

/// The specified volume supports update sequence number journals.
pub const FILE_SUPPORTS_USN_JOURNAL: u32 = 33554432;

/// The specified volume supports integrity streams.
pub const FILE_SUPPORTS_INTEGRITY_STREAMS: u32 = 67108864;

/// The specified volume supports sharing logical clusters between files on
/// the same volume.
///
/// The file system reallocates on writes to shared clusters.
pub const FILE_SUPPORTS_BLOCK_REFCOUNTING: u32 = 134217728;

/// The specified volume supports sparse valid data length.
pub const FILE_SUPPORTS_SPARSE_VDL: u32 = 268435456;

/// The specified volume is a direct access volume.
pub const FILE_DAX_VOLUME: u32 = 536870912;

/// The specified volume supports ghosting.
pub const FILE_SUPPORTS_GHOSTING: u32 = 1073741824;

impl FileSystemFlags {
    /// The set with no flags.
    pub fn empty() -> (r: FileSystemFlags)
        ensures
            r.0 == 0,
    {
        FileSystemFlags(0)
    }

    /// Extract the raw bit pattern, for passing back across the boundary.
    pub fn bits(self) -> (r: u32)
        ensures
            r == self.0,
    {
        self.0
    }

    /// Wrap a raw bit pattern, preserving unrecognized bits.
    pub fn from_bits_retain(bits: u32) -> (r: FileSystemFlags)
        ensures
            r.0 == bits,
    {
        FileSystemFlags(bits)
    }

    /// The combination of two flag sets (bitwise or).
    pub fn union(self, other: FileSystemFlags) -> (r: FileSystemFlags)
        ensures
            r.0 == self.0 | other.0,
    {
        FileSystemFlags(self.0 | other.0)
    }

    /// Whether every flag of `other` is present in `self`.
    pub fn contains(self, other: FileSystemFlags) -> (r: bool)
        ensures
            r <==> self.0 & other.0 == other.0,
    {
        self.0 & other.0 == other.0
    }

    /// Whether some flag of `other` is present in `self`.
    pub fn intersects(self, other: FileSystemFlags) -> (r: bool)
        ensures
            r <==> self.0 & other.0 != 0,
    {
        self.0 & other.0 != 0
    }

    /// Add the flags of `other` to `self` (bitwise or assign).
    pub fn insert(&mut self, other: FileSystemFlags)
        ensures
            final(self).0 == old(self).0 | other.0,
    {
        self.0 = self.0 | other.0;
    }
}

/// Round-tripping a combination through the wrapper is lossless: combining
/// two flag sets, extracting the raw bits and reconstructing a set from
/// them yields the combined set, and wrapping then extracting any raw bit
/// pattern yields that pattern again.
pub proof fn lemma_file_system_flags_roundtrip(
    a: FileSystemFlags,
    b: FileSystemFlags,
    bits: u32,
)
    ensures
        FileSystemFlags((FileSystemFlags(a.0 | b.0)).0) == FileSystemFlags(a.0 | b.0),
        (FileSystemFlags(bits)).0 == bits,
{
}

} // verus!
