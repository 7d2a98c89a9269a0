use vstd::prelude::*;

verus! {

/// A value that defines standard, specific, and generic rights.
///
/// Unrecognized bits are preserved, not rejected.
#[derive(Debug, Copy, Clone, Eq, PartialEq, Hash, Structural)]
pub struct AccessMask(pub u32);

/// For a file object, the right to read the corresponding file data.
///
/// For a directory object, the right to read the corresponding directory
/// data.
pub const FILE_READ_DATA: u32 = 1;

/// For a directory, the right to list the contents of the directory.
pub const FILE_LIST_DIRECTORY: u32 = 1;

/// For a file object, the right to write data to the file.
/// For a directory object, the right to create a file in the directory.
pub const FILE_WRITE_DATA: u32 = 2;

/// For a directory, the right to create a file in the directory.
pub const FILE_ADD_FILE: u32 = 2;

/// For a file object, the right to append data to the file.
///
/// (For local files, write operations will not overwrite existing data if
/// this flag is specified without FILE_WRITE_DATA.)
/// For a directory object, the right to create a subdirectory.
pub const FILE_APPEND_DATA: u32 = 4;

/// For a directory, the right to create a subdirectory.
pub const FILE_ADD_SUBDIRECTORY: u32 = 4;

/// For a named pipe, the right to create a pipe.
pub const FILE_CREATE_PIPE_INSTANCE: u32 = 4;

/// The right to read extended file attributes.
pub const FILE_READ_EA: u32 = 8;

/// The right to write extended file attributes.
pub const FILE_WRITE_EA: u32 = 16;

/// For a native code file, the right to execute the file.
///
/// This access right given to scripts may cause the script to be
/// executable, depending on the script interpreter.
pub const FILE_EXECUTE: u32 = 32;

/// For a directory, the right to traverse the directory.
///
/// By default, users are assigned the bypass-traverse-checking privilege,
/// which ignores the FILE_TRAVERSE access right.
pub const FILE_TRAVERSE: u32 = 32;

/// For a directory, the right to delete a directory and all the files it
/// contains, including read-only files.
pub const FILE_DELETE_CHILD: u32 = 64;

/// The right to read file attributes.
pub const FILE_READ_ATTRIBUTES: u32 = 128;

/// The right to write file attributes.
pub const FILE_WRITE_ATTRIBUTES: u32 = 256;

/// Delete access.
pub const DELETE: u32 = 65536;

/// Read access to the owner, group, and discretionary access control list
/// (DACL) of the security descriptor.
pub const READ_CONTROL: u32 = 131072;

/// Write access to the DACL.
pub const WRITE_DAC: u32 = 262144;

/// Write access to owner.
pub const WRITE_OWNER: u32 = 524288;

/// Synchronize access.
pub const SYNCHRONIZE: u32 = 1048576;

/// The standard rights required to change the object.
pub const STANDARD_RIGHTS_REQUIRED: u32 = 983040;

/// The standard rights needed to read the object.
pub const STANDARD_RIGHTS_READ: u32 = 131072;

/// The standard rights needed to write the object.
pub const STANDARD_RIGHTS_WRITE: u32 = 131072;

/// The standard rights needed to execute the object.
pub const STANDARD_RIGHTS_EXECUTE: u32 = 131072;

/// Every standard right.
pub const STANDARD_RIGHTS_ALL: u32 = 2031616;

/// Every object-specific right.
pub const SPECIFIC_RIGHTS_ALL: u32 = 65535;

/// All possible access rights for a file.
pub const FILE_ALL_ACCESS: u32 = 2032127;

/// Access system security.
///
/// It is used to indicate access to a system access control list (SACL).
/// This type of access requires the calling process to have the
/// manage-auditing privilege. If this flag is set in the access mask of an
/// audit access entry (successful or unsuccessful access), the SACL access
/// will be audited.
pub const ACCESS_SYSTEM_SECURITY: u32 = 16777216;

/// The maximum access rights the object allows the caller.
pub const MAXIMUM_ALLOWED: u32 = 33554432;

/// Generic all access.
pub const GENERIC_ALL: u32 = 268435456;

/// Generic execute access.
pub const GENERIC_EXECUTE: u32 = 536870912;

/// Generic write access.
pub const GENERIC_WRITE: u32 = 1073741824;

/// Generic read access.
pub const GENERIC_READ: u32 = 2147483648;

impl AccessMask {
    /// The set with no rights.
    pub fn empty() -> (r: AccessMask)
        ensures
            r.0 == 0,
    {
        AccessMask(0)
    }

    /// Extract the raw bit pattern, for passing back across the boundary.
    pub fn bits(self) -> (r: u32)
        ensures
            r == self.0,
    {
        self.0
    }

    /// Wrap a raw bit pattern, preserving unrecognized bits.
    pub fn from_bits_retain(bits: u32) -> (r: AccessMask)
        ensures
            r.0 == bits,
    {
        AccessMask(bits)
    }

    /// The combination of two sets of rights (bitwise or).
    pub fn union(self, other: AccessMask) -> (r: AccessMask)
        ensures
            r.0 == self.0 | other.0,
    {
        AccessMask(self.0 | other.0)
    }

    /// Whether every right of `other` is present in `self`.
    pub fn contains(self, other: AccessMask) -> (r: bool)
        ensures
            r <==> self.0 & other.0 == other.0,
    {
        self.0 & other.0 == other.0
    }

    /// Whether some right of `other` is present in `self`.
    pub fn intersects(self, other: AccessMask) -> (r: bool)
        ensures
            r <==> self.0 & other.0 != 0,
    {
        self.0 & other.0 != 0
    }

    /// Add the rights of `other` to `self` (bitwise or assign).
    pub fn insert(&mut self, other: AccessMask)
        ensures
            final(self).0 == old(self).0 | other.0,
    {
        self.0 = self.0 | other.0;
    }
}

/// Round-tripping a combination through the wrapper is lossless: combining
/// two sets of rights, extracting the raw bits and reconstructing a set
/// from them yields the combined set, and wrapping then extracting any raw
/// bit pattern yields that pattern again.
pub proof fn lemma_access_mask_roundtrip(a: AccessMask, b: AccessMask, bits: u32)
    ensures
        AccessMask((AccessMask(a.0 | b.0)).0) == AccessMask(a.0 | b.0),
        (AccessMask(bits)).0 == bits,
{
}

} // verus!
