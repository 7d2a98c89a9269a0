use vstd::prelude::*;

use crate::option_flags::OptionFlags;
use crate::wide::AsWide;

verus! {

/// Options for a filesystem mount: the values this layer populates in the
/// native mount configuration record. The record itself is only read by
/// the native library during the mount call.
pub struct Options {
    version: u16,
    option_flags: u32,
    mount_point: Vec<u16>,
}

impl Options {
    /// The version requested of the native library, without dots.
    pub closed spec fn spec_version(&self) -> u16 {
        self.version
    }

    /// The raw bits of the mount option flags.
    pub closed spec fn spec_option_flags(&self) -> u32 {
        self.option_flags
    }

    /// The mount point as a zero-terminated wide string, or empty when no
    /// mount point has been set.
    pub closed spec fn spec_mount_point(&self) -> Seq<u16> {
        self.mount_point@
    }

    /// Make an empty set of options.
    pub fn new() -> (r: Options)
        ensures
            r.spec_version() == 0,
            r.spec_option_flags() == 0,
            r.spec_mount_point() == Seq::<u16>::empty(),
    {
        Options { version: 0, option_flags: 0, mount_point: Vec::new() }
    }

    /// Set the requested version.
    pub fn set_version(&mut self, version: u16)
        ensures
            final(self).spec_version() == version,
            final(self).spec_option_flags() == old(self).spec_option_flags(),
            final(self).spec_mount_point() == old(self).spec_mount_point(),
    {
        self.version = version;
    }

    /// Set the mount point; a terminating zero unit is appended for the
    /// native library.
    pub fn set_mount_point<A: AsWide>(&mut self, mount_point: A)
        ensures
            final(self).spec_mount_point() == mount_point.wide_view().push(0u16),
            final(self).spec_version() == old(self).spec_version(),
            final(self).spec_option_flags() == old(self).spec_option_flags(),
    {
        self.mount_point = crate::wide::wide_cstring(mount_point);
    }

    /// Set the option flags.
    pub fn set_option_flags(&mut self, flags: OptionFlags)
        ensures
            final(self).spec_option_flags() == flags.0,
            final(self).spec_version() == old(self).spec_version(),
            final(self).spec_mount_point() == old(self).spec_mount_point(),
    {
        self.option_flags = flags.bits();
    }

    /// The version that was set, or zero.
    pub fn version(&self) -> (r: u16)
        ensures
            r == self.spec_version(),
    {
        self.version
    }

    /// The raw option flag bits that were set, or zero.
    pub fn option_flags(&self) -> (r: u32)
        ensures
            r == self.spec_option_flags(),
    {
        self.option_flags
    }

    /// The zero-terminated mount point, or an empty slice when no mount
    /// point has been set.
    pub fn mount_point(&self) -> (r: &[u16])
        ensures
            r@ == self.spec_mount_point(),
    {
        self.mount_point.as_slice()
    }
}

impl Default for Options {
    /// The same empty set of options as `new`.
    fn default() -> (r: Options)
        ensures
            r.spec_version() == 0,
            r.spec_option_flags() == 0,
            r.spec_mount_point() == Seq::<u16>::empty(),
    {
        Options::new()
    }
}

} // verus!
