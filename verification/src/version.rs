//! The three-part format version and its compatibility rule.

use vstd::prelude::*;

verus! {

/// A format version: major, minor and build number.
#[derive(Clone, Copy, Debug, PartialEq, Eq, Structural)]
pub struct Version {
    pub major: u8,
    pub minor: u8,
    pub build: u8,
}

/// Major number of the format that this library reads and writes.
pub const VERSION_MAJOR: u8 = 1;

/// Minor number of the format that this library reads and writes.
pub const VERSION_MINOR: u8 = 2;

/// Build number of the format that this library reads and writes.
pub const VERSION_BUILD: u8 = 1;

impl Version {
    /// Two versions are compatible when their major numbers agree.
    pub open spec fn compatible(self, other: Version) -> bool {
        self.major == other.major
    }

    /// The format version that this library reads and writes.
    pub open spec fn running() -> Version {
        Version { major: VERSION_MAJOR, minor: VERSION_MINOR, build: VERSION_BUILD }
    }

    /// The format version that this library reads and writes.
    pub fn current() -> (version: Version)
        ensures
            version == Version::running(),
    {
        Version { major: VERSION_MAJOR, minor: VERSION_MINOR, build: VERSION_BUILD }
    }

    /// The version made of the three numbers.
    pub fn new(major: u8, minor: u8, build: u8) -> (version: Version)
        ensures
            version == (Version { major, minor, build }),
    {
        Version { major, minor, build }
    }

    /// Whether data stamped with `other` can be used by code of version `self`.
    pub fn is_compatible(&self, other: &Version) -> (compatible: bool)
        ensures
            compatible == self.compatible(*other),
            compatible == (self.major == other.major),
    {
        self.major == other.major
    }
}

} // verus!
