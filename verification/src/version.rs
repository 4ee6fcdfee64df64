//! The known revisions of the API and the shape of function table that each
//! one provides.

use vstd::prelude::*;

verus! {

/// A revision of the API that this crate knows.
#[derive(Clone, Copy, Debug, PartialEq, Eq, Hash, Structural)]
pub enum Version {
    /// Version 1.0.0.
    V100,
    /// Version 1.0.1.
    V101,
    /// Version 1.0.2.
    V102,
    /// Version 1.1.0.
    V110,
    /// Version 1.1.1.
    V111,
}

/// The shape of a function table: which operations it holds.
///
/// Each tier holds every operation of the tier below it, in the same places.
#[derive(Clone, Copy, Debug, PartialEq, Eq, Hash, Structural)]
pub enum Tier {
    /// The baseline operations, present since 1.0.0.
    One,
    /// The baseline operations and multi-frame capture, present since 1.1.0.
    Two,
}

impl Tier {
    /// How many function pointers a table of this tier holds.
    pub open spec fn spec_slots(self) -> usize {
        match self {
            Tier::One => 22,
            Tier::Two => 23,
        }
    }

    /// How many function pointers a table of this tier holds.
    pub fn slots(self) -> (n: usize)
        ensures
            n == self.spec_slots(),
    {
        match self {
            Tier::One => 22,
            Tier::Two => 23,
        }
    }

    /// Whether a table of this tier holds every operation of `other`.
    pub open spec fn spec_includes(self, other: Tier) -> bool {
        self == Tier::Two || other == Tier::One
    }

    /// Whether a table of this tier holds every operation of `other`.
    pub fn includes(self, other: Tier) -> (b: bool)
        ensures
            b == self.spec_includes(other),
            b == (other.spec_slots() <= self.spec_slots()),
    {
        match (self, other) {
            (Tier::One, Tier::Two) => false,
            _ => true,
        }
    }
}

impl Version {
    /// The major number of this revision.
    pub open spec fn spec_major(self) -> u32 {
        1
    }

    /// The minor number of this revision.
    pub open spec fn spec_minor(self) -> u32 {
        match self {
            Version::V100 | Version::V101 | Version::V102 => 0,
            Version::V110 | Version::V111 => 1,
        }
    }

    /// The patch number of this revision.
    pub open spec fn spec_patch(self) -> u32 {
        match self {
            Version::V100 | Version::V110 => 0,
            Version::V101 | Version::V111 => 1,
            Version::V102 => 2,
        }
    }

    /// The number that stands for this revision when it is requested:
    /// `major * 10000 + minor * 100 + patch`.
    pub open spec fn spec_code(self) -> u32 {
        match self {
            Version::V100 => 10000,
            Version::V101 => 10001,
            Version::V102 => 10002,
            Version::V110 => 10100,
            Version::V111 => 10101,
        }
    }

    /// The revision that a number stands for, if it is a known one.
    pub open spec fn spec_from_code(code: u32) -> Option<Version> {
        if code == 10000 {
            Some(Version::V100)
        } else if code == 10001 {
            Some(Version::V101)
        } else if code == 10002 {
            Some(Version::V102)
        } else if code == 10100 {
            Some(Version::V110)
        } else if code == 10101 {
            Some(Version::V111)
        } else {
            None
        }
    }

    /// The table shape that this revision guarantees.
    pub open spec fn spec_tier(self) -> Tier {
        if self.spec_minor() == 0 {
            Tier::One
        } else {
            Tier::Two
        }
    }

    /// Whether this revision is `minimum` or a later one.
    pub open spec fn spec_at_least(self, minimum: Version) -> bool {
        self.spec_code() >= minimum.spec_code()
    }

    /// The major number of this revision.
    pub fn major(self) -> (n: u32)
        ensures
            n == self.spec_major(),
    {
        1
    }

    /// The minor number of this revision.
    pub fn minor(self) -> (n: u32)
        ensures
            n == self.spec_minor(),
    {
        match self {
            Version::V100 | Version::V101 | Version::V102 => 0,
            Version::V110 | Version::V111 => 1,
        }
    }

    /// The patch number of this revision.
    pub fn patch(self) -> (n: u32)
        ensures
            n == self.spec_patch(),
    {
        match self {
            Version::V100 | Version::V110 => 0,
            Version::V101 | Version::V111 => 1,
            Version::V102 => 2,
        }
    }

    /// The number that stands for this revision when it is requested.
    pub fn code(self) -> (c: u32)
        ensures
            c == self.spec_code(),
            c == self.spec_major() * 10000 + self.spec_minor() * 100 + self.spec_patch(),
    {
        let major: u32 = self.major();
        let minor: u32 = self.minor();
        let patch: u32 = self.patch();
        major * 10000 + minor * 100 + patch
    }

    /// The revision that `code` stands for, or `None` where no known revision
    /// has that number.
    pub fn from_code(code: u32) -> (v: Option<Version>)
        ensures
            v == Version::spec_from_code(code),
            v matches Some(known) ==> known.spec_code() == code,
            v is None ==> forall|known: Version| known.spec_code() != code,
    {
        if code == 10000 {
            Some(Version::V100)
        } else if code == 10001 {
            Some(Version::V101)
        } else if code == 10002 {
            Some(Version::V102)
        } else if code == 10100 {
            Some(Version::V110)
        } else if code == 10101 {
            Some(Version::V111)
        } else {
            None
        }
    }

    /// The revision with the given numbers, or `None` where they name no known
    /// revision.
    pub fn from_numbers(major: u32, minor: u32, patch: u32) -> (v: Option<Version>)
        ensures
            v matches Some(known) ==> known.spec_major() == major && known.spec_minor() == minor
                && known.spec_patch() == patch,
            v is None ==> forall|known: Version|
                !(known.spec_major() == major && known.spec_minor() == minor && known.spec_patch()
                    == patch),
    {
        if major != 1 || minor > 1 || patch > 2 {
            None
        } else {
            Version::from_code(10000 + minor * 100 + patch)
        }
    }

    /// The table shape that this revision guarantees.
    pub fn tier(self) -> (t: Tier)
        ensures
            t == self.spec_tier(),
    {
        match self {
            Version::V100 | Version::V101 | Version::V102 => Tier::One,
            Version::V110 | Version::V111 => Tier::Two,
        }
    }

    /// Whether this revision is `minimum` or a later one.
    pub fn at_least(self, minimum: Version) -> (b: bool)
        ensures
            b == self.spec_at_least(minimum),
    {
        self.code() >= minimum.code()
    }
}

/// Two revisions with the same number are the same revision, and a revision's
/// number leads back to it.
pub proof fn lemma_code_names_one_version(a: Version, b: Version)
    ensures
        a.spec_code() == b.spec_code() ==> a == b,
        Version::spec_from_code(a.spec_code()) == Some(a),
{
}

/// Revisions are ordered: any two compare, and the order has no cycles.
pub proof fn lemma_versions_are_ordered(a: Version, b: Version, c: Version)
    ensures
        a.spec_at_least(a),
        a.spec_at_least(b) || b.spec_at_least(a),
        a.spec_at_least(b) && b.spec_at_least(a) ==> a == b,
        a.spec_at_least(b) && b.spec_at_least(c) ==> a.spec_at_least(c),
{
}

/// A later revision provides at least the table of an earlier one: whatever
/// an earlier revision's tier holds, a later revision's tier holds too.
pub proof fn lemma_later_version_keeps_operations(later: Version, earlier: Version)
    requires
        later.spec_at_least(earlier),
    ensures
        later.spec_tier().spec_includes(earlier.spec_tier()),
        earlier.spec_tier().spec_slots() <= later.spec_tier().spec_slots(),
{
}

} // verus!
