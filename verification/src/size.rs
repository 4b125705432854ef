//! The unit in which a size in bytes is shown.

use vstd::prelude::*;

verus! {

/// A unit of size. Each is 1024 times the one before.
#[derive(Debug, Clone, Copy, PartialEq, Eq, Hash, Structural)]
pub enum SizeUnit {
    Bytes,
    Kilobytes,
    Megabytes,
    Gigabytes,
    Terabytes,
}

impl SizeUnit {
    /// The short name of the unit.
    pub open spec fn name(self) -> Seq<char> {
        match self {
            SizeUnit::Bytes => "B"@,
            SizeUnit::Kilobytes => "KB"@,
            SizeUnit::Megabytes => "MB"@,
            SizeUnit::Gigabytes => "GB"@,
            SizeUnit::Terabytes => "TB"@,
        }
    }

    /// The number of bytes that make one of the unit.
    pub open spec fn bytes(self) -> nat {
        match self {
            SizeUnit::Bytes => 1,
            SizeUnit::Kilobytes => 0x400,
            SizeUnit::Megabytes => 0x10_0000,
            SizeUnit::Gigabytes => 0x4000_0000,
            SizeUnit::Terabytes => 0x100_0000_0000,
        }
    }

    /// The unit in which `size` bytes are shown: the largest unit that
    /// `size` holds at least once, and bytes for a size of zero.
    pub open spec fn of(size: nat) -> SizeUnit {
        if size >= SizeUnit::Terabytes.bytes() {
            SizeUnit::Terabytes
        } else if size >= SizeUnit::Gigabytes.bytes() {
            SizeUnit::Gigabytes
        } else if size >= SizeUnit::Megabytes.bytes() {
            SizeUnit::Megabytes
        } else if size >= SizeUnit::Kilobytes.bytes() {
            SizeUnit::Kilobytes
        } else {
            SizeUnit::Bytes
        }
    }

    /// Whether `size` bytes hold the unit `whole` times, and at least once
    /// if the unit is not the byte.
    pub open spec fn holds(self, whole: nat, size: nat) -> bool {
        match self {
            SizeUnit::Bytes => whole == size,
            SizeUnit::Kilobytes => 1 <= whole && whole * 0x400 <= size < (whole + 1) * 0x400,
            SizeUnit::Megabytes => 1 <= whole && whole * 0x10_0000 <= size < (whole + 1)
                * 0x10_0000,
            SizeUnit::Gigabytes => 1 <= whole && whole * 0x4000_0000 <= size < (whole + 1)
                * 0x4000_0000,
            SizeUnit::Terabytes => 1 <= whole && whole * 0x100_0000_0000 <= size < (whole + 1)
                * 0x100_0000_0000,
        }
    }

    /// Returns the short name of the unit.
    pub fn as_str(&self) -> (text: &'static str)
        ensures
            text@ == self.name(),
    {
        match self {
            SizeUnit::Bytes => "B",
            SizeUnit::Kilobytes => "KB",
            SizeUnit::Megabytes => "MB",
            SizeUnit::Gigabytes => "GB",
            SizeUnit::Terabytes => "TB",
        }
    }

    /// Returns the number of bytes that make one of the unit.
    pub fn divisor(&self) -> (bytes: u64)
        ensures
            bytes == self.bytes(),
    {
        match self {
            SizeUnit::Bytes => 1,
            SizeUnit::Kilobytes => 0x400,
            SizeUnit::Megabytes => 0x10_0000,
            SizeUnit::Gigabytes => 0x4000_0000,
            SizeUnit::Terabytes => 0x100_0000_0000,
        }
    }

    /// Picks the unit in which `size` bytes are shown, by dividing by 1024
    /// as long as at least 1024 is left and a larger unit exists.
    pub fn for_size(size: u128) -> (unit: SizeUnit)
        ensures
            unit == SizeUnit::of(size as nat),
    {
        let mut unit = SizeUnit::Bytes;
        let mut left: u128 = size;
        while left >= 1024 && unit.divisor() < 0x100_0000_0000
            invariant
                unit.holds(left as nat, size as nat),
            decreases left,
        {
            left = left / 1024;
            unit =
            match unit {
                SizeUnit::Bytes => SizeUnit::Kilobytes,
                SizeUnit::Kilobytes => SizeUnit::Megabytes,
                SizeUnit::Megabytes => SizeUnit::Gigabytes,
                _ => SizeUnit::Terabytes,
            };
        }
        unit
    }
}

} // verus!
