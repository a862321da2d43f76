//! Size levels: the band that a byte count falls into.

use vstd::prelude::*;
use crate::text::{decimal, decimal_string};

verus! {

/// One mebibyte, in bytes.
pub const MIB: u64 = 1024 * 1024;

/// One gibibyte, in bytes.
pub const GIB: u64 = 1024 * 1024 * 1024;

/// The highest size level.
pub const MAX_LEVEL: u8 = 20;

/// The smallest byte count that belongs to `level`. Level 0 is the empty transfer,
/// level 1 starts at one byte, and from there the bands run 1 MiB, 4 MiB, 8 MiB, ...,
/// 512 MiB, 1 GiB, 4 GiB, 8 GiB, ..., 512 GiB, 1 TiB.
pub open spec fn lower_bound(level: nat) -> nat {
    if level == 0 {
        0
    } else if level == 1 {
        1
    } else if level == 2 {
        MIB as nat
    } else if level == 3 {
        4 * MIB as nat
    } else if level == 4 {
        8 * MIB as nat
    } else if level == 5 {
        16 * MIB as nat
    } else if level == 6 {
        32 * MIB as nat
    } else if level == 7 {
        64 * MIB as nat
    } else if level == 8 {
        128 * MIB as nat
    } else if level == 9 {
        256 * MIB as nat
    } else if level == 10 {
        512 * MIB as nat
    } else if level == 11 {
        GIB as nat
    } else if level == 12 {
        4 * GIB as nat
    } else if level == 13 {
        8 * GIB as nat
    } else if level == 14 {
        16 * GIB as nat
    } else if level == 15 {
        32 * GIB as nat
    } else if level == 16 {
        64 * GIB as nat
    } else if level == 17 {
        128 * GIB as nat
    } else if level == 18 {
        256 * GIB as nat
    } else if level == 19 {
        512 * GIB as nat
    } else {
        1024 * GIB as nat
    }
}

/// The greatest level up to `top` whose lower bound is at most `size`.
pub open spec fn level_up_to(size: nat, top: nat) -> nat
    decreases top,
{
    if top == 0 || lower_bound(top) <= size {
        top
    } else {
        level_up_to(size, (top - 1) as nat)
    }
}

/// The size level of a byte count: the greatest of the levels 0 to 20 whose lower
/// bound is at most `size`.
pub open spec fn size_level(size: nat) -> nat {
    level_up_to(size, MAX_LEVEL as nat)
}

/// The size of a task, as one of 21 levels.
#[derive(Debug, Clone, Copy, PartialEq, Eq, Structural)]
pub enum TaskSize {
    /// No bytes at all.
    Level0,
    /// From one byte up to 1 MiB.
    Level1,
    /// From 1 MiB up to 4 MiB.
    Level2,
    /// From 4 MiB up to 8 MiB.
    Level3,
    /// From 8 MiB up to 16 MiB.
    Level4,
    /// From 16 MiB up to 32 MiB.
    Level5,
    /// From 32 MiB up to 64 MiB.
    Level6,
    /// From 64 MiB up to 128 MiB.
    Level7,
    /// From 128 MiB up to 256 MiB.
    Level8,
    /// From 256 MiB up to 512 MiB.
    Level9,
    /// From 512 MiB up to 1 GiB.
    Level10,
    /// From 1 GiB up to 4 GiB.
    Level11,
    /// From 4 GiB up to 8 GiB.
    Level12,
    /// From 8 GiB up to 16 GiB.
    Level13,
    /// From 16 GiB up to 32 GiB.
    Level14,
    /// From 32 GiB up to 64 GiB.
    Level15,
    /// From 64 GiB up to 128 GiB.
    Level16,
    /// From 128 GiB up to 256 GiB.
    Level17,
    /// From 256 GiB up to 512 GiB.
    Level18,
    /// From 512 GiB up to 1 TiB.
    Level19,
    /// 1 TiB and more.
    Level20,
}

impl TaskSize {
    /// The ordinal of the level, 0 to 20.
    pub open spec fn level(self) -> nat {
        match self {
            TaskSize::Level0 => 0,
            TaskSize::Level1 => 1,
            TaskSize::Level2 => 2,
            TaskSize::Level3 => 3,
            TaskSize::Level4 => 4,
            TaskSize::Level5 => 5,
            TaskSize::Level6 => 6,
            TaskSize::Level7 => 7,
            TaskSize::Level8 => 8,
            TaskSize::Level9 => 9,
            TaskSize::Level10 => 10,
            TaskSize::Level11 => 11,
            TaskSize::Level12 => 12,
            TaskSize::Level13 => 13,
            TaskSize::Level14 => 14,
            TaskSize::Level15 => 15,
            TaskSize::Level16 => 16,
            TaskSize::Level17 => 17,
            TaskSize::Level18 => 18,
            TaskSize::Level19 => 19,
            TaskSize::Level20 => 20,
        }
    }

    /// The ordinal of the level as a number.
    pub fn ordinal(&self) -> (n: u8)
        ensures
            n == self.level(),
    {
        match self {
            TaskSize::Level0 => 0,
            TaskSize::Level1 => 1,
            TaskSize::Level2 => 2,
            TaskSize::Level3 => 3,
            TaskSize::Level4 => 4,
            TaskSize::Level5 => 5,
            TaskSize::Level6 => 6,
            TaskSize::Level7 => 7,
            TaskSize::Level8 => 8,
            TaskSize::Level9 => 9,
            TaskSize::Level10 => 10,
            TaskSize::Level11 => 11,
            TaskSize::Level12 => 12,
            TaskSize::Level13 => 13,
            TaskSize::Level14 => 14,
            TaskSize::Level15 => 15,
            TaskSize::Level16 => 16,
            TaskSize::Level17 => 17,
            TaskSize::Level18 => 18,
            TaskSize::Level19 => 19,
            TaskSize::Level20 => 20,
        }
    }

    /// The level as a label value: its ordinal in decimal, "0" to "20".
    pub fn to_string(&self) -> (s: String)
        ensures
            s@ == decimal(self.level() as int),
    {
        decimal_string(self.ordinal() as i64)
    }

    /// Classifies a byte count. A count equal to a band's lower bound belongs to
    /// that band, not to the one below.
    pub fn calculate_size_level(size: u64) -> (r: TaskSize)
        ensures
            r.level() == size_level(size as nat),
            lower_bound(r.level()) <= size,
            r.level() < MAX_LEVEL ==> size < lower_bound(r.level() + 1),
    {
        reveal_with_fuel(level_up_to, 21);
        if size == 0 {
            TaskSize::Level0
        } else if size < MIB {
            TaskSize::Level1
        } else if size < 4 * MIB {
            TaskSize::Level2
        } else if size < 8 * MIB {
            TaskSize::Level3
        } else if size < 16 * MIB {
            TaskSize::Level4
        } else if size < 32 * MIB {
            TaskSize::Level5
        } else if size < 64 * MIB {
            TaskSize::Level6
        } else if size < 128 * MIB {
            TaskSize::Level7
        } else if size < 256 * MIB {
            TaskSize::Level8
        } else if size < 512 * MIB {
            TaskSize::Level9
        } else if size < GIB {
            TaskSize::Level10
        } else if size < 4 * GIB {
            TaskSize::Level11
        } else if size < 8 * GIB {
            TaskSize::Level12
        } else if size < 16 * GIB {
            TaskSize::Level13
        } else if size < 32 * GIB {
            TaskSize::Level14
        } else if size < 64 * GIB {
            TaskSize::Level15
        } else if size < 128 * GIB {
            TaskSize::Level16
        } else if size < 256 * GIB {
            TaskSize::Level17
        } else if size < 512 * GIB {
            TaskSize::Level18
        } else if size < 1024 * GIB {
            TaskSize::Level19
        } else {
            TaskSize::Level20
        }
    }
}

/// A larger byte count never falls into a lower level.
pub proof fn lemma_size_level_monotonic(a: nat, b: nat)
    requires
        a <= b,
    ensures
        size_level(a) <= size_level(b),
{
    reveal_with_fuel(level_up_to, 21);
}

/// Every byte count has a level from 0 to 20, within whose bounds it lies.
pub proof fn lemma_size_level_bounds(size: nat)
    ensures
        size_level(size) <= MAX_LEVEL,
        lower_bound(size_level(size)) <= size,
        size_level(size) < MAX_LEVEL ==> size < lower_bound(size_level(size) + 1),
{
    reveal_with_fuel(level_up_to, 21);
}

} // verus!
