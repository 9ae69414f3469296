//! Point-in-time host metrics and the values derived from them.
//!
//! A [`RawReading`] holds exactly what one atomic refresh of the OS counters
//! yields, as plain integers (fractional counters as hundredths). A
//! [`Snapshot`] adds the derived values: used memory is total minus available
//! (clamped at zero), and each usage percentage is computed in hundredths of
//! a percent, reported as zero when the corresponding total is zero.

use crate::numfmt::round_div;
use vstd::prelude::*;

verus! {

/// One atomic reading of the OS counters, before any derivation.
///
/// Fields that the OS reports fractionally (CPU usage, load averages) are
/// carried as integer hundredths; a field the OS cannot determine is zero.
#[derive(Clone, Copy, PartialEq, Eq, Structural, Debug)]
pub struct RawReading {
    /// Memory available for new work, in bytes.
    pub available_memory_bytes: u64,
    /// Total installed memory, in bytes.
    pub total_memory_bytes: u64,
    /// Physical core count; zero if undeterminable.
    pub core_count: u64,
    /// Aggregate CPU usage, in hundredths of a percent.
    pub cpu_percent_centi: u64,
    /// Total swap, in bytes.
    pub total_swap_bytes: u64,
    /// Swap in use, in bytes.
    pub used_swap_bytes: u64,
    /// Seconds since boot.
    pub uptime_seconds: u64,
    /// One-minute load average, in hundredths.
    pub load_one_centi: u64,
    /// Five-minute load average, in hundredths.
    pub load_five_centi: u64,
    /// Fifteen-minute load average, in hundredths.
    pub load_fifteen_centi: u64,
}

/// One consistent capture of host metrics together with its derived values.
#[derive(Clone, Copy, PartialEq, Eq, Structural, Debug)]
pub struct Snapshot {
    /// Memory available for new work, in bytes.
    pub available_memory_bytes: u64,
    /// Total installed memory, in bytes.
    pub total_memory_bytes: u64,
    /// Derived: total minus available, clamped at zero.
    pub used_memory_bytes: u64,
    /// Derived: used memory share of total, in hundredths of a percent; zero
    /// when total is zero.
    pub used_memory_percent_centi: u64,
    /// Physical core count; zero if undeterminable.
    pub core_count: u64,
    /// Aggregate CPU usage, in hundredths of a percent.
    pub cpu_percent_centi: u64,
    /// Total swap, in bytes.
    pub total_swap_bytes: u64,
    /// Swap in use, in bytes.
    pub used_swap_bytes: u64,
    /// Derived: used swap share of total swap, in hundredths of a percent;
    /// zero when total swap is zero.
    pub used_swap_percent_centi: u64,
    /// Seconds since boot.
    pub uptime_seconds: u64,
    /// One-minute load average, in hundredths.
    pub load_one_centi: u64,
    /// Five-minute load average, in hundredths.
    pub load_five_centi: u64,
    /// Fifteen-minute load average, in hundredths.
    pub load_fifteen_centi: u64,
}

/// `part / whole` in hundredths of a percent, rounded half up; zero when
/// `whole` is zero.
pub open spec fn percent_centi(part: nat, whole: nat) -> nat {
    if whole == 0 {
        0
    } else {
        round_div(part * 10000, whole)
    }
}

/// Used memory derived from one reading: total minus available, clamped at
/// zero when the OS reports more available than total.
pub open spec fn used_of(total: nat, available: nat) -> nat {
    if available <= total {
        (total - available) as nat
    } else {
        0
    }
}

/// The snapshot that one reading determines.
pub open spec fn snapshot_of(r: RawReading) -> Snapshot {
    Snapshot {
        available_memory_bytes: r.available_memory_bytes,
        total_memory_bytes: r.total_memory_bytes,
        used_memory_bytes: used_of(
            r.total_memory_bytes as nat,
            r.available_memory_bytes as nat,
        ) as u64,
        used_memory_percent_centi: percent_centi(
            used_of(r.total_memory_bytes as nat, r.available_memory_bytes as nat),
            r.total_memory_bytes as nat,
        ) as u64,
        core_count: r.core_count,
        cpu_percent_centi: r.cpu_percent_centi,
        total_swap_bytes: r.total_swap_bytes,
        used_swap_bytes: r.used_swap_bytes,
        used_swap_percent_centi: percent_centi(
            if r.used_swap_bytes <= r.total_swap_bytes {
                r.used_swap_bytes as nat
            } else {
                r.total_swap_bytes as nat
            },
            r.total_swap_bytes as nat,
        ) as u64,
        uptime_seconds: r.uptime_seconds,
        load_one_centi: r.load_one_centi,
        load_five_centi: r.load_five_centi,
        load_fifteen_centi: r.load_fifteen_centi,
    }
}

/// `part / whole` in hundredths of a percent, rounded half up; zero when
/// `whole` is zero.
pub fn compute_percent_centi(part: u64, whole: u64) -> (c: u64)
    requires
        part <= whole,
    ensures
        c as nat == percent_centi(part as nat, whole as nat),
        whole == 0 ==> c == 0,
        c <= 10000,
{
    if whole == 0 {
        0
    } else {
        let num: u128 = 2 * (part as u128) * 10000 + (whole as u128);
        let den: u128 = 2 * (whole as u128);
        let c: u128 = num / den;
        proof {
            assert(c * den <= num) by {
                vstd::arithmetic::div_mod::lemma_fundamental_div_mod(num as int, den as int);
            }
            assert(c <= 10000) by {
                assert(num < 10001 * den);
                if c > 10000 {
                    assert(c * den >= 10001 * den) by (nonlinear_arith)
                        requires
                            c >= 10001,
                            den > 0,
                    ;
                }
            }
        }
        c as u64
    }
}

impl Snapshot {
    /// Derives a snapshot from one atomic reading: raw fields are copied;
    /// used memory is total minus available, clamped at zero; each usage
    /// percentage is in hundredths of a percent, rounded half up, and zero
    /// when its total is zero. Swap usage is clamped to total swap for the
    /// percentage.
    pub fn from_raw(r: &RawReading) -> (s: Snapshot)
        ensures
            s == snapshot_of(*r),
            r.available_memory_bytes <= r.total_memory_bytes ==> s.used_memory_bytes
                == r.total_memory_bytes - r.available_memory_bytes,
            r.available_memory_bytes > r.total_memory_bytes ==> s.used_memory_bytes == 0,
            r.total_memory_bytes == 0 ==> s.used_memory_percent_centi == 0,
            r.total_swap_bytes == 0 ==> s.used_swap_percent_centi == 0,
    {
        let used_memory_bytes: u64 = if r.available_memory_bytes <= r.total_memory_bytes {
            r.total_memory_bytes - r.available_memory_bytes
        } else {
            0
        };
        let swap_in_use: u64 = if r.used_swap_bytes <= r.total_swap_bytes {
            r.used_swap_bytes
        } else {
            r.total_swap_bytes
        };
        Snapshot {
            available_memory_bytes: r.available_memory_bytes,
            total_memory_bytes: r.total_memory_bytes,
            used_memory_bytes,
            used_memory_percent_centi: compute_percent_centi(
                used_memory_bytes,
                r.total_memory_bytes,
            ),
            core_count: r.core_count,
            cpu_percent_centi: r.cpu_percent_centi,
            total_swap_bytes: r.total_swap_bytes,
            used_swap_bytes: r.used_swap_bytes,
            used_swap_percent_centi: compute_percent_centi(swap_in_use, r.total_swap_bytes),
            uptime_seconds: r.uptime_seconds,
            load_one_centi: r.load_one_centi,
            load_five_centi: r.load_five_centi,
            load_fifteen_centi: r.load_fifteen_centi,
        }
    }
}

/// Collection is deterministic in its reading: snapshots derived from equal
/// readings are equal, field for field. Dynamic fields can differ between two
/// real collections only because the readings themselves differ.
pub proof fn lemma_collection_deterministic(a: RawReading, b: RawReading)
    requires
        a == b,
    ensures
        snapshot_of(a) == snapshot_of(b),
{
}

/// Static host facts pass through collection unchanged: the core count of a
/// derived snapshot is the core count of its reading, so readings that agree
/// on it yield snapshots that agree on it.
pub proof fn lemma_static_fields_stable(a: RawReading, b: RawReading)
    requires
        a.core_count == b.core_count,
    ensures
        snapshot_of(a).core_count == snapshot_of(b).core_count,
{
}

} // verus!
