//! Exact conversion of raw source units to megabytes.
//!
//! Sources report memory in kibibytes and disk capacities in bytes.
//! A megabyte value is kept as a fixed-point pair: a whole number of
//! megabytes plus a fraction counted in 1/1048576 of a megabyte (one
//! byte), so both conversions are exact.

use vstd::prelude::*;

verus! {

/// A size in megabytes, held exactly: `whole + frac / 1048576` MB,
/// with `frac < 1048576`.
#[derive(Clone, Copy, PartialEq, Eq, Structural, Debug)]
pub struct MegaBytes {
    pub whole: u64,
    pub frac: u64,
}

impl MegaBytes {
    /// Well-formed: the fractional part stays below one megabyte.
    pub open spec fn wf(self) -> bool {
        self.frac < 1048576
    }

    /// The size in bytes that this value stands for.
    pub open spec fn as_bytes(self) -> int {
        self.whole * 1048576 + self.frac
    }

    /// The zero size, reported when a source is unavailable.
    pub open spec fn spec_zero() -> MegaBytes {
        MegaBytes { whole: 0, frac: 0 }
    }

    pub fn zero() -> (r: MegaBytes)
        ensures
            r == MegaBytes::spec_zero(),
    {
        MegaBytes { whole: 0, frac: 0 }
    }
}

/// What `kib_to_mb` returns: kibibytes divided by 1024, exactly.
pub open spec fn spec_kib_to_mb(kib: u64) -> MegaBytes {
    MegaBytes { whole: (kib / 1024) as u64, frac: ((kib % 1024) * 1024) as u64 }
}

/// What `bytes_to_mb` returns: bytes divided by 1048576, exactly.
pub open spec fn spec_bytes_to_mb(bytes: u64) -> MegaBytes {
    MegaBytes { whole: (bytes / 1048576) as u64, frac: (bytes % 1048576) as u64 }
}

/// Convert a kibibyte count to megabytes (division by 1024, exact).
pub fn kib_to_mb(kib: u64) -> (r: MegaBytes)
    ensures
        r == spec_kib_to_mb(kib),
        r.wf(),
        r.as_bytes() == kib * 1024,
{
    proof {
        assert(1024 * (kib / 1024) + (kib % 1024) == kib) by (nonlinear_arith);
        assert((kib / 1024) * 1048576 + (kib % 1024) * 1024 == kib * 1024) by (nonlinear_arith);
    }
    MegaBytes { whole: kib / 1024, frac: (kib % 1024) * 1024 }
}

/// Convert a byte count to megabytes (division by 1048576, exact).
pub fn bytes_to_mb(bytes: u64) -> (r: MegaBytes)
    ensures
        r == spec_bytes_to_mb(bytes),
        r.wf(),
        r.as_bytes() == bytes,
{
    proof {
        assert(1048576 * (bytes / 1048576) + (bytes % 1048576) == bytes) by (nonlinear_arith);
    }
    MegaBytes { whole: bytes / 1048576, frac: bytes % 1048576 }
}

/// Conversions lose nothing: two byte counts convert to the same
/// megabyte value only if they are the same count, and a kibibyte
/// count converts to the megabyte value of its own byte count.
pub proof fn lemma_mb_conversions_exact(a: u64, b: u64, kib: u64)
    ensures
        spec_bytes_to_mb(a) == spec_bytes_to_mb(b) ==> a == b,
        kib <= u64::MAX / 1024 ==> spec_kib_to_mb(kib) == spec_bytes_to_mb((kib * 1024) as u64),
{
    assert(1048576 * (a / 1048576) + (a % 1048576) == a) by (nonlinear_arith);
    assert(1048576 * (b / 1048576) + (b % 1048576) == b) by (nonlinear_arith);
    if kib <= u64::MAX / 1024 {
        let kb: int = kib * 1024;
        let q: int = kib as int / 1024;
        let r: int = kib as int % 1024;
        assert(kib == 1024 * q + r && 0 <= r < 1024 && 0 <= q) by (nonlinear_arith)
            requires
                q == kib as int / 1024,
                r == kib as int % 1024,
        ;
        assert(kb == 1048576 * q + 1024 * r) by (nonlinear_arith)
            requires
                kb == kib * 1024,
                kib == 1024 * q + r,
        ;
        assert(kb / 1048576 == q && kb % 1048576 == 1024 * r) by (nonlinear_arith)
            requires
                kb == 1048576 * q + 1024 * r,
                0 <= r < 1024,
                0 <= q,
        ;
        assert(kb <= u64::MAX) by (nonlinear_arith)
            requires
                kib <= u64::MAX / 1024,
                kb == kib * 1024,
        ;
    }
}

} // verus!
