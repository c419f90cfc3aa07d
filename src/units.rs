//! Conversions of raw byte counts and ratios into the fixed-point values shown.
use vstd::prelude::*;

verus! {

/// Bytes in a gibibyte.
pub const GIB: u64 = 1073741824;

/// Bytes in a kibibyte.
pub const KIB: u64 = 1024;

/// `n * 100 / unit`, halves rounded up: hundredths of `unit`.
pub open spec fn hundredths_of(n: nat, unit: nat) -> nat
    recommends
        unit > 0,
{
    (n * 100 + unit / 2) / unit
}

/// `part / whole` in basis points (10000 is the whole), halves rounded up;
/// zero for an empty whole.
pub open spec fn share_bps(part: nat, whole: nat) -> nat {
    if whole == 0 {
        0
    } else {
        (part * 10000 + whole / 2) / whole
    }
}

fn scaled(n: u64, factor: u64, unit: u64) -> (r: u128)
    requires
        unit > 0,
        factor <= 10000,
    ensures
        r as nat == (n as nat * factor as nat + unit as nat / 2) / (unit as nat),
        unit >= factor ==> r <= u64::MAX,
{
    proof {
        assert(n as nat * factor as nat <= u64::MAX as nat * 10000) by (nonlinear_arith)
            requires
                n as nat <= u64::MAX as nat,
                factor <= 10000,
        ;
    }
    let p: u128 = (n as u128) * (factor as u128) + (unit / 2) as u128;
    let q: u128 = p / (unit as u128);
    proof {
        if unit >= factor {
            assert(q as int <= u64::MAX as int) by (nonlinear_arith)
                requires
                    q as int == (p as int) / (unit as int),
                    unit >= factor,
                    unit >= 1,
                    p as int == n as int * factor as int + unit as int / 2,
                    n <= u64::MAX,
            {
                assert(p as int <= n as int * unit as int + unit as int);
                assert(p as int / unit as int <= (n as int * unit as int + unit as int) / unit as int);
                assert((n as int * unit as int + unit as int) / unit as int == n as int + 1);
            }
        }
    }
    q
}

/// Hundredths of a gibibyte in `bytes`.
pub fn gib_hundredths(bytes: u64) -> (r: u64)
    ensures
        r as nat == hundredths_of(bytes as nat, GIB as nat),
{
    scaled(bytes, 100, GIB) as u64
}

/// Hundredths of a kibibyte in `bytes`.
pub fn kib_hundredths(bytes: u64) -> (r: u64)
    ensures
        r as nat == hundredths_of(bytes as nat, KIB as nat),
{
    scaled(bytes, 100, KIB) as u64
}

/// `part / whole` in basis points; zero when `whole` is zero, and `u64::MAX`
/// where the share is larger than that.
pub fn ratio_bps(part: u64, whole: u64) -> (r: u64)
    ensures
        share_bps(part as nat, whole as nat) <= u64::MAX ==> r as nat == share_bps(part as nat, whole as nat),
        share_bps(part as nat, whole as nat) > u64::MAX ==> r == u64::MAX,
{
    if whole == 0 {
        0
    } else {
        let q = scaled(part, 10000, whole);
        if q > u64::MAX as u128 {
            u64::MAX
        } else {
            q as u64
        }
    }
}

} // verus!
