//! Typed length values for the PDF user space.
//!
//! All lengths are carried in one canonical unit: thousandths of a
//! point (a point is roughly 1/72 inch). A value appears in the output
//! as a decimal numeric literal, see [`crate::emit::milli_bytes`].
use vstd::prelude::*;

verus! {

/// How many thousandths of a point one millimeter holds, scaled by 1000:
/// one millimeter is 2.834646 points.
pub const MILLI_PT_PER_MM_X1000: i64 = 2834646;

/// A length inside the PDF user space, in thousandths of a point.
///
/// The user space is device independent: on every device the rendered
/// size is the same. The base unit is the point, which equals roughly
/// 1/72 inch.
#[derive(Debug, PartialEq, Eq, Structural, Copy, Clone, Hash)]
pub struct UserSpace {
    /// The value in thousandths of a point.
    pub milli: i64,
}

/// Marker for lengths given in millimeters.
#[derive(Debug, PartialEq, Eq, Structural, Copy, Clone)]
pub struct Millimeters;

/// Marker for lengths given in points. The point is widely used in
/// printing.
#[derive(Debug, PartialEq, Eq, Structural, Copy, Clone)]
pub struct Points;

/// A pixel count; how large a pixel is depends on the device's
/// resolution, so conversions from [`UserSpace`] live with the
/// embedding application.
#[derive(Debug, PartialEq, Eq, Structural, Copy, Clone)]
pub struct Px(pub usize);

impl UserSpace {
    /// A length of `v` whole points.
    pub fn pt(v: i64) -> (r: UserSpace)
        requires
            -9_000_000_000_000_000 <= v * 1000 <= 9_000_000_000_000_000,
        ensures
            r.milli == v * 1000,
    {
        UserSpace { milli: v * 1000 }
    }

    /// A length of `v` thousandths of a point.
    pub fn pt_milli(v: i64) -> (r: UserSpace)
        ensures
            r.milli == v,
    {
        UserSpace { milli: v }
    }

    /// A length of `v` whole millimeters, rounded toward zero to the
    /// nearest thousandth of a point.
    pub fn mm(v: i64) -> (r: UserSpace)
        requires
            -3_000_000_000_000 <= v <= 3_000_000_000_000,
        ensures
            r.milli == crate::emit::tdiv(v * MILLI_PT_PER_MM_X1000, 1000),
    {
        proof {
            assert(-8503938000000000000 <= (v as int) * 2834646 <= 8503938000000000000)
                by (nonlinear_arith)
                requires
                    -3_000_000_000_000 <= v <= 3_000_000_000_000,
            ;
        }
        let p: i128 = (v as i128) * (MILLI_PT_PER_MM_X1000 as i128);
        let neg = p < 0;
        let mag: i128 = if neg {
            -p
        } else {
            p
        };
        let q: i128 = mag / 1000;
        let r: i64 = if neg {
            (-q) as i64
        } else {
            q as i64
        };
        UserSpace { milli: r }
    }

    /// The sum of two lengths.
    pub fn add(self, o: UserSpace) -> (r: UserSpace)
        requires
            i64::MIN <= self.milli + o.milli <= i64::MAX,
        ensures
            r.milli == self.milli + o.milli,
    {
        UserSpace { milli: self.milli + o.milli }
    }

    /// The difference of two lengths.
    pub fn sub(self, o: UserSpace) -> (r: UserSpace)
        requires
            i64::MIN <= self.milli - o.milli <= i64::MAX,
        ensures
            r.milli == self.milli - o.milli,
    {
        UserSpace { milli: self.milli - o.milli }
    }

    /// The negated length.
    pub fn neg(self) -> (r: UserSpace)
        requires
            self.milli != i64::MIN,
        ensures
            r.milli == -self.milli,
    {
        UserSpace { milli: -self.milli }
    }

    /// Half the length, rounded toward zero.
    pub fn half(self) -> (r: UserSpace)
        requires
            self.milli > i64::MIN,
        ensures
            r.milli == crate::emit::tdiv(self.milli as int, 2),
    {
        let neg = self.milli < 0;
        let mag: i64 = if neg {
            -self.milli
        } else {
            self.milli
        };
        let q = mag / 2;
        UserSpace { milli: if neg { -q } else { q } }
    }
}

} // verus!
