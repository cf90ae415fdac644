//! Length policies and layout limits.
//!
//! A [`Length`] is the strategy a widget uses to fill space in one
//! dimension; [`Limits`] is a pair of minimum and maximum sizes that a
//! layout pass narrows step by step and finally resolves against a
//! requested policy and an intrinsic content size.

use vstd::prelude::*;

use crate::geometry::{coord_ok, dim_ok, Size, MAX_DIM};

verus! {

/// The strategy used to fill space in a specific dimension.
#[derive(Clone, Copy, Debug, PartialEq, Eq, Structural)]
pub enum Length {
    /// Fill all the remaining space.
    Fill,
    /// Fill a portion of the remaining space relative to other elements.
    FillPortion(u16),
    /// Fill the least amount of space.
    Shrink,
    /// Fill a fixed amount of space.
    Fixed(i64),
}

impl Length {
    /// A `Fixed` amount is non-negative and bounded.
    pub open spec fn wf(self) -> bool {
        match self {
            Length::Fixed(v) => 0 <= v <= MAX_DIM,
            _ => true,
        }
    }

    /// The relative unit of remaining space this policy claims.
    pub open spec fn spec_fill_factor(self) -> int {
        match self {
            Length::Fill => 1,
            Length::FillPortion(factor) => factor as int,
            Length::Shrink => 0,
            Length::Fixed(_) => 0,
        }
    }

    /// Whether the policy claims remaining space.
    pub open spec fn spec_is_fill(self) -> bool {
        self.spec_fill_factor() != 0
    }

    /// The fluid variant of the policy: `Shrink` for `Shrink` and `Fixed`,
    /// `Fill` otherwise.
    pub open spec fn spec_fluid(self) -> Length {
        match self {
            Length::Fill | Length::FillPortion(_) => Length::Fill,
            Length::Shrink | Length::Fixed(_) => Length::Shrink,
        }
    }

    /// The policy that can contain `other` while matching its fluidity:
    /// `Shrink` adapts to a filling `other`, anything else stays.
    pub open spec fn spec_enclose(self, other: Length) -> Length {
        match (self, other) {
            (Length::Shrink, Length::Fill) => other,
            (Length::Shrink, Length::FillPortion(_)) => other,
            _ => self,
        }
    }

    /// Returns the fill factor of the policy.
    pub fn fill_factor(&self) -> (f: u16)
        ensures
            f as int == self.spec_fill_factor(),
    {
        match self {
            Length::Fill => 1,
            Length::FillPortion(factor) => *factor,
            Length::Shrink => 0,
            Length::Fixed(_) => 0,
        }
    }

    /// Returns whether the policy is `Fill` or `FillPortion`.
    pub fn is_fill(&self) -> (b: bool)
        ensures
            b == self.spec_is_fill(),
    {
        self.fill_factor() != 0
    }

    /// Returns the fluid variant of the policy.
    pub fn fluid(&self) -> (l: Length)
        ensures
            l == self.spec_fluid(),
    {
        match self {
            Length::Fill | Length::FillPortion(_) => Length::Fill,
            Length::Shrink | Length::Fixed(_) => Length::Shrink,
        }
    }

    /// Adapts the policy so it can contain `other` and match its fluidity.
    pub fn enclose(self, other: Length) -> (l: Length)
        ensures
            l == self.spec_enclose(other),
    {
        match (self, other) {
            (Length::Shrink, Length::Fill) | (Length::Shrink, Length::FillPortion(_)) => other,
            _ => self,
        }
    }
}

/// Clamps `v` into `[lo, hi]`, preferring the lower bound when `lo > hi`
/// (the value is first capped by `hi`, then raised to `lo`).
pub open spec fn spec_clamp(v: int, lo: int, hi: int) -> int {
    let capped = if v <= hi { v } else { hi };
    if capped >= lo { capped } else { lo }
}

/// A set of size constraints for layouting.
///
/// `compression` records, per dimension, that a `Shrink` policy was applied:
/// fluid contents then compress to their intrinsic size when resolved.
#[derive(Clone, Copy, Debug, PartialEq, Eq, Structural)]
pub struct Limits {
    /// The minimum size.
    pub min: Size,
    /// The maximum size.
    pub max: Size,
    /// Whether width resolution compresses fluid contents.
    pub compress_width: bool,
    /// Whether height resolution compresses fluid contents.
    pub compress_height: bool,
}

impl Limits {
    /// Bounds are well formed and each minimum is at most its maximum.
    pub open spec fn wf(self) -> bool {
        &&& self.min.wf()
        &&& self.max.wf()
        &&& self.min.width <= self.max.width
        &&& self.min.height <= self.max.height
    }

    /// The minimum size.
    pub open spec fn spec_min(self) -> Size {
        self.min
    }

    /// The maximum size.
    pub open spec fn spec_max(self) -> Size {
        self.max
    }

    /// Whether width resolution compresses fluid contents.
    pub open spec fn spec_compress_width(self) -> bool {
        self.compress_width
    }

    /// Whether height resolution compresses fluid contents.
    pub open spec fn spec_compress_height(self) -> bool {
        self.compress_height
    }

    /// Creates new limits with the given minimum and maximum sizes.
    pub fn new(min: Size, max: Size) -> (l: Limits)
        ensures
            l.spec_min() == min,
            l.spec_max() == max,
            !l.spec_compress_width(),
            !l.spec_compress_height(),
    {
        Limits { min, max, compress_width: false, compress_height: false }
    }

    /// Returns the minimum size of the limits.
    pub fn min(&self) -> (s: Size)
        ensures
            s == self.spec_min(),
    {
        self.min
    }

    /// Returns the maximum size of the limits.
    pub fn max(&self) -> (s: Size)
        ensures
            s == self.spec_max(),
    {
        self.max
    }

    /// The limits after applying the width policy: a fixed width pins both
    /// bounds, `Shrink` marks compression, filling policies change nothing.
    pub open spec fn spec_width(self, width: Length) -> Limits {
        match width {
            Length::Shrink => Limits { compress_width: true, ..self },
            Length::Fixed(amount) => {
                let w = spec_clamp(amount as int, self.min.width as int, self.max.width as int);
                Limits {
                    min: Size { width: w as i64, ..self.min },
                    max: Size { width: w as i64, ..self.max },
                    compress_width: false,
                    ..self
                }
            },
            _ => self,
        }
    }

    /// The limits after applying the height policy.
    pub open spec fn spec_height(self, height: Length) -> Limits {
        match height {
            Length::Shrink => Limits { compress_height: true, ..self },
            Length::Fixed(amount) => {
                let h = spec_clamp(amount as int, self.min.height as int, self.max.height as int);
                Limits {
                    min: Size { height: h as i64, ..self.min },
                    max: Size { height: h as i64, ..self.max },
                    compress_height: false,
                    ..self
                }
            },
            _ => self,
        }
    }

    /// Applies a width policy to the limits.
    pub fn width(self, width: Length) -> (l: Limits)
        requires
            self.wf(),
        ensures
            l == self.spec_width(width),
            l.wf(),
    {
        match width {
            Length::Shrink => Limits { compress_width: true, ..self },
            Length::Fixed(amount) => {
                let mut w: i64 = amount;
                if w > self.max.width {
                    w = self.max.width;
                }
                if w < self.min.width {
                    w = self.min.width;
                }
                Limits {
                    min: Size { width: w, ..self.min },
                    max: Size { width: w, ..self.max },
                    compress_width: false,
                    ..self
                }
            },
            _ => self,
        }
    }

    /// Applies a height policy to the limits.
    pub fn height(self, height: Length) -> (l: Limits)
        requires
            self.wf(),
        ensures
            l == self.spec_height(height),
            l.wf(),
    {
        match height {
            Length::Shrink => Limits { compress_height: true, ..self },
            Length::Fixed(amount) => {
                let mut h: i64 = amount;
                if h > self.max.height {
                    h = self.max.height;
                }
                if h < self.min.height {
                    h = self.min.height;
                }
                Limits {
                    min: Size { height: h, ..self.min },
                    max: Size { height: h, ..self.max },
                    compress_height: false,
                    ..self
                }
            },
            _ => self,
        }
    }

    /// The limits after narrowing the maximum width to `max_width`
    /// (never below the minimum width).
    pub open spec fn spec_max_width(self, max_width: int) -> Limits {
        let w = spec_clamp(self.max.width as int, self.min.width as int, max_width);
        Limits { max: Size { width: w as i64, ..self.max }, ..self }
    }

    /// Narrows the maximum width of the limits.
    pub fn max_width(self, max_width: i64) -> (l: Limits)
        requires
            self.wf(),
            0 <= max_width <= MAX_DIM,
        ensures
            l == self.spec_max_width(max_width as int),
            l.wf(),
    {
        let mut w: i64 = self.max.width;
        if w > max_width {
            w = max_width;
        }
        if w < self.min.width {
            w = self.min.width;
        }
        Limits { max: Size { width: w, ..self.max }, ..self }
    }

    /// The limits after shrinking both bounds by `size`, floored at zero.
    pub open spec fn spec_shrink(self, size: Size) -> Limits {
        let shrink_dim = |bound: int, by: int| if bound - by >= 0 { bound - by } else { 0 };
        Limits {
            min: Size {
                width: shrink_dim(self.min.width as int, size.width as int) as i64,
                height: shrink_dim(self.min.height as int, size.height as int) as i64,
            },
            max: Size {
                width: shrink_dim(self.max.width as int, size.width as int) as i64,
                height: shrink_dim(self.max.height as int, size.height as int) as i64,
            },
            ..self
        }
    }

    /// Shrinks both bounds of the limits by `size`, flooring at zero.
    pub fn shrink(&self, size: Size) -> (l: Limits)
        requires
            self.wf(),
            size.width >= 0,
            size.height >= 0,
        ensures
            l == self.spec_shrink(size),
            l.wf(),
    {
        let min_w: i64 = if self.min.width >= size.width { self.min.width - size.width } else { 0 };
        let min_h: i64 = if self.min.height >= size.height {
            self.min.height - size.height
        } else {
            0
        };
        let max_w: i64 = if self.max.width >= size.width { self.max.width - size.width } else { 0 };
        let max_h: i64 = if self.max.height >= size.height {
            self.max.height - size.height
        } else {
            0
        };
        Limits {
            min: Size { width: min_w, height: min_h },
            max: Size { width: max_w, height: max_h },
            ..*self
        }
    }

    /// The width that resolving against these limits yields for the given
    /// policy and intrinsic width.
    pub open spec fn spec_resolve_width(self, width: Length, intrinsic: int) -> int {
        match width {
            Length::Fill | Length::FillPortion(_) => if !self.compress_width {
                self.max.width as int
            } else {
                spec_clamp(intrinsic, self.min.width as int, self.max.width as int)
            },
            Length::Fixed(amount) => spec_clamp(
                amount as int,
                self.min.width as int,
                self.max.width as int,
            ),
            Length::Shrink => spec_clamp(intrinsic, self.min.width as int, self.max.width as int),
        }
    }

    /// The height that resolving against these limits yields for the given
    /// policy and intrinsic height.
    pub open spec fn spec_resolve_height(self, height: Length, intrinsic: int) -> int {
        match height {
            Length::Fill | Length::FillPortion(_) => if !self.compress_height {
                self.max.height as int
            } else {
                spec_clamp(intrinsic, self.min.height as int, self.max.height as int)
            },
            Length::Fixed(amount) => spec_clamp(
                amount as int,
                self.min.height as int,
                self.max.height as int,
            ),
            Length::Shrink => spec_clamp(
                intrinsic,
                self.min.height as int,
                self.max.height as int,
            ),
        }
    }

    /// Computes the size that fits the limits given the width and height
    /// policies and the intrinsic size of the content: filling policies take
    /// the maximum (unless compressed), fixed amounts and intrinsic sizes
    /// are clamped into the bounds.
    pub fn resolve(&self, width: Length, height: Length, intrinsic_size: Size) -> (s: Size)
        requires
            self.wf(),
            width.wf(),
            height.wf(),
            coord_ok(intrinsic_size.width as int),
            coord_ok(intrinsic_size.height as int),
        ensures
            s.width as int == self.spec_resolve_width(width, intrinsic_size.width as int),
            s.height as int == self.spec_resolve_height(height, intrinsic_size.height as int),
            s.wf(),
    {
        let w: i64 = match width {
            Length::Fill | Length::FillPortion(_) => if !self.compress_width {
                self.max.width
            } else {
                clamp_dim(intrinsic_size.width, self.min.width, self.max.width)
            },
            Length::Fixed(amount) => clamp_dim(amount, self.min.width, self.max.width),
            Length::Shrink => clamp_dim(intrinsic_size.width, self.min.width, self.max.width),
        };
        let h: i64 = match height {
            Length::Fill | Length::FillPortion(_) => if !self.compress_height {
                self.max.height
            } else {
                clamp_dim(intrinsic_size.height, self.min.height, self.max.height)
            },
            Length::Fixed(amount) => clamp_dim(amount, self.min.height, self.max.height),
            Length::Shrink => clamp_dim(intrinsic_size.height, self.min.height, self.max.height),
        };
        Size { width: w, height: h }
    }
}

/// Clamps `v` into `[lo, hi]`, capping by `hi` before raising to `lo`.
fn clamp_dim(v: i64, lo: i64, hi: i64) -> (r: i64)
    requires
        coord_ok(v as int),
        dim_ok(lo as int),
        dim_ok(hi as int),
    ensures
        r as int == spec_clamp(v as int, lo as int, hi as int),
{
    let mut r: i64 = v;
    if r > hi {
        r = hi;
    }
    if r < lo {
        r = lo;
    }
    r
}

} // verus!
