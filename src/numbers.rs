//! Clamping and cursor arithmetic on the integer types that index lists.
use vstd::prelude::*;

verus! {

/// An integer type that can be clamped; `as_int` is its mathematical value.
pub trait ClampNumType: Copy {
    spec fn as_int(self) -> int;
}

/// Clamping from below and from above.
pub trait ClampNumExt<T: ClampNumType>: ClampNumType {
    /// `min` where the value is below it, else the value.
    fn clamp_min(&self, min: T) -> (r: T)
        ensures
            r.as_int() == if self.as_int() < min.as_int() {
                min.as_int()
            } else {
                self.as_int()
            },
    ;

    /// `max` where the value is above it, else the value.
    fn clamp_max(&self, max: T) -> (r: T)
        ensures
            r.as_int() == if self.as_int() > max.as_int() {
                max.as_int()
            } else {
                self.as_int()
            },
    ;
}

impl ClampNumType for usize {
    open spec fn as_int(self) -> int {
        self as int
    }
}

impl ClampNumExt<usize> for usize {
    fn clamp_min(&self, min: usize) -> (r: usize) {
        if *self < min {
            min
        } else {
            *self
        }
    }

    fn clamp_max(&self, max: usize) -> (r: usize) {
        if *self > max {
            max
        } else {
            *self
        }
    }
}

impl ClampNumType for u16 {
    open spec fn as_int(self) -> int {
        self as int
    }
}

impl ClampNumExt<u16> for u16 {
    fn clamp_min(&self, min: u16) -> (r: u16) {
        if *self < min {
            min
        } else {
            *self
        }
    }

    fn clamp_max(&self, max: u16) -> (r: u16) {
        if *self > max {
            max
        } else {
            *self
        }
    }
}

impl ClampNumType for u32 {
    open spec fn as_int(self) -> int {
        self as int
    }
}

impl ClampNumExt<u32> for u32 {
    fn clamp_min(&self, min: u32) -> (r: u32) {
        if *self < min {
            min
        } else {
            *self
        }
    }

    fn clamp_max(&self, max: u32) -> (r: u32) {
        if *self > max {
            max
        } else {
            *self
        }
    }
}

impl ClampNumType for u64 {
    open spec fn as_int(self) -> int {
        self as int
    }
}

impl ClampNumExt<u64> for u64 {
    fn clamp_min(&self, min: u64) -> (r: u64) {
        if *self < min {
            min
        } else {
            *self
        }
    }

    fn clamp_max(&self, max: u64) -> (r: u64) {
        if *self > max {
            max
        } else {
            *self
        }
    }
}

impl ClampNumType for i32 {
    open spec fn as_int(self) -> int {
        self as int
    }
}

impl ClampNumExt<i32> for i32 {
    fn clamp_min(&self, min: i32) -> (r: i32) {
        if *self < min {
            min
        } else {
            *self
        }
    }

    fn clamp_max(&self, max: i32) -> (r: i32) {
        if *self > max {
            max
        } else {
            *self
        }
    }
}

impl ClampNumType for i64 {
    open spec fn as_int(self) -> int {
        self as int
    }
}

impl ClampNumExt<i64> for i64 {
    fn clamp_min(&self, min: i64) -> (r: i64) {
        if *self < min {
            min
        } else {
            *self
        }
    }

    fn clamp_max(&self, max: i64) -> (r: i64) {
        if *self > max {
            max
        } else {
            *self
        }
    }
}

/// Conversion to and from the `i32` in which cursor arithmetic is done.
pub trait ConvertibleIntExt<T: ClampNumType>: ClampNumType {
    /// Whether `i` is a value of this type.
    spec fn holds_value(i: int) -> bool;

    fn into_intermediary(&self) -> (r: i32)
        requires
            self.as_int() <= i32::MAX,
        ensures
            r as int == self.as_int(),
    ;

    fn from_intermediary(intermediary: i32) -> (r: T)
        requires
            Self::holds_value(intermediary as int),
        ensures
            r.as_int() == intermediary as int,
    ;
}

impl ConvertibleIntExt<u16> for u16 {
    open spec fn holds_value(i: int) -> bool {
        0 <= i <= u16::MAX
    }

    fn into_intermediary(&self) -> (r: i32) {
        *self as i32
    }

    fn from_intermediary(intermediary: i32) -> (r: u16) {
        intermediary as u16
    }
}

impl ConvertibleIntExt<usize> for usize {
    open spec fn holds_value(i: int) -> bool {
        0 <= i <= usize::MAX
    }

    fn into_intermediary(&self) -> (r: i32) {
        *self as i32
    }

    fn from_intermediary(intermediary: i32) -> (r: usize) {
        intermediary as usize
    }
}

/// The value of a cursor after a move of `delta`: wrapping around within
/// `[0, max)`, or stopping at its ends.
pub open spec fn rotated(cursor: int, delta: int, max: int) -> int {
    if max == 0 {
        0
    } else {
        (cursor + delta) % max
    }
}

/// A cursor moved by `delta` and held within `[0, max - 1]`, or at `0`.
pub open spec fn bounded(cursor: int, delta: int, max: int) -> int {
    let c = if cursor + delta > max - 1 {
        max - 1
    } else {
        cursor + delta
    };
    if c < 0 {
        0
    } else {
        c
    }
}

/// Moves of a cursor over a list of `max` entries.
pub trait MyIntExt<T: ClampNumType>: ClampNumType {
    /// Moves by `delta`, wrapping around at both ends.
    fn move_rotating(&self, delta: i32, max: T) -> (r: T)
        requires
            self.as_int() <= i32::MAX,
            max.as_int() <= i32::MAX,
            i32::MIN <= self.as_int() + delta <= i32::MAX,
        ensures
            r.as_int() == rotated(self.as_int(), delta as int, max.as_int()),
    ;

    /// Moves by `delta`, stopping at the first and the last entry.
    fn move_bound(&self, delta: i32, max: T) -> (r: T)
        requires
            self.as_int() <= i32::MAX,
            max.as_int() <= i32::MAX,
            i32::MIN <= self.as_int() + delta <= i32::MAX,
        ensures
            r.as_int() == bounded(self.as_int(), delta as int, max.as_int()),
    ;

    /// The value plus `delta`, as an `i32`.
    fn add_casting(&self, delta: i32) -> (r: i32)
        requires
            self.as_int() <= i32::MAX,
            i32::MIN <= self.as_int() + delta <= i32::MAX,
        ensures
            r as int == self.as_int() + delta,
    ;
}

impl MyIntExt<u16> for u16 {
    fn move_rotating(&self, delta: i32, max: u16) -> (r: u16) {
        let max_i32: i32 = max.into_intermediary();
        if max_i32 == 0 {
            return u16::from_intermediary(0);
        }
        let self_i32: i32 = (*self).into_intermediary();
        let mut new_cursor: i32 = self_i32 + delta;
        while new_cursor < 0
            invariant
                0 < max_i32,
                max_i32 as int == max as int,
                (new_cursor as int) % (max_i32 as int) == (self_i32 + delta) % (max_i32 as int),
            decreases if new_cursor < 0 {
                0 - new_cursor
            } else {
                0
            },
        {
            proof {
                vstd::arithmetic::div_mod::lemma_mod_add_multiples_vanish(
                    new_cursor as int,
                    max_i32 as int,
                );
            }
            new_cursor += max_i32;
        }
        u16::from_intermediary(new_cursor % max_i32)
    }

    fn move_bound(&self, delta: i32, max: u16) -> (r: u16) {
        let max_i32: i32 = max.into_intermediary();
        let self_i32: i32 = (*self).into_intermediary();
        let moved: i32 = self_i32 + delta;
        u16::from_intermediary(moved.clamp_max(max_i32 - 1).clamp_min(0))
    }

    fn add_casting(&self, delta: i32) -> (r: i32) {
        let self_i32: i32 = (*self).into_intermediary();
        self_i32 + delta
    }
}

impl MyIntExt<usize> for usize {
    fn move_rotating(&self, delta: i32, max: usize) -> (r: usize) {
        let max_i32: i32 = max.into_intermediary();
        if max_i32 == 0 {
            return usize::from_intermediary(0);
        }
        let self_i32: i32 = (*self).into_intermediary();
        let mut new_cursor: i32 = self_i32 + delta;
        while new_cursor < 0
            invariant
                0 < max_i32,
                max_i32 as int == max as int,
                (new_cursor as int) % (max_i32 as int) == (self_i32 + delta) % (max_i32 as int),
            decreases if new_cursor < 0 {
                0 - new_cursor
            } else {
                0
            },
        {
            proof {
                vstd::arithmetic::div_mod::lemma_mod_add_multiples_vanish(
                    new_cursor as int,
                    max_i32 as int,
                );
            }
            new_cursor += max_i32;
        }
        usize::from_intermediary(new_cursor % max_i32)
    }

    fn move_bound(&self, delta: i32, max: usize) -> (r: usize) {
        let max_i32: i32 = max.into_intermediary();
        let self_i32: i32 = (*self).into_intermediary();
        let moved: i32 = self_i32 + delta;
        usize::from_intermediary(moved.clamp_max(max_i32 - 1).clamp_min(0))
    }

    fn add_casting(&self, delta: i32) -> (r: i32) {
        let self_i32: i32 = (*self).into_intermediary();
        self_i32 + delta
    }
}

} // verus!
