//! Flag sets packed into unsigned integers.
//!
//! Gameplay code keeps small sets of boolean switches in one machine word;
//! this trait gives every unsigned integer type the same four verified
//! operations over them.  Each implementation names what its bitwise
//! operators mean through the trait's spec functions, and the contracts of
//! the executable operations are stated over those.

use vstd::prelude::*;

verus! {

/// A word of flags: raise, clear, and test bits by mask.
pub trait BitFlags: Sized + Copy {
    /// What bitwise or means on this type.
    spec fn sp_or(self, o: Self) -> Self;

    /// What bitwise and means on this type.
    spec fn sp_and(self, o: Self) -> Self;

    /// What bitwise complement means on this type.
    spec fn sp_not(self) -> Self;

    /// The word with every flag low.
    spec fn sp_zero() -> Self;

    /// Raise every bit of `flag`.
    fn set_high(&mut self, flag: Self)
        ensures
            *final(self) == old(self).sp_or(flag),
    ;

    /// Clear every bit of `flag`.
    fn set_low(&mut self, flag: Self)
        ensures
            *final(self) == old(self).sp_and(flag.sp_not()),
    ;

    /// Whether any bit of `flag` is raised.
    fn is_high(&self, flag: Self) -> (r: bool)
        ensures
            r == (self.sp_and(flag) != Self::sp_zero()),
    ;

    /// Whether every bit of `flag` is low.
    fn is_low(&self, flag: Self) -> (r: bool)
        ensures
            r == (self.sp_and(flag) == Self::sp_zero()),
    ;
}

impl BitFlags for u8 {
    open spec fn sp_or(self, o: u8) -> u8 {
        self | o
    }

    open spec fn sp_and(self, o: u8) -> u8 {
        self & o
    }

    open spec fn sp_not(self) -> u8 {
        !self
    }

    open spec fn sp_zero() -> u8 {
        0
    }

    fn set_high(&mut self, flag: u8) {
        *self = *self | flag;
    }

    fn set_low(&mut self, flag: u8) {
        *self = *self & !flag;
    }

    fn is_high(&self, flag: u8) -> (r: bool) {
        !((*self & flag) == 0)
    }

    fn is_low(&self, flag: u8) -> (r: bool) {
        (*self & flag) == 0
    }
}

impl BitFlags for u16 {
    open spec fn sp_or(self, o: u16) -> u16 {
        self | o
    }

    open spec fn sp_and(self, o: u16) -> u16 {
        self & o
    }

    open spec fn sp_not(self) -> u16 {
        !self
    }

    open spec fn sp_zero() -> u16 {
        0
    }

    fn set_high(&mut self, flag: u16) {
        *self = *self | flag;
    }

    fn set_low(&mut self, flag: u16) {
        *self = *self & !flag;
    }

    fn is_high(&self, flag: u16) -> (r: bool) {
        !((*self & flag) == 0)
    }

    fn is_low(&self, flag: u16) -> (r: bool) {
        (*self & flag) == 0
    }
}

impl BitFlags for u32 {
    open spec fn sp_or(self, o: u32) -> u32 {
        self | o
    }

    open spec fn sp_and(self, o: u32) -> u32 {
        self & o
    }

    open spec fn sp_not(self) -> u32 {
        !self
    }

    open spec fn sp_zero() -> u32 {
        0
    }

    fn set_high(&mut self, flag: u32) {
        *self = *self | flag;
    }

    fn set_low(&mut self, flag: u32) {
        *self = *self & !flag;
    }

    fn is_high(&self, flag: u32) -> (r: bool) {
        !((*self & flag) == 0)
    }

    fn is_low(&self, flag: u32) -> (r: bool) {
        (*self & flag) == 0
    }
}

impl BitFlags for u64 {
    open spec fn sp_or(self, o: u64) -> u64 {
        self | o
    }

    open spec fn sp_and(self, o: u64) -> u64 {
        self & o
    }

    open spec fn sp_not(self) -> u64 {
        !self
    }

    open spec fn sp_zero() -> u64 {
        0
    }

    fn set_high(&mut self, flag: u64) {
        *self = *self | flag;
    }

    fn set_low(&mut self, flag: u64) {
        *self = *self & !flag;
    }

    fn is_high(&self, flag: u64) -> (r: bool) {
        !((*self & flag) == 0)
    }

    fn is_low(&self, flag: u64) -> (r: bool) {
        (*self & flag) == 0
    }
}

impl BitFlags for u128 {
    open spec fn sp_or(self, o: u128) -> u128 {
        self | o
    }

    open spec fn sp_and(self, o: u128) -> u128 {
        self & o
    }

    open spec fn sp_not(self) -> u128 {
        !self
    }

    open spec fn sp_zero() -> u128 {
        0
    }

    fn set_high(&mut self, flag: u128) {
        *self = *self | flag;
    }

    fn set_low(&mut self, flag: u128) {
        *self = *self & !flag;
    }

    fn is_high(&self, flag: u128) -> (r: bool) {
        !((*self & flag) == 0)
    }

    fn is_low(&self, flag: u128) -> (r: bool) {
        (*self & flag) == 0
    }
}

impl BitFlags for usize {
    open spec fn sp_or(self, o: usize) -> usize {
        self | o
    }

    open spec fn sp_and(self, o: usize) -> usize {
        self & o
    }

    open spec fn sp_not(self) -> usize {
        !self
    }

    open spec fn sp_zero() -> usize {
        0
    }

    fn set_high(&mut self, flag: usize) {
        *self = *self | flag;
    }

    fn set_low(&mut self, flag: usize) {
        *self = *self & !flag;
    }

    fn is_high(&self, flag: usize) -> (r: bool) {
        !((*self & flag) == 0)
    }

    fn is_low(&self, flag: usize) -> (r: bool) {
        (*self & flag) == 0
    }
}

} // verus!
