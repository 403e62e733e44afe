//! Primitive pixel values and value-preserving widening between them.
//!
//! A grid's sentinel survives a change of pixel type only when the
//! conversion is a widening: every widening here is proved to keep the
//! mathematical value of the pixel unchanged.

use vstd::prelude::*;

verus! {

/// An integer pixel value, seen as a mathematical integer.
pub trait IntPixel: Copy + Sized {
    spec fn as_int(self) -> int;
}

impl IntPixel for u8 {
    open spec fn as_int(self) -> int {
        self as int
    }
}

impl IntPixel for u16 {
    open spec fn as_int(self) -> int {
        self as int
    }
}

impl IntPixel for u32 {
    open spec fn as_int(self) -> int {
        self as int
    }
}

impl IntPixel for u64 {
    open spec fn as_int(self) -> int {
        self as int
    }
}

impl IntPixel for i8 {
    open spec fn as_int(self) -> int {
        self as int
    }
}

impl IntPixel for i16 {
    open spec fn as_int(self) -> int {
        self as int
    }
}

impl IntPixel for i32 {
    open spec fn as_int(self) -> int {
        self as int
    }
}

impl IntPixel for i64 {
    open spec fn as_int(self) -> int {
        self as int
    }
}

/// A numeric widening from pixel type `S` into `Self`: the value is
/// preserved exactly, never narrowed.
pub trait WidenFrom<S: IntPixel>: IntPixel {
    spec fn spec_widen(s: S) -> Self;

    /// Widening keeps the mathematical value of the pixel.
    proof fn lemma_widen_preserves(s: S)
        ensures
            Self::spec_widen(s).as_int() == s.as_int(),
    ;

    fn widen(s: S) -> (r: Self)
        ensures
            r == Self::spec_widen(s),
    ;
}

impl WidenFrom<u8> for u16 {
    open spec fn spec_widen(s: u8) -> u16 {
        s as u16
    }

    proof fn lemma_widen_preserves(s: u8) {
    }

    fn widen(s: u8) -> u16 {
        s as u16
    }
}

impl WidenFrom<u8> for u32 {
    open spec fn spec_widen(s: u8) -> u32 {
        s as u32
    }

    proof fn lemma_widen_preserves(s: u8) {
    }

    fn widen(s: u8) -> u32 {
        s as u32
    }
}

impl WidenFrom<u8> for u64 {
    open spec fn spec_widen(s: u8) -> u64 {
        s as u64
    }

    proof fn lemma_widen_preserves(s: u8) {
    }

    fn widen(s: u8) -> u64 {
        s as u64
    }
}

impl WidenFrom<u8> for i16 {
    open spec fn spec_widen(s: u8) -> i16 {
        s as i16
    }

    proof fn lemma_widen_preserves(s: u8) {
    }

    fn widen(s: u8) -> i16 {
        s as i16
    }
}

impl WidenFrom<u8> for i32 {
    open spec fn spec_widen(s: u8) -> i32 {
        s as i32
    }

    proof fn lemma_widen_preserves(s: u8) {
    }

    fn widen(s: u8) -> i32 {
        s as i32
    }
}

impl WidenFrom<u8> for i64 {
    open spec fn spec_widen(s: u8) -> i64 {
        s as i64
    }

    proof fn lemma_widen_preserves(s: u8) {
    }

    fn widen(s: u8) -> i64 {
        s as i64
    }
}

impl WidenFrom<u16> for u32 {
    open spec fn spec_widen(s: u16) -> u32 {
        s as u32
    }

    proof fn lemma_widen_preserves(s: u16) {
    }

    fn widen(s: u16) -> u32 {
        s as u32
    }
}

impl WidenFrom<u16> for u64 {
    open spec fn spec_widen(s: u16) -> u64 {
        s as u64
    }

    proof fn lemma_widen_preserves(s: u16) {
    }

    fn widen(s: u16) -> u64 {
        s as u64
    }
}

impl WidenFrom<u16> for i32 {
    open spec fn spec_widen(s: u16) -> i32 {
        s as i32
    }

    proof fn lemma_widen_preserves(s: u16) {
    }

    fn widen(s: u16) -> i32 {
        s as i32
    }
}

impl WidenFrom<u16> for i64 {
    open spec fn spec_widen(s: u16) -> i64 {
        s as i64
    }

    proof fn lemma_widen_preserves(s: u16) {
    }

    fn widen(s: u16) -> i64 {
        s as i64
    }
}

impl WidenFrom<u32> for u64 {
    open spec fn spec_widen(s: u32) -> u64 {
        s as u64
    }

    proof fn lemma_widen_preserves(s: u32) {
    }

    fn widen(s: u32) -> u64 {
        s as u64
    }
}

impl WidenFrom<u32> for i64 {
    open spec fn spec_widen(s: u32) -> i64 {
        s as i64
    }

    proof fn lemma_widen_preserves(s: u32) {
    }

    fn widen(s: u32) -> i64 {
        s as i64
    }
}

impl WidenFrom<i8> for i16 {
    open spec fn spec_widen(s: i8) -> i16 {
        s as i16
    }

    proof fn lemma_widen_preserves(s: i8) {
    }

    fn widen(s: i8) -> i16 {
        s as i16
    }
}

impl WidenFrom<i8> for i32 {
    open spec fn spec_widen(s: i8) -> i32 {
        s as i32
    }

    proof fn lemma_widen_preserves(s: i8) {
    }

    fn widen(s: i8) -> i32 {
        s as i32
    }
}

impl WidenFrom<i8> for i64 {
    open spec fn spec_widen(s: i8) -> i64 {
        s as i64
    }

    proof fn lemma_widen_preserves(s: i8) {
    }

    fn widen(s: i8) -> i64 {
        s as i64
    }
}

impl WidenFrom<i16> for i32 {
    open spec fn spec_widen(s: i16) -> i32 {
        s as i32
    }

    proof fn lemma_widen_preserves(s: i16) {
    }

    fn widen(s: i16) -> i32 {
        s as i32
    }
}

impl WidenFrom<i16> for i64 {
    open spec fn spec_widen(s: i16) -> i64 {
        s as i64
    }

    proof fn lemma_widen_preserves(s: i16) {
    }

    fn widen(s: i16) -> i64 {
        s as i64
    }
}

impl WidenFrom<i32> for i64 {
    open spec fn spec_widen(s: i32) -> i64 {
        s as i64
    }

    proof fn lemma_widen_preserves(s: i32) {
    }

    fn widen(s: i32) -> i64 {
        s as i64
    }
}

/// Widening a pixel never changes its value, whatever the pair of types.
pub proof fn lemma_widening_is_value_preserving<S: IntPixel, To: WidenFrom<S>>(v: S)
    ensures
        To::spec_widen(v).as_int() == v.as_int(),
{
    To::lemma_widen_preserves(v);
}

} // verus!
