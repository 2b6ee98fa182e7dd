//! The element types the matrix and vector types work over.

use vstd::prelude::*;

verus! {

/// A numeric element type for matrices and vectors. Every executable
/// operation has a specification-level twin that pins down exactly what
/// it returns. The integer implementations use wrapping arithmetic, so
/// each operation is total; identity exhaustion aside, small values
/// behave as ordinary arithmetic.
pub trait Scalar: Sized + Copy {
    /// The additive identity.
    spec fn zero_spec() -> Self;

    /// What `add` returns.
    spec fn add_spec(self, rhs: Self) -> Self;

    /// What `sub` returns.
    spec fn sub_spec(self, rhs: Self) -> Self;

    /// What `mul` returns.
    spec fn mul_spec(self, rhs: Self) -> Self;

    /// The additive identity, used to fill fresh matrices.
    fn zero() -> (r: Self)
        ensures
            r == Self::zero_spec(),
    ;

    /// Addition.
    fn add(self, rhs: Self) -> (r: Self)
        ensures
            r == self.add_spec(rhs),
    ;

    /// Subtraction.
    fn sub(self, rhs: Self) -> (r: Self)
        ensures
            r == self.sub_spec(rhs),
    ;

    /// Multiplication.
    fn mul(self, rhs: Self) -> (r: Self)
        ensures
            r == self.mul_spec(rhs),
    ;
}

impl Scalar for i8 {
    open spec fn zero_spec() -> Self {
        0i8
    }

    open spec fn add_spec(self, rhs: Self) -> Self {
        vstd::wrapping::i8_specs::wrapping_add(self, rhs)
    }

    open spec fn sub_spec(self, rhs: Self) -> Self {
        vstd::wrapping::i8_specs::wrapping_sub(self, rhs)
    }

    open spec fn mul_spec(self, rhs: Self) -> Self {
        vstd::wrapping::i8_specs::wrapping_mul(self, rhs)
    }

    fn zero() -> (r: Self) {
        0
    }

    fn add(self, rhs: Self) -> (r: Self) {
        self.wrapping_add(rhs)
    }

    fn sub(self, rhs: Self) -> (r: Self) {
        self.wrapping_sub(rhs)
    }

    fn mul(self, rhs: Self) -> (r: Self) {
        self.wrapping_mul(rhs)
    }
}

impl Scalar for i16 {
    open spec fn zero_spec() -> Self {
        0i16
    }

    open spec fn add_spec(self, rhs: Self) -> Self {
        vstd::wrapping::i16_specs::wrapping_add(self, rhs)
    }

    open spec fn sub_spec(self, rhs: Self) -> Self {
        vstd::wrapping::i16_specs::wrapping_sub(self, rhs)
    }

    open spec fn mul_spec(self, rhs: Self) -> Self {
        vstd::wrapping::i16_specs::wrapping_mul(self, rhs)
    }

    fn zero() -> (r: Self) {
        0
    }

    fn add(self, rhs: Self) -> (r: Self) {
        self.wrapping_add(rhs)
    }

    fn sub(self, rhs: Self) -> (r: Self) {
        self.wrapping_sub(rhs)
    }

    fn mul(self, rhs: Self) -> (r: Self) {
        self.wrapping_mul(rhs)
    }
}

impl Scalar for i32 {
    open spec fn zero_spec() -> Self {
        0i32
    }

    open spec fn add_spec(self, rhs: Self) -> Self {
        vstd::wrapping::i32_specs::wrapping_add(self, rhs)
    }

    open spec fn sub_spec(self, rhs: Self) -> Self {
        vstd::wrapping::i32_specs::wrapping_sub(self, rhs)
    }

    open spec fn mul_spec(self, rhs: Self) -> Self {
        vstd::wrapping::i32_specs::wrapping_mul(self, rhs)
    }

    fn zero() -> (r: Self) {
        0
    }

    fn add(self, rhs: Self) -> (r: Self) {
        self.wrapping_add(rhs)
    }

    fn sub(self, rhs: Self) -> (r: Self) {
        self.wrapping_sub(rhs)
    }

    fn mul(self, rhs: Self) -> (r: Self) {
        self.wrapping_mul(rhs)
    }
}

impl Scalar for i64 {
    open spec fn zero_spec() -> Self {
        0i64
    }

    open spec fn add_spec(self, rhs: Self) -> Self {
        vstd::wrapping::i64_specs::wrapping_add(self, rhs)
    }

    open spec fn sub_spec(self, rhs: Self) -> Self {
        vstd::wrapping::i64_specs::wrapping_sub(self, rhs)
    }

    open spec fn mul_spec(self, rhs: Self) -> Self {
        vstd::wrapping::i64_specs::wrapping_mul(self, rhs)
    }

    fn zero() -> (r: Self) {
        0
    }

    fn add(self, rhs: Self) -> (r: Self) {
        self.wrapping_add(rhs)
    }

    fn sub(self, rhs: Self) -> (r: Self) {
        self.wrapping_sub(rhs)
    }

    fn mul(self, rhs: Self) -> (r: Self) {
        self.wrapping_mul(rhs)
    }
}

impl Scalar for u8 {
    open spec fn zero_spec() -> Self {
        0u8
    }

    open spec fn add_spec(self, rhs: Self) -> Self {
        vstd::wrapping::u8_specs::wrapping_add(self, rhs)
    }

    open spec fn sub_spec(self, rhs: Self) -> Self {
        vstd::wrapping::u8_specs::wrapping_sub(self, rhs)
    }

    open spec fn mul_spec(self, rhs: Self) -> Self {
        vstd::wrapping::u8_specs::wrapping_mul(self, rhs)
    }

    fn zero() -> (r: Self) {
        0
    }

    fn add(self, rhs: Self) -> (r: Self) {
        self.wrapping_add(rhs)
    }

    fn sub(self, rhs: Self) -> (r: Self) {
        self.wrapping_sub(rhs)
    }

    fn mul(self, rhs: Self) -> (r: Self) {
        self.wrapping_mul(rhs)
    }
}

impl Scalar for u16 {
    open spec fn zero_spec() -> Self {
        0u16
    }

    open spec fn add_spec(self, rhs: Self) -> Self {
        vstd::wrapping::u16_specs::wrapping_add(self, rhs)
    }

    open spec fn sub_spec(self, rhs: Self) -> Self {
        vstd::wrapping::u16_specs::wrapping_sub(self, rhs)
    }

    open spec fn mul_spec(self, rhs: Self) -> Self {
        vstd::wrapping::u16_specs::wrapping_mul(self, rhs)
    }

    fn zero() -> (r: Self) {
        0
    }

    fn add(self, rhs: Self) -> (r: Self) {
        self.wrapping_add(rhs)
    }

    fn sub(self, rhs: Self) -> (r: Self) {
        self.wrapping_sub(rhs)
    }

    fn mul(self, rhs: Self) -> (r: Self) {
        self.wrapping_mul(rhs)
    }
}

impl Scalar for u32 {
    open spec fn zero_spec() -> Self {
        0u32
    }

    open spec fn add_spec(self, rhs: Self) -> Self {
        vstd::wrapping::u32_specs::wrapping_add(self, rhs)
    }

    open spec fn sub_spec(self, rhs: Self) -> Self {
        vstd::wrapping::u32_specs::wrapping_sub(self, rhs)
    }

    open spec fn mul_spec(self, rhs: Self) -> Self {
        vstd::wrapping::u32_specs::wrapping_mul(self, rhs)
    }

    fn zero() -> (r: Self) {
        0
    }

    fn add(self, rhs: Self) -> (r: Self) {
        self.wrapping_add(rhs)
    }

    fn sub(self, rhs: Self) -> (r: Self) {
        self.wrapping_sub(rhs)
    }

    fn mul(self, rhs: Self) -> (r: Self) {
        self.wrapping_mul(rhs)
    }
}

impl Scalar for u64 {
    open spec fn zero_spec() -> Self {
        0u64
    }

    open spec fn add_spec(self, rhs: Self) -> Self {
        vstd::wrapping::u64_specs::wrapping_add(self, rhs)
    }

    open spec fn sub_spec(self, rhs: Self) -> Self {
        vstd::wrapping::u64_specs::wrapping_sub(self, rhs)
    }

    open spec fn mul_spec(self, rhs: Self) -> Self {
        vstd::wrapping::u64_specs::wrapping_mul(self, rhs)
    }

    fn zero() -> (r: Self) {
        0
    }

    fn add(self, rhs: Self) -> (r: Self) {
        self.wrapping_add(rhs)
    }

    fn sub(self, rhs: Self) -> (r: Self) {
        self.wrapping_sub(rhs)
    }

    fn mul(self, rhs: Self) -> (r: Self) {
        self.wrapping_mul(rhs)
    }
}

impl Scalar for i128 {
    open spec fn zero_spec() -> Self {
        0i128
    }

    open spec fn add_spec(self, rhs: Self) -> Self {
        vstd::wrapping::i128_specs::wrapping_add(self, rhs)
    }

    open spec fn sub_spec(self, rhs: Self) -> Self {
        vstd::wrapping::i128_specs::wrapping_sub(self, rhs)
    }

    open spec fn mul_spec(self, rhs: Self) -> Self {
        vstd::wrapping::i128_specs::wrapping_mul(self, rhs)
    }

    fn zero() -> (r: Self) {
        0
    }

    fn add(self, rhs: Self) -> (r: Self) {
        self.wrapping_add(rhs)
    }

    fn sub(self, rhs: Self) -> (r: Self) {
        self.wrapping_sub(rhs)
    }

    fn mul(self, rhs: Self) -> (r: Self) {
        self.wrapping_mul(rhs)
    }
}

impl Scalar for isize {
    open spec fn zero_spec() -> Self {
        0isize
    }

    open spec fn add_spec(self, rhs: Self) -> Self {
        vstd::wrapping::isize_specs::wrapping_add(self, rhs)
    }

    open spec fn sub_spec(self, rhs: Self) -> Self {
        vstd::wrapping::isize_specs::wrapping_sub(self, rhs)
    }

    open spec fn mul_spec(self, rhs: Self) -> Self {
        vstd::wrapping::isize_specs::wrapping_mul(self, rhs)
    }

    fn zero() -> (r: Self) {
        0
    }

    fn add(self, rhs: Self) -> (r: Self) {
        self.wrapping_add(rhs)
    }

    fn sub(self, rhs: Self) -> (r: Self) {
        self.wrapping_sub(rhs)
    }

    fn mul(self, rhs: Self) -> (r: Self) {
        self.wrapping_mul(rhs)
    }
}

impl Scalar for u128 {
    open spec fn zero_spec() -> Self {
        0u128
    }

    open spec fn add_spec(self, rhs: Self) -> Self {
        vstd::wrapping::u128_specs::wrapping_add(self, rhs)
    }

    open spec fn sub_spec(self, rhs: Self) -> Self {
        vstd::wrapping::u128_specs::wrapping_sub(self, rhs)
    }

    open spec fn mul_spec(self, rhs: Self) -> Self {
        vstd::wrapping::u128_specs::wrapping_mul(self, rhs)
    }

    fn zero() -> (r: Self) {
        0
    }

    fn add(self, rhs: Self) -> (r: Self) {
        self.wrapping_add(rhs)
    }

    fn sub(self, rhs: Self) -> (r: Self) {
        self.wrapping_sub(rhs)
    }

    fn mul(self, rhs: Self) -> (r: Self) {
        self.wrapping_mul(rhs)
    }
}

impl Scalar for usize {
    open spec fn zero_spec() -> Self {
        0usize
    }

    open spec fn add_spec(self, rhs: Self) -> Self {
        vstd::wrapping::usize_specs::wrapping_add(self, rhs)
    }

    open spec fn sub_spec(self, rhs: Self) -> Self {
        vstd::wrapping::usize_specs::wrapping_sub(self, rhs)
    }

    open spec fn mul_spec(self, rhs: Self) -> Self {
        vstd::wrapping::usize_specs::wrapping_mul(self, rhs)
    }

    fn zero() -> (r: Self) {
        0
    }

    fn add(self, rhs: Self) -> (r: Self) {
        self.wrapping_add(rhs)
    }

    fn sub(self, rhs: Self) -> (r: Self) {
        self.wrapping_sub(rhs)
    }

    fn mul(self, rhs: Self) -> (r: Self) {
        self.wrapping_mul(rhs)
    }
}

} // verus!
