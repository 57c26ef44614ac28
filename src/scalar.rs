use vstd::prelude::*;

verus! {

/// A coordinate value of a rectangle.
///
/// Every scalar stands for a mathematical integer, `val`, inside the range that
/// its machine type can hold. Addition and subtraction are exact; a caller must
/// keep the result in range, as the type itself would otherwise overflow.
pub trait Scalar: Copy + Sized {
    /// The integer that this value stands for.
    spec fn val(self) -> int;

    /// Whether the machine type can hold the integer `v`.
    spec fn in_range(v: int) -> bool;

    /// Every value lies in range, the range has no holes, and a value is
    /// determined by the integer it stands for.
    proof fn lemma_scalar(a: Self, b: Self)
        ensures
            Self::in_range(a.val()),
            a.val() == b.val() ==> a == b,
            forall|v: int| a.val() <= v <= b.val() ==> #[trigger] Self::in_range(v),
    ;

    /// `self ≤ other`.
    fn at_most(&self, other: &Self) -> (r: bool)
        ensures
            r == (self.val() <= other.val()),
    ;

    /// `self + other`.
    fn plus(self, other: Self) -> (r: Self)
        requires
            Self::in_range(self.val() + other.val()),
        ensures
            r.val() == self.val() + other.val(),
    ;

    /// `self - other`.
    fn minus(self, other: Self) -> (r: Self)
        requires
            Self::in_range(self.val() - other.val()),
        ensures
            r.val() == self.val() - other.val(),
    ;
}

impl Scalar for i8 {
    open spec fn val(self) -> int {
        self as int
    }

    open spec fn in_range(v: int) -> bool {
        i8::MIN <= v <= i8::MAX
    }

    proof fn lemma_scalar(a: Self, b: Self) {
    }

    fn at_most(&self, other: &Self) -> (r: bool) {
        *self <= *other
    }

    fn plus(self, other: Self) -> (r: Self) {
        self + other
    }

    fn minus(self, other: Self) -> (r: Self) {
        self - other
    }
}

impl Scalar for i16 {
    open spec fn val(self) -> int {
        self as int
    }

    open spec fn in_range(v: int) -> bool {
        i16::MIN <= v <= i16::MAX
    }

    proof fn lemma_scalar(a: Self, b: Self) {
    }

    fn at_most(&self, other: &Self) -> (r: bool) {
        *self <= *other
    }

    fn plus(self, other: Self) -> (r: Self) {
        self + other
    }

    fn minus(self, other: Self) -> (r: Self) {
        self - other
    }
}

impl Scalar for i32 {
    open spec fn val(self) -> int {
        self as int
    }

    open spec fn in_range(v: int) -> bool {
        i32::MIN <= v <= i32::MAX
    }

    proof fn lemma_scalar(a: Self, b: Self) {
    }

    fn at_most(&self, other: &Self) -> (r: bool) {
        *self <= *other
    }

    fn plus(self, other: Self) -> (r: Self) {
        self + other
    }

    fn minus(self, other: Self) -> (r: Self) {
        self - other
    }
}

impl Scalar for i64 {
    open spec fn val(self) -> int {
        self as int
    }

    open spec fn in_range(v: int) -> bool {
        i64::MIN <= v <= i64::MAX
    }

    proof fn lemma_scalar(a: Self, b: Self) {
    }

    fn at_most(&self, other: &Self) -> (r: bool) {
        *self <= *other
    }

    fn plus(self, other: Self) -> (r: Self) {
        self + other
    }

    fn minus(self, other: Self) -> (r: Self) {
        self - other
    }
}

impl Scalar for i128 {
    open spec fn val(self) -> int {
        self as int
    }

    open spec fn in_range(v: int) -> bool {
        i128::MIN <= v <= i128::MAX
    }

    proof fn lemma_scalar(a: Self, b: Self) {
    }

    fn at_most(&self, other: &Self) -> (r: bool) {
        *self <= *other
    }

    fn plus(self, other: Self) -> (r: Self) {
        self + other
    }

    fn minus(self, other: Self) -> (r: Self) {
        self - other
    }
}

impl Scalar for isize {
    open spec fn val(self) -> int {
        self as int
    }

    open spec fn in_range(v: int) -> bool {
        isize::MIN <= v <= isize::MAX
    }

    proof fn lemma_scalar(a: Self, b: Self) {
    }

    fn at_most(&self, other: &Self) -> (r: bool) {
        *self <= *other
    }

    fn plus(self, other: Self) -> (r: Self) {
        self + other
    }

    fn minus(self, other: Self) -> (r: Self) {
        self - other
    }
}

} // verus!
