use vstd::prelude::*;
use crate::error::{err, Error};
use crate::scalar::Scalar;

verus! {

/// An axis-aligned rectangle, or four values indexed by its sides.
///
/// A raw rectangle holds no invariant: `right` may lie left of `left`.
#[derive(Clone, Copy, Debug, Default, PartialEq, Eq, Hash)]
pub struct Rect<V> {
    pub left: V,
    pub right: V,
    pub top: V,
    pub bottom: V,
}

impl Rect<int> {
    /// The rectangle moved outward by the four amounts of `b`.
    pub open spec fn grown(self, b: Rect<int>) -> Rect<int> {
        Rect {
            left: self.left - b.left,
            right: self.right + b.right,
            top: self.top - b.top,
            bottom: self.bottom + b.bottom,
        }
    }

    /// The rectangle moved inward by the four amounts of `b`.
    pub open spec fn shrunk(self, b: Rect<int>) -> Rect<int> {
        Rect {
            left: self.left + b.left,
            right: self.right - b.right,
            top: self.top + b.top,
            bottom: self.bottom - b.bottom,
        }
    }
}

impl<S: Scalar> Rect<S> {
    /// The rectangle over the integers that its values stand for.
    pub open spec fn model(self) -> Rect<int> {
        Rect {
            left: self.left.val(),
            right: self.right.val(),
            top: self.top.val(),
            bottom: self.bottom.val(),
        }
    }

    /// Whether the scalar type can hold each side of `m`.
    pub open spec fn can_hold(m: Rect<int>) -> bool {
        &&& S::in_range(m.left)
        &&& S::in_range(m.right)
        &&& S::in_range(m.top)
        &&& S::in_range(m.bottom)
    }

    /// `left ≤ right` and `top ≤ bottom`.
    pub open spec fn is_valid(self) -> bool {
        self.left.val() <= self.right.val() && self.top.val() <= self.bottom.val()
    }

    /// The message of the first inequality that the rectangle breaks, if any.
    pub open spec fn violation(self) -> Option<&'static str> {
        if !(self.left.val() <= self.right.val()) {
            Some("Expected left ≤ right")
        } else if !(self.top.val() <= self.bottom.val()) {
            Some("Expected top ≤ bottom")
        } else {
            None
        }
    }

    /// What `validate` gives: the rectangle, or the message of the first
    /// broken inequality.
    pub open spec fn checked(self) -> Result<Rect<S>, &'static str> {
        match self.violation() {
            None => Ok(self),
            Some(m) => Err(m),
        }
    }

    /// The rectangle at `(x, y)` with width `w` and height `h`.
    pub fn xywh(x: S, y: S, w: S, h: S) -> (r: Self)
        requires
            S::in_range(x.val() + w.val()),
            S::in_range(y.val() + h.val()),
        ensures
            r.left == x,
            r.top == y,
            r.right.val() == x.val() + w.val(),
            r.bottom.val() == y.val() + h.val(),
    {
        Rect { left: x, top: y, right: x.plus(w), bottom: y.plus(h) }
    }

    /// The rectangle moved outward by the four amounts of `borders`; not validated.
    pub fn grow(&self, borders: &Self) -> (r: Self)
        requires
            Self::can_hold(self.model().grown(borders.model())),
        ensures
            r.model() == self.model().grown(borders.model()),
    {
        Rect {
            left: self.left.minus(borders.left),
            right: self.right.plus(borders.right),
            top: self.top.minus(borders.top),
            bottom: self.bottom.plus(borders.bottom),
        }
    }

    /// The rectangle moved inward by the four amounts of `borders`; not validated.
    pub fn shrink(&self, borders: &Self) -> (r: Self)
        requires
            Self::can_hold(self.model().shrunk(borders.model())),
        ensures
            r.model() == self.model().shrunk(borders.model()),
    {
        Rect {
            left: self.left.plus(borders.left),
            right: self.right.minus(borders.right),
            top: self.top.plus(borders.top),
            bottom: self.bottom.minus(borders.bottom),
        }
    }

    /// Checks `left ≤ right` and `top ≤ bottom`.
    pub fn validate(&self) -> (r: Result<ValidRect<S>, Error>)
        ensures
            r is Ok <==> self.is_valid(),
            r matches Ok(v) ==> self.checked() == Ok::<Rect<S>, &'static str>(v@),
            r matches Err(e) ==> self.checked() == Err::<Rect<S>, &'static str>(e.msg()),
    {
        if !self.left.at_most(&self.right) {
            return err("Expected left ≤ right");
        }
        if !self.top.at_most(&self.bottom) {
            return err("Expected top ≤ bottom");
        }
        Ok(ValidRect(*self))
    }

    /// Wraps a rectangle whose validity the caller has already shown.
    pub(crate) fn debug_assert_valid(&self) -> (r: ValidRect<S>)
        requires
            self.is_valid(),
        ensures
            r@ == *self,
    {
        ValidRect(*self)
    }
}

/// A rectangle with `left ≤ right` and `top ≤ bottom`, readable but not
/// writable.
#[derive(Copy, Debug, PartialEq, Eq, Hash)]
pub struct ValidRect<S: Scalar>(Rect<S>);

impl<S: Scalar> View for ValidRect<S> {
    type V = Rect<S>;

    closed spec fn view(&self) -> Rect<S> {
        self.0
    }
}

impl<S: Scalar> ValidRect<S> {
    #[verifier::type_invariant]
    spec fn inv(self) -> bool {
        self.0.is_valid()
    }

    /// The rectangle itself.
    pub fn rect(&self) -> (r: Rect<S>)
        ensures
            r == self@,
            r.is_valid(),
    {
        proof { use_type_invariant(self); }
        self.0
    }

    /// `right - left`.
    pub fn width(&self) -> (r: S)
        requires
            S::in_range(self@.right.val() - self@.left.val()),
        ensures
            r.val() == self@.right.val() - self@.left.val(),
            r.val() >= 0,
    {
        proof { use_type_invariant(self); }
        self.0.right.minus(self.0.left)
    }

    /// `bottom - top`.
    pub fn height(&self) -> (r: S)
        requires
            S::in_range(self@.bottom.val() - self@.top.val()),
        ensures
            r.val() == self@.bottom.val() - self@.top.val(),
            r.val() >= 0,
    {
        proof { use_type_invariant(self); }
        self.0.bottom.minus(self.0.top)
    }

    /// `[width, height]`.
    pub fn size(&self) -> (r: [S; 2])
        requires
            S::in_range(self@.right.val() - self@.left.val()),
            S::in_range(self@.bottom.val() - self@.top.val()),
        ensures
            r[0].val() == self@.right.val() - self@.left.val(),
            r[1].val() == self@.bottom.val() - self@.top.val(),
    {
        [self.width(), self.height()]
    }
}

impl<S: Scalar> Clone for ValidRect<S> {
    fn clone(&self) -> (r: Self)
        ensures
            r == *self,
    {
        *self
    }
}

impl<S: Scalar> std::ops::Deref for ValidRect<S> {
    type Target = Rect<S>;

    fn deref(&self) -> (r: &Rect<S>)
        ensures
            *r == self@,
    {
        &self.0
    }
}

impl<S: Scalar> From<ValidRect<S>> for Rect<S> {
    fn from(value: ValidRect<S>) -> (r: Rect<S>)
        ensures
            r == value@,
            r.is_valid(),
    {
        value.rect()
    }
}

impl<S: Scalar> vstd::std_specs::convert::FromSpecImpl<ValidRect<S>> for Rect<S> {
    open spec fn obeys_from_spec() -> bool {
        true
    }

    open spec fn from_spec(v: ValidRect<S>) -> Rect<S> {
        v@
    }
}

/// Two rectangles over the same integers are the same rectangle.
pub proof fn lemma_rect_model_injective<S: Scalar>(a: Rect<S>, b: Rect<S>)
    requires
        a.model() == b.model(),
    ensures
        a == b,
{
    S::lemma_scalar(a.left, b.left);
    S::lemma_scalar(a.right, b.right);
    S::lemma_scalar(a.top, b.top);
    S::lemma_scalar(a.bottom, b.bottom);
}

/// A rectangle taken out of a `ValidRect` (which `From` shows to be valid)
/// passes `validate` again, which wraps it unchanged.
pub proof fn lemma_rect_round_trip<S: Scalar>(r: Rect<S>)
    requires
        r.is_valid(),
    ensures
        r.checked() == Ok::<Rect<S>, &'static str>(r),
{
}

impl<S: Scalar> From<[std::ops::Range<S>; 2]> for Rect<S> {
    /// `[left..right, top..bottom]`.
    fn from(value: [std::ops::Range<S>; 2]) -> (r: Rect<S>)
        ensures
            r == (Rect { left: value[0].start, right: value[0].end, top: value[1].start, bottom: value[1].end }),
    {
        Rect { left: value[0].start, right: value[0].end, top: value[1].start, bottom: value[1].end }
    }
}

impl<S: Scalar> vstd::std_specs::convert::FromSpecImpl<[std::ops::Range<S>; 2]> for Rect<S> {
    open spec fn obeys_from_spec() -> bool {
        true
    }

    open spec fn from_spec(v: [std::ops::Range<S>; 2]) -> Rect<S> {
        Rect { left: v[0].start, right: v[0].end, top: v[1].start, bottom: v[1].end }
    }
}

impl<S: Scalar> From<std::ops::Range<[S; 2]>> for Rect<S> {
    /// `[left, top]..[right, bottom]`.
    fn from(value: std::ops::Range<[S; 2]>) -> (r: Rect<S>)
        ensures
            r == (Rect { left: value.start[0], right: value.end[0], top: value.start[1], bottom: value.end[1] }),
    {
        Rect { left: value.start[0], right: value.end[0], top: value.start[1], bottom: value.end[1] }
    }
}

impl<S: Scalar> vstd::std_specs::convert::FromSpecImpl<std::ops::Range<[S; 2]>> for Rect<S> {
    open spec fn obeys_from_spec() -> bool {
        true
    }

    open spec fn from_spec(v: std::ops::Range<[S; 2]>) -> Rect<S> {
        Rect { left: v.start[0], right: v.end[0], top: v.start[1], bottom: v.end[1] }
    }
}

impl<S: Scalar> From<std::ops::Range<(S, S)>> for Rect<S> {
    /// `(left, top)..(right, bottom)`.
    fn from(value: std::ops::Range<(S, S)>) -> (r: Rect<S>)
        ensures
            r == (Rect { left: value.start.0, right: value.end.0, top: value.start.1, bottom: value.end.1 }),
    {
        Rect { left: value.start.0, right: value.end.0, top: value.start.1, bottom: value.end.1 }
    }
}

impl<S: Scalar> vstd::std_specs::convert::FromSpecImpl<std::ops::Range<(S, S)>> for Rect<S> {
    open spec fn obeys_from_spec() -> bool {
        true
    }

    open spec fn from_spec(v: std::ops::Range<(S, S)>) -> Rect<S> {
        Rect { left: v.start.0, right: v.end.0, top: v.start.1, bottom: v.end.1 }
    }
}

impl<S: Scalar> From<(std::ops::Range<S>, std::ops::Range<S>)> for Rect<S> {
    /// `(left..right, top..bottom)`.
    fn from(value: (std::ops::Range<S>, std::ops::Range<S>)) -> (r: Rect<S>)
        ensures
            r == (Rect { left: value.0.start, right: value.0.end, top: value.1.start, bottom: value.1.end }),
    {
        Rect { left: value.0.start, right: value.0.end, top: value.1.start, bottom: value.1.end }
    }
}

impl<S: Scalar> vstd::std_specs::convert::FromSpecImpl<(std::ops::Range<S>, std::ops::Range<S>)> for Rect<S> {
    open spec fn obeys_from_spec() -> bool {
        true
    }

    open spec fn from_spec(v: (std::ops::Range<S>, std::ops::Range<S>)) -> Rect<S> {
        Rect { left: v.0.start, right: v.0.end, top: v.1.start, bottom: v.1.end }
    }
}

} // verus!
