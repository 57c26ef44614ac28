use vstd::prelude::*;
use crate::error::{err, Error};
use crate::rect::{lemma_rect_model_injective, Rect, ValidRect};
use crate::scalar::Scalar;

verus! {

/// An outer rectangle and an inner rectangle nested in it: the frame of a
/// nine-slice region. A raw value holds no invariant.
#[derive(Clone, Copy, Debug, Default, PartialEq, Eq, Hash)]
pub struct Dimensions<S> {
    pub outer: Rect<S>,
    pub inner: Rect<S>,
}

impl<S: Scalar> Dimensions<S> {
    /// The six nesting inequalities:
    /// `outer.left ≤ inner.left ≤ inner.right ≤ outer.right` and
    /// `outer.top ≤ inner.top ≤ inner.bottom ≤ outer.bottom`.
    pub open spec fn is_valid(self) -> bool {
        &&& self.outer.left.val() <= self.inner.left.val()
        &&& self.inner.left.val() <= self.inner.right.val()
        &&& self.inner.right.val() <= self.outer.right.val()
        &&& self.outer.top.val() <= self.inner.top.val()
        &&& self.inner.top.val() <= self.inner.bottom.val()
        &&& self.inner.bottom.val() <= self.outer.bottom.val()
    }

    /// The message of the first nesting inequality that is broken, if any.
    pub open spec fn violation(self) -> Option<&'static str> {
        if !(self.outer.left.val() <= self.inner.left.val()) {
            Some("Expected outer.left ≤ inner.left")
        } else if !(self.inner.left.val() <= self.inner.right.val()) {
            Some("Expected inner.left ≤ inner.right")
        } else if !(self.inner.right.val() <= self.outer.right.val()) {
            Some("Expected inner.right ≤ outer.right")
        } else if !(self.outer.top.val() <= self.inner.top.val()) {
            Some("Expected outer.top ≤ inner.top")
        } else if !(self.inner.top.val() <= self.inner.bottom.val()) {
            Some("Expected inner.top ≤ inner.bottom")
        } else if !(self.inner.bottom.val() <= self.outer.bottom.val()) {
            Some("Expected inner.bottom ≤ outer.bottom")
        } else {
            None
        }
    }

    /// What `validate` gives: the dimensions, or the message of the first
    /// broken inequality.
    pub open spec fn checked(self) -> Result<Dimensions<S>, &'static str> {
        match self.violation() {
            None => Ok(self),
            Some(m) => Err(m),
        }
    }

    /// The thickness of each border: the distance between the outer and the
    /// inner side.
    pub open spec fn borders_model(self) -> Rect<int> {
        Rect {
            left: self.inner.left.val() - self.outer.left.val(),
            right: self.outer.right.val() - self.inner.right.val(),
            top: self.inner.top.val() - self.outer.top.val(),
            bottom: self.outer.bottom.val() - self.inner.bottom.val(),
        }
    }

    /// Checks the six nesting inequalities, in order.
    pub fn validate(&self) -> (r: Result<ValidDimensions<S>, Error>)
        ensures
            r is Ok <==> self.is_valid(),
            r matches Ok(v) ==> self.checked() == Ok::<Dimensions<S>, &'static str>(v@),
            r matches Err(e) ==> self.checked() == Err::<Dimensions<S>, &'static str>(e.msg()),
    {
        if !self.outer.left.at_most(&self.inner.left) {
            return err("Expected outer.left ≤ inner.left");
        }
        if !self.inner.left.at_most(&self.inner.right) {
            return err("Expected inner.left ≤ inner.right");
        }
        if !self.inner.right.at_most(&self.outer.right) {
            return err("Expected inner.right ≤ outer.right");
        }
        if !self.outer.top.at_most(&self.inner.top) {
            return err("Expected outer.top ≤ inner.top");
        }
        if !self.inner.top.at_most(&self.inner.bottom) {
            return err("Expected inner.top ≤ inner.bottom");
        }
        if !self.inner.bottom.at_most(&self.outer.bottom) {
            return err("Expected inner.bottom ≤ outer.bottom");
        }
        Ok(ValidDimensions(*self))
    }

    /// Wraps dimensions whose nesting the caller has already shown.
    pub(crate) fn debug_assert_valid(&self) -> (r: ValidDimensions<S>)
        requires
            self.is_valid(),
        ensures
            r@ == *self,
    {
        ValidDimensions(*self)
    }
}

/// Dimensions whose inner rectangle is nested in the outer one, readable but
/// not writable.
#[derive(Copy, Debug, PartialEq, Eq, Hash)]
pub struct ValidDimensions<S: Scalar>(Dimensions<S>);

impl<S: Scalar> View for ValidDimensions<S> {
    type V = Dimensions<S>;

    closed spec fn view(&self) -> Dimensions<S> {
        self.0
    }
}

impl<S: Scalar> Clone for ValidDimensions<S> {
    fn clone(&self) -> (r: Self)
        ensures
            r == *self,
    {
        *self
    }
}

impl<S: Scalar> std::ops::Deref for ValidDimensions<S> {
    type Target = Dimensions<S>;

    fn deref(&self) -> (r: &Dimensions<S>)
        ensures
            *r == self@,
    {
        &self.0
    }
}

impl<S: Scalar> ValidDimensions<S> {
    #[verifier::type_invariant]
    spec fn inv(self) -> bool {
        self.0.is_valid()
    }

    /// The dimensions themselves.
    pub fn dimensions(&self) -> (r: Dimensions<S>)
        ensures
            r == self@,
            r.is_valid(),
    {
        proof { use_type_invariant(self); }
        self.0
    }

    /// The outer rectangle.
    pub fn outer(&self) -> (r: ValidRect<S>)
        ensures
            r@ == self@.outer,
    {
        proof { use_type_invariant(self); }
        self.0.outer.debug_assert_valid()
    }

    /// The inner rectangle.
    pub fn inner(&self) -> (r: ValidRect<S>)
        ensures
            r@ == self@.inner,
    {
        proof { use_type_invariant(self); }
        self.0.inner.debug_assert_valid()
    }

    /// The four border thicknesses, each non-negative.
    pub fn borders(&self) -> (r: Rect<S>)
        requires
            Rect::<S>::can_hold(self@.borders_model()),
        ensures
            r.model() == self@.borders_model(),
            r.left.val() >= 0,
            r.right.val() >= 0,
            r.top.val() >= 0,
            r.bottom.val() >= 0,
    {
        proof { use_type_invariant(self); }
        Rect {
            left: self.0.inner.left.minus(self.0.outer.left),
            right: self.0.outer.right.minus(self.0.inner.right),
            top: self.0.inner.top.minus(self.0.outer.top),
            bottom: self.0.outer.bottom.minus(self.0.inner.bottom),
        }
    }

    /// The dimensions with `outer` as the outer rectangle and the same border
    /// thicknesses; fails where the borders do not fit in `outer`.
    pub fn with_outer(&self, outer: ValidRect<S>) -> (r: Result<Self, Error>)
        requires
            Rect::<S>::can_hold(self@.borders_model()),
            S::in_range(self@.borders_model().left + self@.borders_model().right),
            S::in_range(self@.borders_model().top + self@.borders_model().bottom),
            S::in_range(outer@.right.val() - outer@.left.val()),
            S::in_range(outer@.bottom.val() - outer@.top.val()),
        ensures
            r is Ok <==> self@.fits_in(outer@),
            r matches Ok(v) ==> v@.outer == outer@ && v@.inner.model() == outer@.model().shrunk(
                self@.borders_model(),
            ),
            r matches Err(e) ==> e.msg() == (if self@.borders_model().left
                + self@.borders_model().right > outer@.right.val() - outer@.left.val() {
                "Resulting dimensions would have a negative center width"
            } else {
                "Resulting dimensions would have a negative center height"
            }),
    {
        proof { use_type_invariant(self); }
        let borders = self.borders();
        if !borders.left.plus(borders.right).at_most(&outer.width()) {
            return err("Resulting dimensions would have a negative center width");
        }
        if !borders.top.plus(borders.bottom).at_most(&outer.height()) {
            return err("Resulting dimensions would have a negative center height");
        }
        let outer = outer.rect();
        proof {
            let m = outer.model().shrunk(borders.model());
            S::lemma_scalar(outer.left, outer.right);
            S::lemma_scalar(outer.top, outer.bottom);
            assert(S::in_range(m.left));
            assert(S::in_range(m.right));
            assert(S::in_range(m.top));
            assert(S::in_range(m.bottom));
        }
        Ok(Dimensions { inner: outer.shrink(&borders), outer }.debug_assert_valid())
    }

    /// The dimensions with `inner` as the inner rectangle and the same border
    /// thicknesses. This never fails: the caller keeps the outer rectangle in
    /// the scalar's range.
    pub fn with_inner(&self, inner: ValidRect<S>) -> (r: Self)
        requires
            Rect::<S>::can_hold(self@.borders_model()),
            Rect::<S>::can_hold(inner@.model().grown(self@.borders_model())),
        ensures
            r@.inner == inner@,
            r@.outer.model() == inner@.model().grown(self@.borders_model()),
    {
        let inner = inner.rect();
        let borders = self.borders();
        Dimensions { inner, outer: inner.grow(&borders) }.debug_assert_valid()
    }
}

impl<S: Scalar> Dimensions<S> {
    /// Whether the border thicknesses of these dimensions leave a center of
    /// non-negative size inside `outer`.
    pub open spec fn fits_in(self, outer: Rect<S>) -> bool {
        &&& self.borders_model().left + self.borders_model().right <= outer.right.val()
            - outer.left.val()
        &&& self.borders_model().top + self.borders_model().bottom <= outer.bottom.val()
            - outer.top.val()
    }
}

impl<S: Scalar> From<ValidDimensions<S>> for Dimensions<S> {
    fn from(value: ValidDimensions<S>) -> (r: Dimensions<S>)
        ensures
            r == value@,
            r.is_valid(),
    {
        value.dimensions()
    }
}

impl<S: Scalar> vstd::std_specs::convert::FromSpecImpl<ValidDimensions<S>> for Dimensions<S> {
    open spec fn obeys_from_spec() -> bool {
        true
    }

    open spec fn from_spec(v: ValidDimensions<S>) -> Dimensions<S> {
        v@
    }
}

/// Dimensions taken out of a `ValidDimensions` (which `From` shows to be
/// nested) pass `validate` again, which wraps them unchanged.
pub proof fn lemma_dimensions_round_trip<S: Scalar>(d: Dimensions<S>)
    requires
        d.is_valid(),
    ensures
        d.checked() == Ok::<Dimensions<S>, &'static str>(d),
{
}

/// The border thicknesses of nested dimensions are never negative.
pub proof fn lemma_borders_non_negative<S: Scalar>(d: Dimensions<S>)
    requires
        d.is_valid(),
    ensures
        d.borders_model().left >= 0,
        d.borders_model().right >= 0,
        d.borders_model().top >= 0,
        d.borders_model().bottom >= 0,
{
}

/// Moving to a new outer rectangle, as `with_outer` does, and then back to
/// the original inner rectangle, as `with_inner` does, gives back the
/// original dimensions exactly.
pub proof fn lemma_with_outer_then_with_inner<S: Scalar>(
    d: Dimensions<S>,
    outer: Rect<S>,
    moved: Dimensions<S>,
    back: Dimensions<S>,
)
    requires
        d.is_valid(),
        outer.is_valid(),
        d.fits_in(outer),
        moved.outer == outer,
        moved.inner.model() == outer.model().shrunk(d.borders_model()),
        back.inner == d.inner,
        back.outer.model() == d.inner.model().grown(moved.borders_model()),
    ensures
        back == d,
{
    assert(moved.borders_model() == d.borders_model());
    lemma_rect_model_injective(back.outer, d.outer);
}

/// Swapping the outer and the inner rectangle of nested dimensions whose two
/// rectangles differ breaks the nesting.
pub proof fn lemma_swap_breaks_nesting<S: Scalar>(d: Dimensions<S>)
    requires
        d.is_valid(),
        d.outer != d.inner,
    ensures
        !(Dimensions { outer: d.inner, inner: d.outer }).is_valid(),
{
    if (Dimensions { outer: d.inner, inner: d.outer }).is_valid() {
        lemma_rect_model_injective(d.outer, d.inner);
    }
}

} // verus!
