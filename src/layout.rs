use vstd::prelude::*;
use crate::dimensions::{Dimensions, ValidDimensions};
use crate::error::{err, Error};
use crate::rect::{Rect, ValidRect};
use crate::scalar::Scalar;
use crate::scale::Scale;
use crate::style::Style;

verus! {

/// A destination and a source region, raw or validated, and the style that
/// maps one onto the other.
pub struct Layout<Dst, Src> {
    pub dst: Dst,
    pub src: Src,
    pub style: Style,
}

impl<S: Scalar> Dimensions<S> {
    /// The four horizontal breakpoints: outer left, inner left, inner right,
    /// outer right.
    pub open spec fn xs(self) -> Seq<S> {
        seq![self.outer.left, self.inner.left, self.inner.right, self.outer.right]
    }

    /// The four vertical breakpoints: outer top, inner top, inner bottom,
    /// outer bottom.
    pub open spec fn ys(self) -> Seq<S> {
        seq![self.outer.top, self.inner.top, self.inner.bottom, self.outer.bottom]
    }

    /// Cell `i` of the three by three grid, counted row by row from the top
    /// left.
    pub open spec fn cell(self, i: int) -> Rect<S> {
        Rect {
            left: self.xs()[i % 3],
            right: self.xs()[i % 3 + 1],
            top: self.ys()[i / 3],
            bottom: self.ys()[i / 3 + 1],
        }
    }
}

/// The horizontal and the vertical policy of cell `i`: corners stretch, the
/// top and bottom edges take their border policy vertically, the left and
/// right edges horizontally, and the center takes the center policies.
pub open spec fn cell_scales(style: Style, i: int) -> (Scale, Scale) {
    if i == 1 {
        (Scale::Stretch, style.border.top)
    } else if i == 3 {
        (style.border.left, Scale::Stretch)
    } else if i == 4 {
        (style.center.horizontal, style.center.vertical)
    } else if i == 5 {
        (style.border.right, Scale::Stretch)
    } else if i == 7 {
        (Scale::Stretch, style.border.bottom)
    } else {
        (Scale::Stretch, Scale::Stretch)
    }
}

/// The nine pairs of a layout, each destination cell with its source cell.
pub open spec fn layout_pairs<S: Scalar>(dst: Dimensions<S>, src: Dimensions<S>) -> Seq<
    (Rect<S>, Rect<S>),
> {
    Seq::new(9, |i: int| (dst.cell(i), src.cell(i)))
}

/// The rectangles of a list of pairs of valid rectangles.
pub open spec fn pair_views<S: Scalar>(v: Seq<(ValidRect<S>, ValidRect<S>)>) -> Seq<
    (Rect<S>, Rect<S>),
> {
    v.map_values(|p: (ValidRect<S>, ValidRect<S>)| (p.0@, p.1@))
}

/// The message of a layout with a policy other than `Stretch`.
pub open spec fn unsupported_scale() -> &'static str {
    "Non-default scale not yet implemented"
}

impl<S: Scalar> Layout<Dimensions<S>, Dimensions<S>> {
    /// Validates the destination, then the source.
    pub fn validate(&self) -> (r: Result<Layout<ValidDimensions<S>, ValidDimensions<S>>, Error>)
        ensures
            r is Ok <==> self.dst.is_valid() && self.src.is_valid(),
            r matches Ok(l) ==> l.dst@ == self.dst && l.src@ == self.src && l.style
                == self.style,
            r matches Err(e) ==> if !self.dst.is_valid() {
                self.dst.violation() == Some(e.msg())
            } else {
                self.src.violation() == Some(e.msg())
            },
    {
        let dst = match self.dst.validate() {
            Ok(d) => d,
            Err(e) => return Err(e),
        };
        let src = match self.src.validate() {
            Ok(s) => s,
            Err(e) => return Err(e),
        };
        Ok(Layout { dst, src, style: self.style })
    }
}

impl<S: Scalar> Layout<ValidDimensions<S>, ValidDimensions<S>> {
    /// Appends to `out` the nine (destination, source) pairs of cells, row by
    /// row from the top left. Fails, appending nothing, where the style asks
    /// for a policy other than `Stretch`.
    pub fn each_dst_src(&self, out: &mut Vec<(ValidRect<S>, ValidRect<S>)>) -> (r: Result<
        (),
        Error,
    >)
        ensures
            r is Ok <==> self.style.is_stretch(),
            r is Ok ==> pair_views(final(out)@) == pair_views(old(out)@) + layout_pairs(
                self.dst@,
                self.src@,
            ),
            r matches Err(e) ==> final(out)@ == old(out)@ && e.msg() == unsupported_scale(),
    {
        do_layout_9(self.dst, self.src, self.style, out)
    }

    /// The nine (destination, source) pairs of cells, row by row from the top
    /// left; fails where the style asks for a policy other than `Stretch`.
    pub fn collect_dst_src_vec(&self) -> (r: Result<Vec<(ValidRect<S>, ValidRect<S>)>, Error>)
        ensures
            r is Ok <==> self.style.is_stretch(),
            r matches Ok(v) ==> pair_views(v@) == layout_pairs(self.dst@, self.src@),
            r matches Err(e) ==> e.msg() == unsupported_scale(),
    {
        let mut v = Vec::new();
        match self.each_dst_src(&mut v) {
            Ok(()) => {
                assert(pair_views(Seq::<(ValidRect<S>, ValidRect<S>)>::empty()) + layout_pairs(
                    self.dst@,
                    self.src@,
                ) =~= layout_pairs(self.dst@, self.src@));
                Ok(v)
            },
            Err(e) => Err(e),
        }
    }
}

/// The exec form of `cell_scales`.
fn scales_of_cell(style: &Style, i: usize) -> (r: (Scale, Scale))
    requires
        i < 9,
    ensures
        r == cell_scales(*style, i as int),
{
    if i == 1 {
        (Scale::Stretch, style.border.top)
    } else if i == 3 {
        (style.border.left, Scale::Stretch)
    } else if i == 4 {
        (style.center.horizontal, style.center.vertical)
    } else if i == 5 {
        (style.border.right, Scale::Stretch)
    } else if i == 7 {
        (Scale::Stretch, style.border.bottom)
    } else {
        (Scale::Stretch, Scale::Stretch)
    }
}

/// Lays out the nine cells of `dst` over those of `src`, appending each pair
/// to `out`; nothing is appended where `style` is not all `Stretch`.
fn do_layout_9<S: Scalar>(
    dst: ValidDimensions<S>,
    src: ValidDimensions<S>,
    style: Style,
    out: &mut Vec<(ValidRect<S>, ValidRect<S>)>,
) -> (r: Result<(), Error>)
    ensures
        r is Ok <==> style.is_stretch(),
        r is Ok ==> pair_views(final(out)@) == pair_views(old(out)@) + layout_pairs(
            dst@,
            src@,
        ),
        r matches Err(e) ==> final(out)@ == old(out)@ && e.msg() == unsupported_scale(),
{
    if !(style.border.left.is_stretch() && style.border.right.is_stretch()
        && style.border.top.is_stretch() && style.border.bottom.is_stretch()
        && style.center.horizontal.is_stretch() && style.center.vertical.is_stretch()) {
        return err("Non-default scale not yet implemented");
    }
    let d = dst.dimensions();
    let s = src.dimensions();
    let dstx: [S; 4] = [d.outer.left, d.inner.left, d.inner.right, d.outer.right];
    let dsty: [S; 4] = [d.outer.top, d.inner.top, d.inner.bottom, d.outer.bottom];
    let srcx: [S; 4] = [s.outer.left, s.inner.left, s.inner.right, s.outer.right];
    let srcy: [S; 4] = [s.outer.top, s.inner.top, s.inner.bottom, s.outer.bottom];
    assert(dstx@ =~= d.xs());
    assert(dsty@ =~= d.ys());
    assert(srcx@ =~= s.xs());
    assert(srcy@ =~= s.ys());
    let ghost start = pair_views(out@);
    let mut i: usize = 0;
    while i < 9
        invariant
            0 <= i <= 9,
            style.is_stretch(),
            d == dst@,
            s == src@,
            d.is_valid(),
            s.is_valid(),
            dstx@ == d.xs(),
            dsty@ == d.ys(),
            srcx@ == s.xs(),
            srcy@ == s.ys(),
            pair_views(out@) =~= start + layout_pairs(dst@, src@).take(i as int),
        decreases 9 - i,
    {
        let x: usize = i % 3;
        let y: usize = i / 3;
        let (horizontal, vertical) = scales_of_cell(&style, i);
        let dcell = Rect { left: dstx[x], right: dstx[x + 1], top: dsty[y], bottom: dsty[y + 1] };
        let scell = Rect { left: srcx[x], right: srcx[x + 1], top: srcy[y], bottom: srcy[y + 1] };
        assert(dcell == d.cell(i as int));
        assert(scell == s.cell(i as int));
        let ghost before = out@;
        do_layout_1(dcell.debug_assert_valid(), scell.debug_assert_valid(), horizontal, vertical, out);
        proof {
            assert(pair_views(out@) =~= pair_views(before).push((dcell, scell)));
            assert(layout_pairs(dst@, src@).take(i as int + 1) =~= layout_pairs(
                dst@,
                src@,
            ).take(i as int).push((dcell, scell)));
        }
        i = i + 1;
    }
    assert(layout_pairs(dst@, src@).take(9) =~= layout_pairs(dst@, src@));
    Ok(())
}

/// Lays out one cell: with both policies `Stretch` the destination takes the
/// source as it is.
fn do_layout_1<S: Scalar>(
    dst: ValidRect<S>,
    src: ValidRect<S>,
    horizontal: Scale,
    vertical: Scale,
    out: &mut Vec<(ValidRect<S>, ValidRect<S>)>,
)
    requires
        horizontal == Scale::Stretch,
        vertical == Scale::Stretch,
    ensures
        final(out)@ == old(out)@.push((dst, src)),
{
    out.push((dst, src));
}

} // verus!
