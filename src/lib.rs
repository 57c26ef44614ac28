//! Nine-slice layout: a source and a destination rectangle, each cut into a
//! three by three grid by an inner rectangle, and the pairing of their cells.
use vstd::prelude::*;

mod dimensions;
mod error;
mod layout;
mod rect;
mod scalar;
mod scale;
mod style;

pub use dimensions::{
    lemma_borders_non_negative, lemma_dimensions_round_trip, lemma_swap_breaks_nesting,
    lemma_with_outer_then_with_inner, Dimensions, ValidDimensions,
};
pub use error::Error;
pub use layout::{cell_scales, layout_pairs, pair_views, unsupported_scale, Layout};
pub use rect::{lemma_rect_model_injective, lemma_rect_round_trip, Rect, ValidRect};
pub use scalar::Scalar;
pub use scale::Scale;
pub use style::Style;

verus! {

/// Two values, one for each axis.
#[derive(Clone, Copy, Debug, Default, PartialEq, Eq, Hash)]
pub struct Axises<V> {
    pub horizontal: V,
    pub vertical: V,
}

} // verus!
