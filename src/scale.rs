use vstd::prelude::*;

verus! {

/// How a strip of source content fills a destination strip.
#[derive(Clone, Copy, Debug, PartialEq, Eq, PartialOrd, Ord, Hash, Structural)]
pub enum Scale {
    /// Stretch the source over the destination.
    Stretch,
    /// Tile the source, clipping the last tile.
    Repeat,
    /// Tile the source a whole number of times, scaled to fit.
    Round,
    /// Tile the source a whole number of times, with even gaps between tiles.
    Space,
}

impl Default for Scale {
    fn default() -> (r: Scale)
        ensures
            r == Scale::Stretch,
    {
        Scale::Stretch
    }
}

impl Scale {
    /// Whether this is `Stretch`, the one policy that layout carries out.
    pub fn is_stretch(&self) -> (r: bool)
        ensures
            r == (*self == Scale::Stretch),
    {
        match self {
            Scale::Stretch => true,
            _ => false,
        }
    }
}

} // verus!
