//! The search for a visual that the overlay can be drawn with: 32 bits deep,
//! true colour, 8 bits for each of red, green and blue.

use crate::error::OverlayError;
use vstd::prelude::*;

verus! {

/// The depth, in bits, that the overlay window needs.
pub const OVERLAY_DEPTH: u8 = 32;

/// The bits per colour channel that the overlay window needs.
pub const OVERLAY_BITS_PER_CHANNEL: u8 = 8;

/// How a visual maps pixel values to colours.
#[derive(Clone, Copy, Debug, PartialEq, Eq, Structural)]
pub enum VisualClass {
    StaticGray,
    GrayScale,
    StaticColor,
    PseudoColor,
    TrueColor,
    DirectColor,
    /// A class that the protocol has no name for.
    Other,
}

/// One visual that the display advertises.
#[derive(Clone, Copy, Debug, PartialEq, Eq, Structural)]
pub struct VisualInfo {
    pub visual_id: u32,
    pub class: VisualClass,
    pub bits_per_rgb_value: u8,
}

/// One depth that the display advertises, with the visuals it has.
#[derive(Clone, Debug)]
pub struct DepthInfo {
    pub depth: u8,
    pub visuals: Vec<VisualInfo>,
}

impl VisualInfo {
    /// Whether the visual is true colour with 8 bits per channel.
    pub open spec fn spec_usable(&self) -> bool {
        self.bits_per_rgb_value == OVERLAY_BITS_PER_CHANNEL && self.class
            == VisualClass::TrueColor
    }

    /// Whether the overlay can use this visual, given that its depth fits.
    #[verifier::when_used_as_spec(spec_usable)]
    pub fn usable(&self) -> (ok: bool)
        ensures
            ok == self.spec_usable(),
    {
        self.bits_per_rgb_value == OVERLAY_BITS_PER_CHANNEL && self.class
            == VisualClass::TrueColor
    }
}

/// Whether `d` is the first place in `depths` with a depth of 32 bits.
pub open spec fn is_first_deep(depths: Seq<DepthInfo>, d: int) -> bool {
    &&& 0 <= d < depths.len()
    &&& depths[d].depth == OVERLAY_DEPTH
    &&& forall|j: int| 0 <= j < d ==> (#[trigger] depths[j]).depth != OVERLAY_DEPTH
}

/// Whether `v` is the first place in `visuals` with a usable visual.
pub open spec fn is_first_usable(visuals: Seq<VisualInfo>, v: int) -> bool {
    &&& 0 <= v < visuals.len()
    &&& visuals[v].spec_usable()
    &&& forall|j: int| 0 <= j < v ==> !(#[trigger] visuals[j]).spec_usable()
}

/// The place of the first depth of 32 bits, if the display has one.
pub fn find_deep(depths: &[DepthInfo]) -> (r: Option<usize>)
    ensures
        match r {
            Some(d) => is_first_deep(depths@, d as int),
            None => forall|j: int|
                0 <= j < depths@.len() ==> (#[trigger] depths@[j]).depth != OVERLAY_DEPTH,
        },
{
    let mut d: usize = 0;
    while d < depths.len()
        invariant
            d <= depths.len(),
            forall|j: int| 0 <= j < d ==> (#[trigger] depths@[j]).depth != OVERLAY_DEPTH,
        decreases depths.len() - d,
    {
        if depths[d].depth == OVERLAY_DEPTH {
            return Some(d);
        }
        d += 1;
    }
    None
}

/// The place of the first usable visual among `visuals`, if there is one.
pub fn find_usable(visuals: &[VisualInfo]) -> (r: Option<usize>)
    ensures
        match r {
            Some(v) => is_first_usable(visuals@, v as int),
            None => forall|j: int|
                0 <= j < visuals@.len() ==> !(#[trigger] visuals@[j]).spec_usable(),
        },
{
    let mut v: usize = 0;
    while v < visuals.len()
        invariant
            v <= visuals.len(),
            forall|j: int| 0 <= j < v ==> !(#[trigger] visuals@[j]).spec_usable(),
        decreases visuals.len() - v,
    {
        if visuals[v].usable() {
            return Some(v);
        }
        v += 1;
    }
    None
}

/// Picks the visual for the overlay window: within the first depth of 32
/// bits that the display lists, the first true-colour visual with 8 bits per
/// channel. Later entries of the same depth are not looked at.
pub fn find_visual32(depths: &[DepthInfo]) -> (r: Result<VisualInfo, OverlayError>)
    ensures
        match r {
            Ok(visual) => exists|d: int, v: int|
                is_first_deep(depths@, d) && is_first_usable(depths@[d].visuals@, v)
                    && #[trigger] depths@[d].visuals@[v] == visual,
            Err(OverlayError::DepthNotSupported) => forall|j: int|
                0 <= j < depths@.len() ==> (#[trigger] depths@[j]).depth != OVERLAY_DEPTH,
            Err(OverlayError::NoUsableVisual) => exists|d: int|
                is_first_deep(depths@, d) && forall|j: int|
                    0 <= j < depths@[d].visuals@.len() ==> !(
                    #[trigger] depths@[d].visuals@[j]).spec_usable(),
            Err(_) => false,
        },
{
    match find_deep(depths) {
        None => Err(OverlayError::DepthNotSupported),
        Some(d) => {
            let visuals = &depths[d].visuals;
            match find_usable(visuals.as_slice()) {
                None => Err(OverlayError::NoUsableVisual),
                Some(v) => {
                    let visual = visuals[v];
                    assert(is_first_deep(depths@, d as int) && is_first_usable(
                        depths@[d as int].visuals@,
                        v as int,
                    ) && depths@[d as int].visuals@[v as int] == visual);
                    Ok(visual)
                },
            }
        },
    }
}

} // verus!
