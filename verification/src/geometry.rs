//! Outputs of the desktop and the pointer among them.

use crate::error::OverlayError;
use vstd::prelude::*;

verus! {

/// A snapshot of the pointer, in root-window coordinates.
#[derive(Clone, Copy, Debug, PartialEq, Eq, Structural)]
pub struct PointerPosition {
    pub x: i16,
    pub y: i16,
}

/// The rectangle that one physical output covers on the desktop.
#[derive(Clone, Copy, Debug, PartialEq, Eq, Structural)]
pub struct OutputGeometry {
    pub id: u32,
    pub x: i16,
    pub y: i16,
    pub width: u16,
    pub height: u16,
}

impl OutputGeometry {
    /// Whether `p` lies in `[x, x + width) × [y, y + height)`.
    pub open spec fn spec_contains(&self, p: PointerPosition) -> bool {
        &&& self.x <= p.x < self.x + self.width
        &&& self.y <= p.y < self.y + self.height
    }

    /// Whether the output's rectangle, half-open on both axes, contains `p`.
    #[verifier::when_used_as_spec(spec_contains)]
    pub fn contains(&self, p: PointerPosition) -> (inside: bool)
        ensures
            inside == self.spec_contains(p),
    {
        let right: i32 = self.x as i32 + self.width as i32;
        let bottom: i32 = self.y as i32 + self.height as i32;
        self.x <= p.x && (p.x as i32) < right && self.y <= p.y && (p.y as i32) < bottom
    }

    /// The side lengths of the overlay window on this output: a tenth of the
    /// output's width, for the window's width and for its height alike.
    pub open spec fn spec_window_size(&self) -> (u16, u16) {
        ((self.width / 10) as u16, (self.width / 10) as u16)
    }

    /// The size of the overlay window on this output, as (width, height).
    #[verifier::when_used_as_spec(spec_window_size)]
    pub fn window_size(&self) -> (size: (u16, u16))
        ensures
            size == self.spec_window_size(),
            size.0 == self.width / 10,
            size.1 == self.width / 10,
    {
        let side: u16 = self.width / 10;
        (side, side)
    }
}

/// Whether `i` is the first place in `outputs` whose rectangle contains `p`.
pub open spec fn is_first_containing(
    outputs: Seq<OutputGeometry>,
    p: PointerPosition,
    i: int,
) -> bool {
    &&& 0 <= i < outputs.len()
    &&& outputs[i].spec_contains(p)
    &&& forall|j: int| 0 <= j < i ==> !(#[trigger] outputs[j]).spec_contains(p)
}

/// Whether no rectangle of `outputs` contains `p`.
pub open spec fn none_contains(outputs: Seq<OutputGeometry>, p: PointerPosition) -> bool {
    forall|j: int| 0 <= j < outputs.len() ==> !(#[trigger] outputs[j]).spec_contains(p)
}

/// The output that the pointer is on, if any: the first in list order whose
/// rectangle contains it.
pub open spec fn active_output(outputs: Seq<OutputGeometry>, p: PointerPosition) -> Option<
    OutputGeometry,
>
    decreases outputs.len(),
{
    if outputs.len() == 0 {
        None
    } else if outputs[0].spec_contains(p) {
        Some(outputs[0])
    } else {
        active_output(outputs.subrange(1, outputs.len() as int), p)
    }
}

/// Picks the output that the pointer is on. Where rectangles overlap the
/// first in list order wins; where none contains the pointer the call fails.
pub fn select_active_output(outputs: &[OutputGeometry], pointer: PointerPosition) -> (r: Result<
    OutputGeometry,
    OverlayError,
>)
    ensures
        match r {
            Ok(o) => exists|i: int|
                is_first_containing(outputs@, pointer, i) && #[trigger] outputs@[i] == o,
            Err(e) => e == OverlayError::PointerOutsideOutputs && none_contains(
                outputs@,
                pointer,
            ),
        },
        r == match active_output(outputs@, pointer) {
            Some(o) => Ok::<OutputGeometry, OverlayError>(o),
            None => Err::<OutputGeometry, OverlayError>(OverlayError::PointerOutsideOutputs),
        },
{
    let mut i: usize = 0;
    while i < outputs.len()
        invariant
            i <= outputs.len(),
            forall|j: int| 0 <= j < i ==> !(#[trigger] outputs@[j]).spec_contains(pointer),
        decreases outputs.len() - i,
    {
        if outputs[i].contains(pointer) {
            proof {
                assert(is_first_containing(outputs@, pointer, i as int));
                lemma_active_output_first(outputs@, pointer, i as int);
            }
            return Ok(outputs[i]);
        }
        i += 1;
    }
    proof {
        lemma_active_output_none(outputs@, pointer);
    }
    Err(OverlayError::PointerOutsideOutputs)
}

/// The selected output is the one at the first containing place.
pub proof fn lemma_active_output_first(outputs: Seq<OutputGeometry>, p: PointerPosition, i: int)
    requires
        is_first_containing(outputs, p, i),
    ensures
        active_output(outputs, p) == Some(outputs[i]),
    decreases outputs.len(),
{
    if i > 0 {
        let rest = outputs.subrange(1, outputs.len() as int);
        assert(!outputs[0].spec_contains(p));
        assert forall|j: int| 0 <= j < i - 1 implies !(#[trigger] rest[j]).spec_contains(p) by {
            assert(rest[j] == outputs[j + 1]);
        }
        assert(rest[i - 1] == outputs[i]);
        lemma_active_output_first(rest, p, i - 1);
    }
}

/// Selection fails exactly when no rectangle contains the pointer.
pub proof fn lemma_active_output_none(outputs: Seq<OutputGeometry>, p: PointerPosition)
    ensures
        active_output(outputs, p) is None <==> none_contains(outputs, p),
    decreases outputs.len(),
{
    if outputs.len() > 0 {
        let rest = outputs.subrange(1, outputs.len() as int);
        lemma_active_output_none(rest, p);
        if outputs[0].spec_contains(p) {
        } else if none_contains(rest, p) {
            assert forall|j: int| 0 <= j < outputs.len() implies !(
            #[trigger] outputs[j]).spec_contains(p) by {
                if j > 0 {
                    assert(rest[j - 1] == outputs[j]);
                }
            }
        } else {
            let k = choose|k: int| 0 <= k < rest.len() && (#[trigger] rest[k]).spec_contains(p);
            assert(outputs[k + 1] == rest[k]);
        }
    }
}

/// Where exactly one output contains the pointer, that output is selected,
/// wherever it stands in the list.
pub proof fn lemma_unique_output_selected(
    outputs: Seq<OutputGeometry>,
    p: PointerPosition,
    i: int,
)
    requires
        0 <= i < outputs.len(),
        outputs[i].spec_contains(p),
        forall|j: int|
            0 <= j < outputs.len() && j != i ==> !(#[trigger] outputs[j]).spec_contains(p),
    ensures
        active_output(outputs, p) == Some(outputs[i]),
{
    lemma_active_output_first(outputs, p, i);
}

} // verus!
