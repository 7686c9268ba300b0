//! The overlay window: where it stands, and when it has to move.

use crate::geometry::{OutputGeometry, PointerPosition};
use crate::visual::{VisualInfo, OVERLAY_DEPTH};
use vstd::prelude::*;

verus! {

/// The overlay window. Its size is fixed when it is made; its place follows
/// from the pointer sample that it recorded last.
#[derive(Clone, Copy, Debug, PartialEq, Eq, Structural)]
pub struct OverlayWindow {
    pub id: u32,
    pub width: u16,
    pub height: u16,
    /// The pointer sample that the window is centred on.
    pub pointer: PointerPosition,
}

/// A request to move a window's top-left corner.
#[derive(Clone, Copy, Debug, PartialEq, Eq, Structural)]
pub struct ConfigureRequest {
    pub window: u32,
    pub x: i32,
    pub y: i32,
}

/// What the display server is asked for when the window is made. A window
/// that does not accept input has its input shape cut down to nothing, so
/// that clicks and keys pass through it; what it shows is not affected.
#[derive(Clone, Copy, Debug, PartialEq, Eq, Structural)]
pub struct WindowSetup {
    pub window: u32,
    pub depth: u8,
    pub visual_id: u32,
    pub colormap: u32,
    pub background_pixel: u32,
    pub border_pixel: u32,
    pub border_width: u16,
    pub override_redirect: bool,
    pub accepts_input: bool,
    pub x: i16,
    pub y: i16,
    pub width: u16,
    pub height: u16,
}

/// The top-left corner of a window of the given size with `p` at its centre:
/// the pointer less half the size, halves rounded down.
pub open spec fn centered_on(p: PointerPosition, width: u16, height: u16) -> (int, int) {
    (p.x - width / 2, p.y - height / 2)
}

/// The window after a sample, and the request that the sample gives rise to.
pub open spec fn spec_reposition(w: OverlayWindow, sample: PointerPosition) -> (
    OverlayWindow,
    Option<ConfigureRequest>,
) {
    let moved = OverlayWindow { pointer: sample, ..w };
    if sample == w.pointer {
        (w, None)
    } else {
        (
            moved,
            Some(
                ConfigureRequest {
                    window: w.id,
                    x: moved.spec_position().0 as i32,
                    y: moved.spec_position().1 as i32,
                },
            ),
        )
    }
}

impl OverlayWindow {
    /// The window's top-left corner.
    pub open spec fn spec_position(&self) -> (int, int) {
        centered_on(self.pointer, self.width, self.height)
    }

    /// Whether the window's place can be written in the 16 bits that a
    /// request to make a window has for each coordinate.
    pub open spec fn fits_protocol(&self) -> bool {
        &&& i16::MIN <= self.spec_position().0 <= i16::MAX
        &&& i16::MIN <= self.spec_position().1 <= i16::MAX
    }

    /// A window on `output`, centred on `pointer`: a tenth of the output's
    /// width on each side.
    pub fn create(id: u32, output: &OutputGeometry, pointer: PointerPosition) -> (w: Self)
        ensures
            w.id == id,
            w.width == output.width / 10,
            w.height == output.width / 10,
            w.pointer == pointer,
            w.spec_position() == centered_on(pointer, w.width, w.height),
    {
        let size = output.window_size();
        OverlayWindow { id, width: size.0, height: size.1, pointer }
    }

    /// The window's top-left corner: the recorded pointer less half the size.
    pub fn position(&self) -> (pos: (i32, i32))
        ensures
            pos.0 == self.pointer.x - self.width / 2,
            pos.1 == self.pointer.y - self.height / 2,
            (pos.0 as int, pos.1 as int) == self.spec_position(),
    {
        let x: i32 = self.pointer.x as i32 - (self.width / 2) as i32;
        let y: i32 = self.pointer.y as i32 - (self.height / 2) as i32;
        (x, y)
    }

    /// What to ask of the display server to make this window: 32 bits deep
    /// on `visual`, with `colormap`, filled with `white_pixel`, without a
    /// border, placed by nobody but itself, and deaf to all input. There is
    /// no such request where the window's place does not fit in 16 bits.
    pub fn setup(&self, visual: &VisualInfo, colormap: u32, white_pixel: u32) -> (r: Option<
        WindowSetup,
    >)
        ensures
            r is Some <==> self.fits_protocol(),
            r is Some ==> r->0 == (WindowSetup {
                window: self.id,
                depth: OVERLAY_DEPTH,
                visual_id: visual.visual_id,
                colormap: colormap,
                background_pixel: white_pixel,
                border_pixel: 0,
                border_width: 0,
                override_redirect: true,
                accepts_input: false,
                x: self.spec_position().0 as i16,
                y: self.spec_position().1 as i16,
                width: self.width,
                height: self.height,
            }),
    {
        let (x, y) = self.position();
        if x < i16::MIN as i32 || x > i16::MAX as i32 || y < i16::MIN as i32 || y > i16::MAX as i32 {
            return None;
        }
        Some(
            WindowSetup {
                window: self.id,
                depth: OVERLAY_DEPTH,
                visual_id: visual.visual_id,
                colormap,
                background_pixel: white_pixel,
                border_pixel: 0,
                border_width: 0,
                override_redirect: true,
                accepts_input: false,
                x: x as i16,
                y: y as i16,
                width: self.width,
                height: self.height,
            },
        )
    }

    /// Takes a new pointer sample. Where it differs from the recorded one the
    /// window records it and asks to be moved so that it stays centred on the
    /// pointer; where it is the same nothing changes and nothing is asked.
    pub fn reposition(&mut self, sample: PointerPosition) -> (request: Option<ConfigureRequest>)
        ensures
            (*final(self), request) == spec_reposition(*old(self), sample),
            final(self).id == old(self).id,
            final(self).width == old(self).width,
            final(self).height == old(self).height,
            final(self).pointer == sample,
            final(self).spec_position() == centered_on(sample, old(self).width, old(self).height),
            request is Some <==> sample != old(self).pointer,
            request is Some ==> {
                &&& request->0.window == old(self).id
                &&& request->0.x == sample.x - old(self).width / 2
                &&& request->0.y == sample.y - old(self).height / 2
            },
    {
        if sample.x == self.pointer.x && sample.y == self.pointer.y {
            return None;
        }
        self.pointer = sample;
        let (x, y) = self.position();
        Some(ConfigureRequest { window: self.id, x, y })
    }
}

/// After every sample the window is centred on it, and a request, where one
/// is made, names that very place.
pub proof fn lemma_reposition_centered(w: OverlayWindow, sample: PointerPosition)
    ensures
        spec_reposition(w, sample).0.spec_position() == centered_on(sample, w.width, w.height),
        spec_reposition(w, sample).1 is Some <==> sample != w.pointer,
        spec_reposition(w, sample).1 is Some ==> {
            &&& spec_reposition(w, sample).1->0.x == sample.x - w.width / 2
            &&& spec_reposition(w, sample).1->0.y == sample.y - w.height / 2
        },
{
}

/// A sample that was just recorded asks for no second move: repositioning is
/// idempotent on repeated samples.
pub proof fn lemma_reposition_idempotent(w: OverlayWindow, sample: PointerPosition)
    ensures
        spec_reposition(spec_reposition(w, sample).0, sample).1 is None,
        spec_reposition(spec_reposition(w, sample).0, sample).0 == spec_reposition(w, sample).0,
{
}

} // verus!
