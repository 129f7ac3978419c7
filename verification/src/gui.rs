//! Decisions of the helper window that the Linux streamer shows so that the
//! screen-cast portal has a window to attach its picker to.
use vstd::prelude::*;

verus! {

/// The window events the helper window reacts to.
#[derive(Debug, Clone, Copy, PartialEq, Eq, Structural)]
pub enum WindowEventKind {
    CloseRequested,
    RedrawRequested,
    Other,
}

/// What the window does on an event.
#[derive(Debug, Clone, Copy, PartialEq, Eq, Structural)]
pub enum WindowAction {
    /// Leave the event loop.
    Exit,
    /// Paint the window.
    Draw,
    /// Nothing.
    Ignore,
}

/// A close signal from the picker thread ends the event loop first;
/// otherwise a close request ends it, a redraw request paints, and other
/// events are ignored.
pub fn window_event_action(close_signal: bool, event: WindowEventKind) -> (a: WindowAction)
    ensures
        a == if close_signal {
            WindowAction::Exit
        } else {
            match event {
                WindowEventKind::CloseRequested => WindowAction::Exit,
                WindowEventKind::RedrawRequested => WindowAction::Draw,
                WindowEventKind::Other => WindowAction::Ignore,
            }
        },
{
    if close_signal {
        return WindowAction::Exit;
    }
    match event {
        WindowEventKind::CloseRequested => WindowAction::Exit,
        WindowEventKind::RedrawRequested => WindowAction::Draw,
        WindowEventKind::Other => WindowAction::Ignore,
    }
}

/// The colour the window is painted with: opaque magenta, as ARGB.
pub const MAGENTA: u32 = 0xFFFF00FF;

/// A window is painted only when it has a non-empty area.
pub fn can_draw(width: u32, height: u32) -> (d: bool)
    ensures
        d == (width > 0 && height > 0),
{
    width > 0 && height > 0
}

/// Paints every pixel of the buffer with `color`.
pub fn fill_pixels(buf: &mut [u32], color: u32)
    ensures
        final(buf)@.len() == old(buf)@.len(),
        forall|i: int| 0 <= i < final(buf)@.len() ==> #[trigger] final(buf)@[i] == color,
{
    let n = buf.len();
    let mut i: usize = 0;
    while i < n
        invariant
            n == buf@.len(),
            n == old(buf)@.len(),
            i <= n,
            forall|k: int| 0 <= k < i ==> #[trigger] buf@[k] == color,
        decreases n - i,
    {
        buf[i] = color;
        i = i + 1;
    }
}

/// Whether the window has been painted once; it stays hidden until then.
pub struct DrawState {
    pub first_draw_done: bool,
}

impl DrawState {
    /// A window that has not been painted yet.
    pub fn new() -> (s: Self)
        ensures
            !s.first_draw_done,
    {
        DrawState { first_draw_done: false }
    }

    /// Records a finished paint; returns whether the window is to be made
    /// visible now, which is the case after the first paint only.
    pub fn after_draw(&mut self) -> (show: bool)
        ensures
            show == !old(self).first_draw_done,
            final(self).first_draw_done,
    {
        let show = !self.first_draw_done;
        self.first_draw_done = true;
        show
    }
}

} // verus!
