//! The panel's reaction to each anchor point that arrives: it flips between
//! shown and hidden, and moves under the point whichever way it flipped.
use vstd::prelude::*;
use crate::geometry::{Point, Position, origin_of, panel_origin, position_is};

verus! {

/// The panel's outer size in physical pixels.
#[derive(Clone, Copy, Debug, PartialEq, Eq, Structural)]
pub struct PanelSize {
    pub width: u32,
    pub height: u32,
}

/// What the window must be told after a point arrives.
#[derive(Clone, Copy, Debug, PartialEq, Eq, Structural)]
pub struct PanelCommand {
    pub visible: bool,
    pub origin: Position,
}

/// The panel as the positioner last left it.
#[derive(Clone, Copy, Debug, PartialEq, Eq, Structural)]
pub struct PanelState {
    pub visible: bool,
    /// The last position given to the window, if any point has arrived yet.
    pub origin: Option<Position>,
}

/// The visibility after a toggle: shown becomes hidden and hidden becomes
/// shown.
pub open spec fn toggled(visible: bool) -> bool {
    !visible
}

/// The visibility after `k` points have arrived, from `start`.
pub open spec fn visible_after(start: bool, k: nat) -> bool
    decreases k,
{
    if k == 0 {
        start
    } else {
        toggled(visible_after(start, (k - 1) as nat))
    }
}

impl PanelState {
    /// The panel as launched: hidden, and never moved.
    pub fn hidden() -> (s: PanelState)
        ensures
            !s.visible,
            s.origin.is_none(),
    {
        PanelState { visible: false, origin: None }
    }

    /// The panel as the window reports it before any point has arrived.
    pub fn with_visibility(visible: bool) -> (s: PanelState)
        ensures
            s.visible == visible,
            s.origin.is_none(),
    {
        PanelState { visible, origin: None }
    }

    /// Takes in one anchor point, with the panel's current outer size: the
    /// panel flips its visibility and moves its top-left corner to `(x - w/2, y)`
    /// whether it is now shown or hidden.
    pub fn on_point(&mut self, p: Point, size: PanelSize) -> (c: PanelCommand)
        ensures
            final(self).visible == toggled(old(self).visible),
            position_is(c.origin, origin_of(p.x as int, p.y as int, size.width as int)),
            c.visible == final(self).visible,
            final(self).origin == Some(c.origin),
    {
        let origin = panel_origin(p, size.width);
        self.visible = !self.visible;
        self.origin = Some(origin);
        PanelCommand { visible: self.visible, origin }
    }
}

/// A panel that starts hidden is shown after `k` points exactly when `k` is
/// odd.
pub proof fn toggle_parity(k: nat)
    ensures
        visible_after(false, k) <==> k % 2 == 1,
    decreases k,
{
    if k > 0 {
        toggle_parity((k - 1) as nat);
    }
}

} // verus!
