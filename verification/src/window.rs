use vstd::prelude::*;

verus! {

/// The close hot-zone, in window-local pixels: x in
/// [`CLOSE_X_MIN`, `CLOSE_X_MAX`), y in [`CLOSE_Y_MIN`, `CLOSE_Y_MAX`).
pub const CLOSE_X_MIN: i32 = 275;

pub const CLOSE_X_MAX: i32 = 295;

pub const CLOSE_Y_MIN: i32 = 5;

pub const CLOSE_Y_MAX: i32 = 25;

/// The drag hot-zone, in window-local pixels: any x, y in [0, `DRAG_Y_MAX`).
pub const DRAG_Y_MAX: i32 = 20;

/// Whether a window-local position falls in the close hot-zone.
pub open spec fn in_close_zone(pos: (i32, i32)) -> bool {
    &&& CLOSE_X_MIN <= pos.0 < CLOSE_X_MAX
    &&& CLOSE_Y_MIN <= pos.1 < CLOSE_Y_MAX
}

/// Whether a window-local position falls in the drag hot-zone. The close
/// zone overlaps it and is tested first, so close wins on the overlap.
pub open spec fn in_drag_zone(pos: (i32, i32)) -> bool {
    0 <= pos.1 < DRAG_Y_MAX
}

/// The x coordinate a drag asks the window to move to: the window anchor
/// shifted by how far the cursor has travelled from its own anchor.
pub open spec fn move_target_x(
    window_anchor: (i32, i32),
    cursor_anchor: (i32, i32),
    cursor_now: (i32, i32),
) -> int {
    window_anchor.0 + cursor_now.0 - cursor_anchor.0
}

/// The y coordinate a drag asks the window to move to.
pub open spec fn move_target_y(
    window_anchor: (i32, i32),
    cursor_anchor: (i32, i32),
    cursor_now: (i32, i32),
) -> int {
    window_anchor.1 + cursor_now.1 - cursor_anchor.1
}

/// What the controller asks of the host after an event.
#[derive(Clone, Copy, Debug, PartialEq, Eq, Structural)]
pub enum HostAction {
    /// Nothing to do.
    Stay,
    /// End the application.
    Exit,
    /// Move the window's top-left corner to `(x, y)` on the screen, keeping
    /// its size. Targets are wide enough that the arithmetic never wraps.
    MoveWindow { x: i64, y: i64 },
}

/// A key press as the controller sees it: either the cancel key or any
/// other key.
#[derive(Clone, Copy, Debug, PartialEq, Eq, Structural)]
pub enum KeyPress {
    Cancel,
    Other,
}

/// Tracks the last known cursor position and an in-flight drag. Anchors are
/// absolute screen coordinates captured when the drag started; they exist
/// exactly while a drag is in flight.
pub struct DragController {
    /// Last cursor position reported by the host, window-local.
    pub last_cursor: (i32, i32),
    /// Whether a drag is in flight.
    pub is_dragging: bool,
    /// Absolute cursor position at drag start.
    pub cursor_anchor: Option<(i32, i32)>,
    /// Absolute window top-left at drag start.
    pub window_anchor: Option<(i32, i32)>,
}

impl DragController {
    /// The controller invariant: both anchors exist exactly while dragging.
    pub open spec fn wf(self) -> bool {
        &&& self.is_dragging == (self.cursor_anchor is Some)
        &&& self.is_dragging == (self.window_anchor is Some)
    }

    /// A fresh controller: not dragging, no anchors.
    pub fn new() -> (c: DragController)
        ensures
            c.wf(),
            !c.is_dragging,
            c.cursor_anchor is None,
            c.window_anchor is None,
            c.last_cursor == (0i32, 0i32),
    {
        DragController {
            last_cursor: (0, 0),
            is_dragging: false,
            cursor_anchor: None,
            window_anchor: None,
        }
    }

    /// Handles a mouse press at window-local `local`. A press in the close
    /// zone asks the host to exit and changes nothing; otherwise a press in
    /// the drag zone anchors a drag at the current absolute cursor position
    /// `cursor_screen` and window top-left `window_screen`; any other press
    /// does nothing.
    pub fn on_mouse_press(
        &mut self,
        local: (i32, i32),
        cursor_screen: (i32, i32),
        window_screen: (i32, i32),
    ) -> (act: HostAction)
        requires
            old(self).wf(),
        ensures
            final(self).wf(),
            final(self).last_cursor == old(self).last_cursor,
            in_close_zone(local) ==> act == HostAction::Exit && *final(self) == *old(self),
            !in_close_zone(local) && in_drag_zone(local) ==> {
                &&& act == HostAction::Stay
                &&& final(self).is_dragging
                &&& final(self).cursor_anchor == Some(cursor_screen)
                &&& final(self).window_anchor == Some(window_screen)
            },
            !in_close_zone(local) && !in_drag_zone(local) ==> {
                &&& act == HostAction::Stay
                &&& *final(self) == *old(self)
            },
    {
        let in_close = CLOSE_X_MIN <= local.0 && local.0 < CLOSE_X_MAX && CLOSE_Y_MIN <= local.1
            && local.1 < CLOSE_Y_MAX;
        if in_close {
            HostAction::Exit
        } else if 0 <= local.1 && local.1 < DRAG_Y_MAX {
            self.is_dragging = true;
            self.cursor_anchor = Some(cursor_screen);
            self.window_anchor = Some(window_screen);
            HostAction::Stay
        } else {
            HostAction::Stay
        }
    }

    /// Handles a cursor move: remembers the window-local position, and while
    /// dragging asks the host to move the window by however far the absolute
    /// cursor `cursor_screen` has travelled from the cursor anchor.
    pub fn on_cursor_moved(&mut self, local: (i32, i32), cursor_screen: (i32, i32)) -> (act:
        HostAction)
        requires
            old(self).wf(),
        ensures
            final(self).wf(),
            final(self).last_cursor == local,
            final(self).is_dragging == old(self).is_dragging,
            final(self).cursor_anchor == old(self).cursor_anchor,
            final(self).window_anchor == old(self).window_anchor,
            old(self).is_dragging ==> {
                &&& act matches HostAction::MoveWindow { x, y }
                &&& x == move_target_x(
                    old(self).window_anchor->Some_0,
                    old(self).cursor_anchor->Some_0,
                    cursor_screen,
                )
                &&& y == move_target_y(
                    old(self).window_anchor->Some_0,
                    old(self).cursor_anchor->Some_0,
                    cursor_screen,
                )
            },
            !old(self).is_dragging ==> act == HostAction::Stay,
    {
        self.last_cursor = local;
        if self.is_dragging {
            let ca = match self.cursor_anchor {
                Some(p) => p,
                None => (0, 0),
            };
            let wa = match self.window_anchor {
                Some(p) => p,
                None => (0, 0),
            };
            let x: i64 = wa.0 as i64 + cursor_screen.0 as i64 - ca.0 as i64;
            let y: i64 = wa.1 as i64 + cursor_screen.1 as i64 - ca.1 as i64;
            HostAction::MoveWindow { x, y }
        } else {
            HostAction::Stay
        }
    }

    /// Handles a mouse release: unconditionally ends any drag and clears
    /// both anchors.
    pub fn on_mouse_release(&mut self)
        ensures
            final(self).wf(),
            !final(self).is_dragging,
            final(self).cursor_anchor is None,
            final(self).window_anchor is None,
            final(self).last_cursor == old(self).last_cursor,
    {
        self.is_dragging = false;
        self.cursor_anchor = None;
        self.window_anchor = None;
    }

    /// Handles a key press: the cancel key asks the host to exit; any other
    /// key does nothing. The controller state never moves.
    pub fn on_key(&self, key: KeyPress) -> (act: HostAction)
        ensures
            act == (if key == KeyPress::Cancel {
                HostAction::Exit
            } else {
                HostAction::Stay
            }),
    {
        match key {
            KeyPress::Cancel => HostAction::Exit,
            KeyPress::Other => HostAction::Stay,
        }
    }

    /// Handles the host's own close request: always asks to exit.
    pub fn on_close_requested(&self) -> (act: HostAction)
        ensures
            act == HostAction::Exit,
    {
        HostAction::Exit
    }
}

/// Dragging moves the window by exactly the cursor's travel: once a press
/// has anchored the drag at cursor `c0` and window `w0`, a cursor move to
/// `c1` targets `w0` shifted by `c1 - c0`.
pub proof fn lemma_drag_moves_window_by_cursor_delta(
    w0: (i32, i32),
    c0: (i32, i32),
    c1: (i32, i32),
    dx: int,
    dy: int,
)
    requires
        dx == c1.0 - c0.0,
        dy == c1.1 - c0.1,
    ensures
        move_target_x(w0, c0, c1) == w0.0 + dx,
        move_target_y(w0, c0, c1) == w0.1 + dy,
{
}

} // verus!
