//! Mouse events over the terminal pane: a left press starts a selection
//! (and focuses the terminal), a drag grows it, a release ends it, and the
//! wheel scrolls, all only inside the pane's area and in the normal mode.
//! The terminal's own selection and scrollback are the caller's.

use crate::app::keys::KeyModifiers;
use crate::app::state::{App, AppMode, FocusedPane, Layout};
use vstd::prelude::*;

verus! {

/// A rectangle on the screen, in cells.
#[derive(Debug, Clone, Copy, PartialEq, Eq, Structural)]
pub struct Rect {
    /// Left column.
    pub x: u16,
    /// Top row.
    pub y: u16,
    /// Width in columns.
    pub width: u16,
    /// Height in rows.
    pub height: u16,
}

/// A mouse button.
#[derive(Debug, Clone, Copy, PartialEq, Eq, Structural)]
pub enum MouseButton {
    /// The left button.
    Left,
    /// The right button.
    Right,
    /// The middle button.
    Middle,
}

/// What the mouse did.
#[derive(Debug, Clone, Copy, PartialEq, Eq, Structural)]
pub enum MouseEventKind {
    /// A button went down.
    Down(MouseButton),
    /// A button came up.
    Up(MouseButton),
    /// The mouse moved with a button down.
    Drag(MouseButton),
    /// The mouse moved.
    Moved,
    /// The wheel turned down.
    ScrollDown,
    /// The wheel turned up.
    ScrollUp,
    /// The wheel tilted left.
    ScrollLeft,
    /// The wheel tilted right.
    ScrollRight,
}

/// A mouse event at a screen cell.
#[derive(Debug, Clone, Copy, PartialEq, Eq, Structural)]
pub struct MouseEvent {
    /// What happened.
    pub kind: MouseEventKind,
    /// The column.
    pub column: u16,
    /// The row.
    pub row: u16,
    /// The modifier keys held.
    pub modifiers: KeyModifiers,
}

/// The cell (`x`, `y`) lies inside `area`.
pub open spec fn in_area(x: int, y: int, area: Rect) -> bool {
    area.x <= x < area.x + area.width && area.y <= y < area.y + area.height
}

/// Whether the cell (`x`, `y`) lies inside `area`.
pub fn is_point_in_area(x: u16, y: u16, area: Rect) -> (r: bool)
    ensures
        r == in_area(x as int, y as int, area),
{
    let right = area.x as u32 + area.width as u32;
    let bottom = area.y as u32 + area.height as u32;
    area.x <= x && (x as u32) < right && area.y <= y && (y as u32) < bottom
}

/// `a - b`, or 0 when `b` is larger.
pub open spec fn sat_sub(a: int, b: int) -> int {
    if a > b {
        a - b
    } else {
        0
    }
}

/// The terminal grid's cell under the screen cell (`x`, `y`) of a pane in
/// `area`: inside the pane's border (one column in, two rows down), never
/// below 0.
pub fn to_terminal_coords(x: u16, y: u16, area: Rect) -> (r: (u16, u16))
    requires
        area.x + 1 <= u16::MAX,
        area.y + 2 <= u16::MAX,
    ensures
        r.0 == sat_sub(x as int, area.x + 1),
        r.1 == sat_sub(y as int, area.y + 2),
{
    (x.saturating_sub(area.x + 1), y.saturating_sub(area.y + 2))
}

/// What a mouse event asks of the terminal.
#[derive(Debug, Clone, Copy, PartialEq, Eq, Structural)]
pub enum MouseAction {
    /// Focus the terminal and start a selection at a grid cell.
    StartSelection(u16, u16),
    /// Grow the selection to a grid cell.
    UpdateSelection(u16, u16),
    /// End the selection.
    FinalizeSelection,
    /// Scroll the view up three lines.
    ScrollUp,
    /// Scroll the view down three lines.
    ScrollDown,
}

/// What `event` asks of a terminal pane in `area`: left presses and drags
/// inside it start and grow a selection at the grid cell under the mouse,
/// a left release anywhere ends it, and the wheel inside it scrolls.
pub open spec fn mouse_action(event: MouseEvent, area: Rect) -> Option<MouseAction> {
    let inside = in_area(event.column as int, event.row as int, area);
    let col = sat_sub(event.column as int, area.x + 1) as u16;
    let row = sat_sub(event.row as int, area.y + 2) as u16;
    match event.kind {
        MouseEventKind::Down(MouseButton::Left) => if inside {
            Some(MouseAction::StartSelection(col, row))
        } else {
            None
        },
        MouseEventKind::Drag(MouseButton::Left) => if inside {
            Some(MouseAction::UpdateSelection(col, row))
        } else {
            None
        },
        MouseEventKind::Up(MouseButton::Left) => Some(MouseAction::FinalizeSelection),
        MouseEventKind::ScrollUp => if inside {
            Some(MouseAction::ScrollUp)
        } else {
            None
        },
        MouseEventKind::ScrollDown => if inside {
            Some(MouseAction::ScrollDown)
        } else {
            None
        },
        _ => None,
    }
}

/// Law: the wheel scrolls the terminal the way it turns, and only inside
/// the pane: a wheel-up event over the pane scrolls up, a wheel-down event
/// scrolls down, and nothing else scrolls.
pub proof fn law_the_wheel_scrolls_its_own_way(event: MouseEvent, area: Rect, r: Option<
    MouseAction,
>)
    requires
        r == mouse_action(event, area),
    ensures
        r == Some(MouseAction::ScrollUp) <==> (event.kind == MouseEventKind::ScrollUp && in_area(
            event.column as int,
            event.row as int,
            area,
        )),
        r == Some(MouseAction::ScrollDown) <==> (event.kind == MouseEventKind::ScrollDown
            && in_area(event.column as int, event.row as int, area)),
{
}

/// Law: a selection starts (on a left press) or grows (on a left drag)
/// only inside the pane, at the grid cell under the mouse: the screen
/// cell's offset from the grid's first cell, one column and two rows in
/// from the pane's corner. A left release anywhere ends it.
pub proof fn law_selections_follow_the_mouse(event: MouseEvent, area: Rect, r: Option<MouseAction>)
    requires
        r == mouse_action(event, area),
        area.x + 1 <= u16::MAX,
        area.y + 2 <= u16::MAX,
    ensures
        r matches Some(MouseAction::StartSelection(col, row)) ==> event.kind
            == MouseEventKind::Down(MouseButton::Left) && in_area(
            event.column as int,
            event.row as int,
            area,
        ) && col == sat_sub(event.column as int, area.x + 1) && row == sat_sub(
            event.row as int,
            area.y + 2,
        ),
        r matches Some(MouseAction::UpdateSelection(col, row)) ==> event.kind
            == MouseEventKind::Drag(MouseButton::Left) && in_area(
            event.column as int,
            event.row as int,
            area,
        ) && col == sat_sub(event.column as int, area.x + 1) && row == sat_sub(
            event.row as int,
            area.y + 2,
        ),
        (event.kind == MouseEventKind::Down(MouseButton::Left) && in_area(
            event.column as int,
            event.row as int,
            area,
        )) ==> r is Some && r->0 is StartSelection,
        (event.kind == MouseEventKind::Drag(MouseButton::Left) && in_area(
            event.column as int,
            event.row as int,
            area,
        )) ==> r is Some && r->0 is UpdateSelection,
        r == Some(MouseAction::FinalizeSelection) <==> event.kind == MouseEventKind::Up(
            MouseButton::Left,
        ),
{
}

/// What a mouse event asks of a terminal pane in `area`.
pub fn mouse_event_action(event: &MouseEvent, area: Rect) -> (r: Option<MouseAction>)
    requires
        area.x + 1 <= u16::MAX,
        area.y + 2 <= u16::MAX,
    ensures
        r == mouse_action(*event, area),
{
    let inside = is_point_in_area(event.column, event.row, area);
    match event.kind {
        MouseEventKind::Down(MouseButton::Left) => {
            if inside {
                let (col, row) = to_terminal_coords(event.column, event.row, area);
                Some(MouseAction::StartSelection(col, row))
            } else {
                None
            }
        },
        MouseEventKind::Drag(MouseButton::Left) => {
            if inside {
                let (col, row) = to_terminal_coords(event.column, event.row, area);
                Some(MouseAction::UpdateSelection(col, row))
            } else {
                None
            }
        },
        MouseEventKind::Up(MouseButton::Left) => Some(MouseAction::FinalizeSelection),
        MouseEventKind::ScrollUp => {
            if inside {
                Some(MouseAction::ScrollUp)
            } else {
                None
            }
        },
        MouseEventKind::ScrollDown => {
            if inside {
                Some(MouseAction::ScrollDown)
            } else {
                None
            }
        },
        _ => None,
    }
}

impl App {
    /// Handles a mouse event over the terminal pane in `area`: nothing
    /// outside the normal mode; otherwise the action is returned for the
    /// caller's terminal, and a selection's start focuses the terminal.
    pub fn handle_mouse(&mut self, event: MouseEvent, area: Rect) -> (r: Option<MouseAction>)
        requires
            area.x + 1 <= u16::MAX,
            area.y + 2 <= u16::MAX,
        ensures
            r == (if old(self).mode == AppMode::Normal {
                mouse_action(event, area)
            } else {
                None
            }),
            r matches Some(MouseAction::StartSelection(_, _)) ==> *final(self) == (App {
                layout: Layout { focused: FocusedPane::Terminal, ..old(self).layout },
                ..*old(self)
            }),
            !(r matches Some(MouseAction::StartSelection(_, _))) ==> *final(self) == *old(self),
    {
        if self.mode != AppMode::Normal {
            return None;
        }
        let action = mouse_event_action(&event, area);
        match action {
            Some(MouseAction::StartSelection(_, _)) => {
                self.layout.focused = FocusedPane::Terminal;
            },
            _ => {},
        }
        action
    }
}

} // verus!
