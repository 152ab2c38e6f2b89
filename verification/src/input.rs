use vstd::prelude::*;

use crate::board::spec_mouse_cell;
use crate::board::Board;
use crate::bounds::Point2;
use crate::coordinates::Coordinates;

verus! {

/// The mouse button of a pointer event, as far as the board cares.
#[derive(Debug, Clone, Copy, PartialEq, Eq, Structural)]
pub enum MouseButton {
    Left,
    Right,
    Other,
}

/// Whether the button was pressed or released.
#[derive(Debug, Clone, Copy, PartialEq, Eq, Structural)]
pub enum ButtonState {
    Pressed,
    Released,
}

/// What the player asks of a tile.
#[derive(Debug, Clone, Copy, PartialEq, Eq, Structural)]
pub enum InputAction {
    /// Remove the tile's cover.
    Uncover,
    /// Mark the tile as suspected.
    Mark,
}

/// The cell and action one pointer event resolves to: nothing for a
/// release, for a button the board ignores, or for a cursor outside the
/// board; else the cell under the cursor with uncovering for the left
/// button and marking for the right.
pub open spec fn spec_event_result(
    board: Board,
    button: MouseButton,
    state: ButtonState,
    window: Point2,
    mouse_pos: Point2,
) -> Option<(Coordinates, InputAction)> {
    if state is Released || button is Other {
        None
    } else {
        match spec_mouse_cell(board, window, mouse_pos) {
            Some(c) => Some(
                (
                    c,
                    if button is Left {
                        InputAction::Uncover
                    } else {
                        InputAction::Mark
                    },
                ),
            ),
            None => None,
        }
    }
}

/// Resolves one pointer event against the board: a press of the left or
/// right button over the board yields the cell under the cursor and the
/// intended action; every other event yields nothing.
pub fn event_handle(
    board: &Board,
    button: MouseButton,
    state: ButtonState,
    window: Point2,
    mouse_pos: Point2,
) -> (r: Option<(Coordinates, InputAction)>)
    requires
        board.bounds.wf(),
        1 <= board.tile_size <= 0x7fff_ffff,
        0 <= window.x <= 0x7fff_ffff,
        0 <= window.y <= 0x7fff_ffff,
        -0x7fff_ffff <= mouse_pos.x <= 0x7fff_ffff,
        -0x7fff_ffff <= mouse_pos.y <= 0x7fff_ffff,
    ensures
        r == spec_event_result(*board, button, state, window, mouse_pos),
{
    if matches!(state, ButtonState::Released) {
        return None;
    }
    if matches!(button, MouseButton::Other) {
        return None;
    }
    let coords = board.mouse_position(window, mouse_pos);
    match coords {
        None => None,
        Some(c) => {
            let action = if matches!(button, MouseButton::Left) {
                InputAction::Uncover
            } else {
                InputAction::Mark
            };
            Some((c, action))
        },
    }
}

} // verus!
