use vstd::prelude::*;
use crate::state::{AppState, FocusState, FocusZone};

verus! {

/// The keys the focus logic reacts to.
#[derive(Debug, Clone, Copy, PartialEq, Eq, Structural)]
pub enum Key {
    ArrowUp,
    ArrowDown,
    ArrowLeft,
    ArrowRight,
    Enter,
    Escape,
    Space,
    Other,
}

/// What a key press asks the application to do besides moving the focus.
#[derive(Debug, Clone, Copy, PartialEq, Eq, Structural)]
pub enum FocusAction {
    NoAction,
    /// Enter pressed on focused item
    Activate,
    /// Escape pressed
    Escape,
    /// Space / Play-Pause media key
    PlayPauseToggle,
    Stop,
    Next,
    Previous,
    VolumeUp,
    VolumeDown,
    Mute,
    SeekForward,
    SeekBackward,
}

/// Escape and Enter map to their actions; other keys do nothing here.
pub fn handle_key(focus: &mut FocusState, key: Key, app_state: &AppState) -> (r: FocusAction)
    ensures
        *final(focus) == *old(focus),
        r == (match key {
            Key::Escape => FocusAction::Escape,
            Key::Enter => FocusAction::Activate,
            _ => FocusAction::NoAction,
        }),
{
    match key {
        Key::Escape => FocusAction::Escape,
        Key::Enter => FocusAction::Activate,
        // Space is dispatched by the application to the context menu.
        _ => FocusAction::NoAction,
    }
}

/// An arrow key in the content area, which has `rows` rows.
pub open spec fn content_arrow(f: FocusState, key: Key, rows: int) -> (FocusState, FocusAction) {
    match key {
        Key::ArrowUp => (
            FocusState { content_row: if f.content_row > 0 { (f.content_row - 1) as usize } else { 0 }, ..f },
            FocusAction::NoAction,
        ),
        Key::ArrowDown => if f.content_row + 1 < rows {
            (FocusState { content_row: (f.content_row + 1) as usize, ..f }, FocusAction::NoAction)
        } else {
            (FocusState { zone: FocusZone::Transport, transport_index: 0, ..f }, FocusAction::NoAction)
        },
        Key::ArrowLeft => if f.content_col > 0 {
            (FocusState { content_col: (f.content_col - 1) as usize, ..f }, FocusAction::NoAction)
        } else {
            (FocusState { zone: FocusZone::Menu, ..f }, FocusAction::NoAction)
        },
        Key::ArrowRight => (
            FocusState { content_col: (f.content_col + 1) as usize, ..f },
            FocusAction::NoAction,
        ),
        _ => (f, FocusAction::NoAction),
    }
}

/// An arrow key on the menu; its flyout has three items.
pub open spec fn menu_arrow(f: FocusState, key: Key) -> (FocusState, FocusAction) {
    match key {
        Key::ArrowUp => if f.menu_expanded && f.menu_index > 0 {
            (FocusState { menu_index: (f.menu_index - 1) as usize, ..f }, FocusAction::NoAction)
        } else {
            (f, FocusAction::NoAction)
        },
        Key::ArrowDown => if f.menu_expanded && f.menu_index < 2 {
            (FocusState { menu_index: (f.menu_index + 1) as usize, ..f }, FocusAction::NoAction)
        } else {
            (FocusState { zone: FocusZone::Transport, transport_index: 0, ..f }, FocusAction::NoAction)
        },
        Key::ArrowRight => if f.menu_expanded {
            (f, FocusAction::Activate)
        } else {
            (FocusState { zone: FocusZone::Content, content_col: 0, ..f }, FocusAction::NoAction)
        },
        _ => (f, FocusAction::NoAction),
    }
}

/// An arrow key on the transport bar, which has `controls` controls.
pub open spec fn transport_arrow(f: FocusState, key: Key, controls: int) -> (FocusState, FocusAction) {
    match key {
        Key::ArrowUp => (FocusState { zone: FocusZone::Content, ..f }, FocusAction::NoAction),
        Key::ArrowLeft => if f.transport_index > 0 {
            (FocusState { transport_index: (f.transport_index - 1) as usize, ..f }, FocusAction::NoAction)
        } else {
            (f, FocusAction::NoAction)
        },
        Key::ArrowRight => if f.transport_index + 1 < controls {
            (FocusState { transport_index: (f.transport_index + 1) as usize, ..f }, FocusAction::NoAction)
        } else {
            (f, FocusAction::NoAction)
        },
        _ => (f, FocusAction::NoAction),
    }
}

/// The effect of an arrow key, by focus zone. The header zone of the
/// detail views does not move under arrow keys.
pub open spec fn arrow_result(f: FocusState, key: Key, rows: int, controls: int) -> (FocusState, FocusAction) {
    match f.zone {
        FocusZone::Content => content_arrow(f, key, rows),
        FocusZone::Menu => menu_arrow(f, key),
        FocusZone::Transport => transport_arrow(f, key, controls),
        FocusZone::Header => (f, FocusAction::NoAction),
    }
}

/// Moves the focus for an arrow key; `num_content_rows` rows are in the
/// content area and `num_transport_controls` controls on the transport bar.
pub fn handle_arrow(
    focus: &mut FocusState,
    key: Key,
    num_content_rows: usize,
    num_transport_controls: usize,
) -> (r: FocusAction)
    requires
        old(focus).zone == FocusZone::Content && key == Key::ArrowRight ==> old(focus).content_col
            < usize::MAX,
    ensures
        (*final(focus), r) == arrow_result(
            *old(focus),
            key,
            num_content_rows as int,
            num_transport_controls as int,
        ),
{
    match focus.zone {
        FocusZone::Content => handle_content_arrow(focus, key, num_content_rows),
        FocusZone::Menu => handle_menu_arrow(focus, key),
        FocusZone::Transport => handle_transport_arrow(focus, key, num_transport_controls),
        FocusZone::Header => FocusAction::NoAction,
    }
}

fn handle_content_arrow(focus: &mut FocusState, key: Key, num_rows: usize) -> (r: FocusAction)
    requires
        key == Key::ArrowRight ==> old(focus).content_col < usize::MAX,
    ensures
        (*final(focus), r) == content_arrow(*old(focus), key, num_rows as int),
{
    match key {
        Key::ArrowUp => {
            if focus.content_row > 0 {
                focus.content_row = focus.content_row - 1;
            }
            FocusAction::NoAction
        },
        Key::ArrowDown => {
            if num_rows > 0 && focus.content_row < num_rows - 1 {
                focus.content_row = focus.content_row + 1;
            } else {
                focus.zone = FocusZone::Transport;
                focus.transport_index = 0;
            }
            FocusAction::NoAction
        },
        Key::ArrowLeft => {
            if focus.content_col > 0 {
                focus.content_col = focus.content_col - 1;
            } else {
                focus.zone = FocusZone::Menu;
            }
            FocusAction::NoAction
        },
        Key::ArrowRight => {
            focus.content_col = focus.content_col + 1;
            FocusAction::NoAction
        },
        _ => FocusAction::NoAction,
    }
}

fn handle_menu_arrow(focus: &mut FocusState, key: Key) -> (r: FocusAction)
    ensures
        (*final(focus), r) == menu_arrow(*old(focus), key),
{
    match key {
        Key::ArrowUp => {
            if focus.menu_expanded && focus.menu_index > 0 {
                focus.menu_index = focus.menu_index - 1;
            }
            FocusAction::NoAction
        },
        Key::ArrowDown => {
            if focus.menu_expanded && focus.menu_index < 2 {
                focus.menu_index = focus.menu_index + 1;
            } else {
                focus.zone = FocusZone::Transport;
                focus.transport_index = 0;
            }
            FocusAction::NoAction
        },
        Key::ArrowRight => {
            if focus.menu_expanded {
                FocusAction::Activate
            } else {
                focus.zone = FocusZone::Content;
                focus.content_col = 0;
                FocusAction::NoAction
            }
        },
        _ => FocusAction::NoAction,
    }
}

fn handle_transport_arrow(focus: &mut FocusState, key: Key, num_controls: usize) -> (r: FocusAction)
    ensures
        (*final(focus), r) == transport_arrow(*old(focus), key, num_controls as int),
{
    match key {
        Key::ArrowUp => {
            focus.zone = FocusZone::Content;
            FocusAction::NoAction
        },
        Key::ArrowLeft => {
            if focus.transport_index > 0 {
                focus.transport_index = focus.transport_index - 1;
            }
            FocusAction::NoAction
        },
        Key::ArrowRight => {
            if num_controls > 0 && focus.transport_index < num_controls - 1 {
                focus.transport_index = focus.transport_index + 1;
            }
            FocusAction::NoAction
        },
        _ => FocusAction::NoAction,
    }
}

/// The zone transitions of the remote: Down from the last content row and
/// Down from the menu land on the first transport control; Up from the
/// transport bar returns to the content area (never to the menu); Left from
/// the leftmost content item reaches the menu; Right from the collapsed
/// menu returns to the leftmost content item.
pub proof fn lemma_zone_transitions(f: FocusState, rows: int, controls: int)
    ensures
        f.zone == FocusZone::Content && f.content_row + 1 >= rows ==> arrow_result(f, Key::ArrowDown, rows, controls).0.zone == FocusZone::Transport
            && arrow_result(f, Key::ArrowDown, rows, controls).0.transport_index == 0,
        f.zone == FocusZone::Transport ==> arrow_result(f, Key::ArrowUp, rows, controls).0.zone == FocusZone::Content,
        f.zone == FocusZone::Content && f.content_col == 0 ==> arrow_result(f, Key::ArrowLeft, rows, controls).0.zone == FocusZone::Menu,
        f.zone == FocusZone::Menu && !f.menu_expanded ==> arrow_result(f, Key::ArrowRight, rows, controls).0.zone == FocusZone::Content
            && arrow_result(f, Key::ArrowRight, rows, controls).0.content_col == 0,
        f.zone == FocusZone::Menu && (!f.menu_expanded || f.menu_index >= 2) ==> arrow_result(f, Key::ArrowDown, rows, controls).0.zone == FocusZone::Transport
            && arrow_result(f, Key::ArrowDown, rows, controls).0.transport_index == 0,
{
}

/// Arrow keys keep the cursors in range: a content row below `rows`, a
/// transport index below `controls` and a menu index of at most 2 stay so;
/// the menu's expanded flag and the header cursor are never changed.
pub proof fn lemma_arrow_keeps_bounds(f: FocusState, key: Key, rows: int, controls: int)
    requires
        f.content_row < rows,
        f.transport_index < controls,
        f.menu_index <= 2,
    ensures
        arrow_result(f, key, rows, controls).0.content_row < rows,
        arrow_result(f, key, rows, controls).0.transport_index < controls,
        arrow_result(f, key, rows, controls).0.menu_index <= 2,
        arrow_result(f, key, rows, controls).0.menu_expanded == f.menu_expanded,
        arrow_result(f, key, rows, controls).0.header_index == f.header_index,
{
}

/// Left and Right on the transport bar step one control at a time and undo
/// each other: Left from any control but the first moves to the previous
/// one, and Right then returns to it; Right from any control but the last
/// moves to the next one, and Left then returns to it.
pub proof fn lemma_transport_left_right(f: FocusState, rows: int, controls: int)
    requires
        f.zone == FocusZone::Transport,
        f.transport_index < controls <= usize::MAX,
    ensures
        f.transport_index > 0 ==> arrow_result(f, Key::ArrowLeft, rows, controls).0.transport_index
            == f.transport_index - 1,
        f.transport_index > 0 ==> arrow_result(
            arrow_result(f, Key::ArrowLeft, rows, controls).0,
            Key::ArrowRight,
            rows,
            controls,
        ).0 == f,
        f.transport_index + 1 < controls ==> arrow_result(f, Key::ArrowRight, rows, controls).0.transport_index
            == f.transport_index + 1,
        f.transport_index + 1 < controls ==> arrow_result(
            arrow_result(f, Key::ArrowRight, rows, controls).0,
            Key::ArrowLeft,
            rows,
            controls,
        ).0 == f,
        arrow_result(f, Key::ArrowLeft, rows, controls).0.zone == FocusZone::Transport,
        arrow_result(f, Key::ArrowRight, rows, controls).0.zone == FocusZone::Transport,
{
}

/// Up and Down undo each other between content rows, and between the
/// entries of the expanded menu; Left and Right undo each other between
/// content columns.
pub proof fn lemma_arrows_undo_each_other(f: FocusState, rows: int, controls: int)
    requires
        f.content_row < rows <= usize::MAX,
        f.content_col < usize::MAX,
    ensures
        f.zone == FocusZone::Content && f.content_row > 0 ==> arrow_result(
            arrow_result(f, Key::ArrowUp, rows, controls).0,
            Key::ArrowDown,
            rows,
            controls,
        ).0 == f,
        f.zone == FocusZone::Content && f.content_row + 1 < rows ==> arrow_result(
            arrow_result(f, Key::ArrowDown, rows, controls).0,
            Key::ArrowUp,
            rows,
            controls,
        ).0 == f,
        f.zone == FocusZone::Content ==> arrow_result(
            arrow_result(f, Key::ArrowRight, rows, controls).0,
            Key::ArrowLeft,
            rows,
            controls,
        ).0 == f,
        f.zone == FocusZone::Content && f.content_col > 0 ==> arrow_result(
            arrow_result(f, Key::ArrowLeft, rows, controls).0,
            Key::ArrowRight,
            rows,
            controls,
        ).0 == f,
        f.zone == FocusZone::Menu && f.menu_expanded && 0 < f.menu_index <= 2 ==> arrow_result(
            arrow_result(f, Key::ArrowUp, rows, controls).0,
            Key::ArrowDown,
            rows,
            controls,
        ).0 == f,
        f.zone == FocusZone::Menu && f.menu_expanded && f.menu_index < 2 ==> arrow_result(
            arrow_result(f, Key::ArrowDown, rows, controls).0,
            Key::ArrowUp,
            rows,
            controls,
        ).0 == f,
{
}

} // verus!
