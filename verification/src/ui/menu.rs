use vstd::prelude::*;
use vstd::view::View as _;
use crate::state::{AppState, FocusState, FocusZone, View};

verus! {

/// The view each entry of the hamburger flyout opens: Search, Settings,
/// Now Playing.
pub open spec fn menu_item_view(i: int) -> Option<View> {
    if i == 0 {
        Some(View::Search)
    } else if i == 1 {
        Some(View::Settings)
    } else if i == 2 {
        Some(View::NowPlaying)
    } else {
        None
    }
}

/// The collapsed menu button expands the flyout when it is clicked, or when
/// Enter is pressed while the menu has the focus.
pub fn press_menu_button(state: &mut AppState, clicked: bool, enter_pressed: bool)
    ensures
        (clicked || (old(state).focus.zone == FocusZone::Menu && enter_pressed)) ==> *final(state) == (AppState {
            focus: FocusState { menu_expanded: true, ..old(state).focus },
            ..*old(state)
        }),
        !(clicked || (old(state).focus.zone == FocusZone::Menu && enter_pressed)) ==> *final(state) == *old(state),
{
    if clicked || (state.focus.zone == FocusZone::Menu && enter_pressed) {
        state.focus.menu_expanded = true;
    }
}

/// Whether picking entry `i` opens a view: Now Playing only while
/// something plays or the queue holds tracks.
pub open spec fn menu_item_opens(s: AppState, i: int) -> bool {
    menu_item_view(i) matches Some(v) && (v != View::NowPlaying || s.is_playing || s.play_queue@.len() > 0)
}

/// `s1` is `s0` after picking entry `i` of the flyout: its view is
/// pushed (see `menu_item_opens`) and the menu collapses.
pub open spec fn menu_item_picked(s0: AppState, s1: AppState, i: int) -> bool {
    &&& menu_item_opens(s0, i) ==> s1.view_stack@ == s0.view_stack@.push(menu_item_view(i)->0)
    &&& !menu_item_opens(s0, i) ==> s1.view_stack == s0.view_stack
    &&& s1 == AppState {
        focus: FocusState { menu_expanded: false, ..s0.focus },
        view_stack: s1.view_stack,
        ..s0
    }
}

/// Enter on the menu: the collapsed menu expands; on the expanded flyout
/// the highlighted entry is picked.
pub open spec fn menu_enter_done(s0: AppState, s1: AppState) -> bool {
    if s0.focus.menu_expanded {
        menu_item_picked(s0, s1, s0.focus.menu_index as int)
    } else {
        s1 == AppState { focus: FocusState { menu_expanded: true, ..s0.focus }, ..s0 }
    }
}

/// Enter while the menu has the focus.
pub fn menu_enter(state: &mut AppState)
    ensures
        menu_enter_done(*old(state), *final(state)),
{
    if state.focus.menu_expanded {
        let i = state.focus.menu_index;
        click_menu_item(state, i);
    } else {
        state.focus.menu_expanded = true;
    }
}

/// Clicking entry `i` of the flyout opens its view (Now Playing only
/// while something plays or a queue exists) and collapses the menu.
pub fn click_menu_item(state: &mut AppState, i: usize)
    ensures
        menu_item_picked(*old(state), *final(state), i as int),
{
    match i {
        0 => state.push_view(View::Search),
        1 => state.push_view(View::Settings),
        2 => {
            if state.is_playing || state.play_queue.len() > 0 {
                state.push_view(View::NowPlaying);
            }
        },
        _ => {},
    }
    state.focus.menu_expanded = false;
}

} // verus!
