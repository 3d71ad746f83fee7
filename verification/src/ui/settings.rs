use vstd::prelude::*;
use vstd::view::View as _;
use crate::app::push_toast;
use crate::state::{AppState, Toast};

verus! {

/// The Clear Cache button says so in a toast for three seconds.
pub fn clear_cache_pressed(state: &mut AppState)
    ensures
        final(state).toasts@.len() == old(state).toasts@.len() + 1,
        final(state).toasts@.drop_last() == old(state).toasts@,
        final(state).toasts@.last().message@ == "Cache cleared"@,
        final(state).toasts@.last().ttl_ms == 3000,
        *final(state) == (AppState { toasts: final(state).toasts, ..*old(state) }),
{
    let ghost s0 = *state;
    push_toast(state, String::from_str("Cache cleared"), 3000);
    assert(state.toasts@.drop_last() =~= s0.toasts@);
}

} // verus!
