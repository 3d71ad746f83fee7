use vstd::prelude::*;
use vstd::string::*;
use crate::state::Toast;
use crate::subsonic::models::Track;
use crate::text::{decimal, decimal_string, digit_char, digit_of, string_from_chars};

verus! {

/// The Play Now / Shuffle / Add to Queue flyout.
///
/// `album_id` is set when the menu was opened on an album card;
/// `track_index` when it was opened on a track row. Both are `None` while
/// the menu is closed.
#[derive(Debug)]
pub struct ContextMenuState {
    pub open: bool,
    /// Album the menu was opened on (None for track rows).
    pub album_id: Option<String>,
    /// Track index within the current track list when opened on a row.
    pub track_index: Option<usize>,
    /// Currently highlighted item (0..3).
    pub selected: usize,
}

/// The entries of the context menu.
#[derive(Debug, Clone, Copy, PartialEq, Eq, Structural)]
pub enum ContextMenuAction {
    PlayNow,
    Shuffle,
    AddToQueue,
}

/// The number of entries of the context menu.
pub const MENU_ITEMS: usize = 3;

/// The action of the menu entry at `i`; every index past the second is
/// Add to Queue.
pub open spec fn item_action(i: int) -> ContextMenuAction {
    if i == 0 {
        ContextMenuAction::PlayNow
    } else if i == 1 {
        ContextMenuAction::Shuffle
    } else {
        ContextMenuAction::AddToQueue
    }
}

/// The action of the menu entry at `i`.
pub fn action_for_item(i: usize) -> (r: ContextMenuAction)
    ensures
        r == item_action(i as int),
{
    match i {
        0 => ContextMenuAction::PlayNow,
        1 => ContextMenuAction::Shuffle,
        _ => ContextMenuAction::AddToQueue,
    }
}

impl Default for ContextMenuState {
    fn default() -> (r: Self)
        ensures
            !r.open,
            r.album_id is None,
            r.track_index is None,
            r.selected == 0,
    {
        ContextMenuState { open: false, album_id: None, track_index: None, selected: 0 }
    }
}

impl ContextMenuState {
    /// Open the menu anchored on an album card.
    pub fn open_for_album(&mut self, album_id: String)
        ensures
            final(self).open,
            final(self).album_id == Some(album_id),
            final(self).track_index is None,
            final(self).selected == 0,
    {
        self.open = true;
        self.album_id = Some(album_id);
        self.track_index = None;
        self.selected = 0;
    }

    /// Open the menu anchored on a track row of the current track list.
    pub fn open_for_track(&mut self, track_index: usize)
        ensures
            final(self).open,
            final(self).album_id is None,
            final(self).track_index == Some(track_index),
            final(self).selected == 0,
    {
        self.open = true;
        self.album_id = None;
        self.track_index = Some(track_index);
        self.selected = 0;
    }

    /// Close the menu; the highlighted entry is kept.
    pub fn close(&mut self)
        ensures
            !final(self).open,
            final(self).album_id is None,
            final(self).track_index is None,
            final(self).selected == old(self).selected,
    {
        self.open = false;
        self.album_id = None;
        self.track_index = None;
    }

    /// One frame of input on an open menu: Up/Down move the highlight
    /// within the three entries, Enter picks the highlighted entry, a click
    /// on entry `clicked` picks that one, Escape or Left close the menu.
    /// A pick closes the menu too. A closed menu ignores input.
    pub fn handle_input(
        &mut self,
        up: bool,
        down: bool,
        enter: bool,
        escape: bool,
        left: bool,
        clicked: Option<usize>,
    ) -> (r: Option<ContextMenuAction>)
        ensures
            !old(self).open ==> r is None && *final(self) == *old(self),
            old(self).open ==> {
                let s1 = if up && old(self).selected > 0 {
                    (old(self).selected - 1) as int
                } else {
                    old(self).selected as int
                };
                let s2 = if down && s1 + 1 < 3 { s1 + 1 } else { s1 };
                &&& final(self).selected == s2
                &&& r == (match clicked {
                    Some(i) => Some(item_action(i as int)),
                    None => if enter { Some(item_action(s2)) } else { None },
                })
                &&& final(self).open == !(enter || escape || left || clicked is Some)
                &&& if final(self).open {
                    final(self).album_id == old(self).album_id
                        && final(self).track_index == old(self).track_index
                } else {
                    final(self).album_id is None && final(self).track_index is None
                }
            },
    {
        if !self.open {
            return None;
        }
        let mut action: Option<ContextMenuAction> = None;
        let mut close = false;
        if up {
            if self.selected > 0 {
                self.selected = self.selected - 1;
            }
        }
        if down {
            if self.selected < MENU_ITEMS - 1 {
                self.selected = self.selected + 1;
            }
        }
        if enter {
            action = Some(action_for_item(self.selected));
            close = true;
        }
        if escape || left {
            close = true;
        }
        if let Some(i) = clicked {
            action = Some(action_for_item(i));
            close = true;
        }
        if close {
            self.close();
        }
        action
    }
}

/// Removes the expired toasts of `s` the way a backwards sweep of
/// swap-removals does: from index `k - 1` down to 0, an expired toast
/// (time left 0) is replaced by the last toast and the list shortened.
pub open spec fn sweep_expired(s: Seq<Toast>, k: nat) -> Seq<Toast>
    decreases k,
{
    if k == 0 || k > s.len() {
        s
    } else if s[k - 1].ttl_ms == 0 {
        sweep_expired(s.update(k - 1, s.last()).drop_last(), (k - 1) as nat)
    } else {
        sweep_expired(s, (k - 1) as nat)
    }
}

/// A toast after `elapsed_ms` more milliseconds on screen; 0 means expired.
pub open spec fn aged(t: Toast, elapsed_ms: u32) -> Toast {
    Toast {
        ttl_ms: if t.ttl_ms > elapsed_ms { (t.ttl_ms - elapsed_ms) as u32 } else { 0 },
        ..t
    }
}

/// Every toast of `s` aged by `elapsed_ms`.
pub open spec fn aged_all(s: Seq<Toast>, elapsed_ms: u32) -> Seq<Toast> {
    s.map_values(|t: Toast| aged(t, elapsed_ms))
}

/// Ages the toasts by the time of one frame and drops those whose time is up.
pub fn tick_toasts(toasts: &mut Vec<Toast>, elapsed_ms: u32)
    ensures
        final(toasts)@ == sweep_expired(
            aged_all(old(toasts)@, elapsed_ms),
            old(toasts)@.len(),
        ),
{
    let ghost orig = toasts@;
    let mut aged_list: Vec<Toast> = Vec::new();
    let mut i: usize = 0;
    while i < toasts.len()
        invariant
            toasts@ == orig,
            i <= toasts.len(),
            aged_list@ == aged_all(orig, elapsed_ms).subrange(0, i as int),
        decreases toasts.len() - i,
    {
        let t = &toasts[i];
        let ttl = if t.ttl_ms > elapsed_ms {
            t.ttl_ms - elapsed_ms
        } else {
            0
        };
        aged_list.push(Toast { message: t.message.clone(), ttl_ms: ttl });
        proof {
            assert(aged_all(orig, elapsed_ms).subrange(0, i + 1) =~= aged_all(
                orig,
                elapsed_ms,
            ).subrange(0, i as int).push(aged(orig[i as int], elapsed_ms)));
        }
        i = i + 1;
    }
    let ghost full = aged_all(orig, elapsed_ms);
    assert(aged_list@ =~= full);
    let n = aged_list.len();
    let mut k: usize = n;
    while k > 0
        invariant
            k <= aged_list.len(),
            n == orig.len(),
            sweep_expired(aged_list@, k as nat) == sweep_expired(full, n as nat),
        decreases k,
    {
        if aged_list[k - 1].ttl_ms == 0 {
            aged_list.swap_remove(k - 1);
        }
        k = k - 1;
    }
    *toasts = aged_list;
}

/// Sweeping keeps exactly the toasts whose time is not up: every toast
/// left has time left and was in the list, and every toast of the list with
/// time left is still there. (It is stated for a sweep from index `k` when
/// the toasts from `k` on all have time left; a whole-list sweep is the
/// case `k == s.len()`.)
pub proof fn lemma_sweep_keeps_live(s: Seq<Toast>, k: nat)
    requires
        k <= s.len(),
        forall|j: int| k <= j < s.len() ==> s[j].ttl_ms > 0,
    ensures
        forall|j: int|
            0 <= j < sweep_expired(s, k).len() ==> sweep_expired(s, k)[j].ttl_ms > 0 && s.contains(
                sweep_expired(s, k)[j],
            ),
        forall|x: Toast| s.contains(x) && x.ttl_ms > 0 ==> sweep_expired(s, k).contains(x),
    decreases k,
{
    if k == 0 {
        assert(sweep_expired(s, k) == s);
        assert forall|j: int| 0 <= j < s.len() implies s[j].ttl_ms > 0 && s.contains(s[j]) by {
            assert(s[j] == s[j]);
        }
    } else if s[k - 1].ttl_ms == 0 {
        let s2 = s.update(k - 1, s.last()).drop_last();
        assert forall|j: int| (k - 1) <= j < s2.len() implies s2[j].ttl_ms > 0 by {
            if j == k - 1 {
                assert(s2[j] == s[s.len() - 1]);
            } else {
                assert(s2[j] == s[j]);
            }
        }
        lemma_sweep_keeps_live(s2, (k - 1) as nat);
        let r = sweep_expired(s2, (k - 1) as nat);
        assert(sweep_expired(s, k) == r);
        assert forall|j: int| 0 <= j < r.len() implies r[j].ttl_ms > 0 && s.contains(r[j]) by {
            assert(s2.contains(r[j]));
            let i = choose|i: int| 0 <= i < s2.len() && s2[i] == r[j];
            if i == k - 1 {
                assert(s[s.len() - 1] == r[j]);
            } else {
                assert(s[i] == r[j]);
            }
        }
        assert forall|x: Toast| s.contains(x) && x.ttl_ms > 0 implies r.contains(x) by {
            let i = choose|i: int| 0 <= i < s.len() && s[i] == x;
            if i == s.len() - 1 {
                assert(s2[k - 1] == x);
            } else {
                assert(i != k - 1);
                assert(s2[i] == x);
            }
            assert(s2.contains(x));
        }
    } else {
        lemma_sweep_keeps_live(s, (k - 1) as nat);
        assert(sweep_expired(s, k) == sweep_expired(s, (k - 1) as nat));
    }
}

/// A tick keeps exactly the aged toasts whose time is not up.
pub proof fn lemma_tick_keeps_live_toasts(toasts: Seq<Toast>, elapsed_ms: u32)
    ensures
        forall|j: int|
            0 <= j < sweep_expired(aged_all(toasts, elapsed_ms), toasts.len()).len()
                ==> #[trigger] sweep_expired(aged_all(toasts, elapsed_ms), toasts.len())[j].ttl_ms > 0
                && aged_all(toasts, elapsed_ms).contains(
                sweep_expired(aged_all(toasts, elapsed_ms), toasts.len())[j],
            ),
        forall|i: int|
            0 <= i < toasts.len() && toasts[i].ttl_ms > elapsed_ms ==> sweep_expired(
                aged_all(toasts, elapsed_ms),
                toasts.len(),
            ).contains(aged(toasts[i], elapsed_ms)),
{
    let a = aged_all(toasts, elapsed_ms);
    lemma_sweep_keeps_live(a, toasts.len());
    assert forall|i: int| 0 <= i < toasts.len() && toasts[i].ttl_ms > elapsed_ms implies sweep_expired(
        a,
        toasts.len(),
    ).contains(aged(toasts[i], elapsed_ms)) by {
        assert(a[i] == aged(toasts[i], elapsed_ms));
        assert(a.contains(a[i]));
    }
}


// ── Highlighting ───────────────────────────────────────────────────────────

/// How a card, thumbnail, button or row is highlighted.
#[derive(Debug, Clone, Copy, PartialEq, Eq, Structural)]
pub enum Shade {
    /// The row of the track that is playing.
    Current,
    /// The widget with the keyboard focus.
    Focused,
    /// The widget under the mouse.
    Hovered,
    /// No highlight.
    Plain,
}

/// The focus highlight wins over the mouse hover.
pub open spec fn shade_of(focused: bool, hovered: bool) -> Shade {
    if focused {
        Shade::Focused
    } else if hovered {
        Shade::Hovered
    } else {
        Shade::Plain
    }
}

/// The highlight of a card, album thumbnail or header button.
pub fn widget_shade(focused: bool, hovered: bool) -> (r: Shade)
    ensures
        r == shade_of(focused, hovered),
{
    if focused {
        Shade::Focused
    } else if hovered {
        Shade::Hovered
    } else {
        Shade::Plain
    }
}

/// The highlight of a track row: the playing track is marked whatever the
/// focus, then focus and hover as for other widgets.
pub fn track_row_shade(is_current: bool, focused: bool, hovered: bool) -> (r: Shade)
    ensures
        is_current ==> r == Shade::Current,
        !is_current ==> r == shade_of(focused, hovered),
{
    if is_current {
        Shade::Current
    } else {
        widget_shade(focused, hovered)
    }
}

// ── Track rows ─────────────────────────────────────────────────────────────

/// `m:ss`: whole minutes, a colon, and the seconds on two digits.
pub open spec fn clock_text(secs: nat) -> Seq<char> {
    decimal(secs / 60) + seq![':', digit_char((secs % 60) / 10), digit_char((secs % 60) % 10)]
}

/// A duration or play position in seconds as `m:ss`.
pub fn format_duration(secs: u64) -> (r: String)
    ensures
        r@ == clock_text(secs as nat),
{
    let minutes = decimal_string(secs / 60);
    let s = secs % 60;
    let tail: Vec<char> = vec![':', digit_of(s / 10), digit_of(s % 10)];
    let tail_text = string_from_chars(tail.as_slice());
    let mut r = minutes;
    r.append(tail_text.as_str());
    proof {
        assert(tail@ =~= seq![':', digit_char((secs as nat % 60) / 10), digit_char((secs as nat % 60) % 10)]);
    }
    r
}

/// What a track row shows before the title: a play marker on the track
/// that is playing, else the track's number, or its position in the list
/// (counted from one) when it has none.
pub open spec fn row_prefix(track_number: Option<u32>, index: nat, is_current: bool) -> Seq<char> {
    if is_current {
        seq!['\u{25B6}']
    } else {
        match track_number {
            Some(n) => decimal(n as nat),
            None => decimal(index + 1),
        }
    }
}

/// The text before the title of the track row at `index`.
pub fn track_row_prefix(track: &Track, index: usize, is_current: bool) -> (r: String)
    requires
        index < u32::MAX,
    ensures
        r@ == row_prefix(track.track_number, index as nat, is_current),
{
    if is_current {
        let marker: Vec<char> = vec!['\u{25B6}'];
        proof {
            assert(marker@ =~= seq!['\u{25B6}']);
        }
        string_from_chars(marker.as_slice())
    } else {
        match track.track_number {
            Some(n) => decimal_string(n as u64),
            None => decimal_string(index as u64 + 1),
        }
    }
}

/// The duration shown at the right of a track row.
pub fn track_row_duration(track: &Track) -> (r: String)
    ensures
        r@ == clock_text(track.duration_secs as nat),
{
    format_duration(track.duration_secs as u64)
}

} // verus!
