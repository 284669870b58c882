//! The overlay-set controller: the process-wide state machine that owns the
//! collection of overlay windows, the shared fill color and the visibility
//! flag, and that implements show-all, hide-all, toggle, recolor and the
//! dismiss gesture.
//!
//! Every transition is a single read-modify-write of the one `App` value, so
//! a re-entrant handler always observes a fully updated state, never a
//! partial one. Monitor enumeration and window creation are platform work;
//! their outcome enters here as plain values (the monitor snapshot and, per
//! monitor, the handle of the created window or `None` where creation
//! failed).

use vstd::prelude::*;
use crate::color_window::ColorWindow;
use crate::config::Config;
use crate::config::HotkeyConfig;
use crate::monitor::MonitorInfo;

verus! {

/// The initial fill color: black.
pub const DEFAULT_COLOR: u32 = 0x00000000;

/// The message a fired global hotkey arrives as, and the registration
/// identifier of the one toggle hotkey.
pub const MSG_HOTKEY: u32 = 0x0312;
pub const HOTKEY_TOGGLE: usize = 1;

/// Whether a message-loop message is the toggle hotkey firing.
pub fn is_toggle_hotkey(msg: u32, wparam: usize) -> (r: bool)
    ensures
        r == (msg == MSG_HOTKEY && wparam == HOTKEY_TOGGLE),
{
    msg == MSG_HOTKEY && wparam == HOTKEY_TOGGLE
}

/// The abstract state of the overlay set, as the contracts speak of it.
#[verifier::ext_equal]
pub struct AppView {
    pub windows: Seq<ColorWindow>,
    pub color: u32,
    pub visible: bool,
    pub cursor_hidden: bool,
    pub hotkey: HotkeyConfig,
}

impl AppView {
    /// The internal invariant of the controller: while hidden, no window is
    /// shown and the cursor is restored; while visible, every window of the
    /// set is shown and top-most, and the cursor is suppressed exactly when
    /// the set is non-empty; and every window displays the shared color.
    pub open spec fn wf(self) -> bool {
        &&& (!self.visible ==> {
            &&& forall|i: int| 0 <= i < self.windows.len() ==> !(#[trigger] self.windows[i]).shown
            &&& !self.cursor_hidden
        })
        &&& (self.visible ==> {
            &&& forall|i: int| 0 <= i < self.windows.len()
                ==> (#[trigger] self.windows[i]).shown && self.windows[i].topmost
            &&& (self.cursor_hidden <==> self.windows.len() > 0)
        })
        &&& forall|i: int| 0 <= i < self.windows.len()
            ==> (#[trigger] self.windows[i]).color == self.color
    }
}

/// The window `show_all` ends up with for a monitor whose creation
/// succeeded: it covers the monitor's rectangle, shows the shared color,
/// and is shown and top-most.
pub open spec fn spec_window_for(m: MonitorInfo, color: u32, handle: usize) -> ColorWindow {
    ColorWindow { handle, rect: m.rect, color, shown: true, topmost: true }
}

/// The window collection `show_all` builds: one window per enumerated
/// monitor whose creation succeeded, in enumeration order, each covering
/// its monitor's rectangle and filled with `color`.
pub open spec fn spec_built(
    monitors: Seq<MonitorInfo>,
    handles: Seq<Option<usize>>,
    color: u32,
) -> Seq<ColorWindow>
    decreases monitors.len(),
{
    if monitors.len() == 0 || handles.len() == 0 {
        Seq::empty()
    } else {
        spec_built(monitors.drop_last(), handles.drop_last(), color) + (
        if handles.last() is Some {
            seq![spec_window_for(monitors.last(), color, handles.last()->0)]
        } else {
            Seq::empty()
        })
    }
}

/// How many of the attempted window creations succeeded.
pub open spec fn count_some(handles: Seq<Option<usize>>) -> int
    decreases handles.len(),
{
    if handles.len() == 0 {
        0
    } else {
        count_some(handles.drop_last()) + if handles.last() is Some {
            1int
        } else {
            0int
        }
    }
}

/// The effect of `show_all`: the set is rebuilt from the given monitor
/// snapshot, every new window carries the current color, the state becomes
/// visible, and the cursor is suppressed exactly when anything was built.
pub open spec fn spec_show_all(
    v: AppView,
    monitors: Seq<MonitorInfo>,
    handles: Seq<Option<usize>>,
) -> AppView {
    let ws = spec_built(monitors, handles, v.color);
    AppView { windows: ws, visible: true, cursor_hidden: ws.len() > 0, ..v }
}

/// The effect of `hide_all` on one window.
pub open spec fn spec_hidden_window(w: ColorWindow) -> ColorWindow {
    ColorWindow { shown: false, ..w }
}

/// The effect of `hide_all`: every window of the set is hidden, the cursor
/// is restored, and the state becomes hidden; the windows themselves are
/// retained, with color and geometry untouched.
pub open spec fn spec_hide_all(v: AppView) -> AppView {
    AppView {
        windows: v.windows.map(|i: int, w: ColorWindow| spec_hidden_window(w)),
        visible: false,
        cursor_hidden: false,
        ..v
    }
}

/// The effect of `set_color`: the shared color changes and is pushed to
/// every window of the set at once, whatever the visibility state.
pub open spec fn spec_set_color(v: AppView, color: u32) -> AppView {
    AppView {
        windows: v.windows.map(|i: int, w: ColorWindow| ColorWindow { color, ..w }),
        color,
        ..v
    }
}

/// The effect of `toggle`: hide when visible, show when hidden.
pub open spec fn spec_toggle(
    v: AppView,
    monitors: Seq<MonitorInfo>,
    handles: Seq<Option<usize>>,
) -> AppView {
    if v.visible {
        spec_hide_all(v)
    } else {
        spec_show_all(v, monitors, handles)
    }
}

/// The effect of `set_hotkey`: only the stored binding changes.
pub open spec fn spec_set_hotkey(v: AppView, modifiers: u32, key: u32) -> AppView {
    AppView { hotkey: HotkeyConfig { modifiers, key }, ..v }
}

/// The initial state: hidden, empty, black, with the configured binding.
pub open spec fn spec_initial(hotkey: HotkeyConfig) -> AppView {
    AppView {
        windows: Seq::empty(),
        color: DEFAULT_COLOR,
        visible: false,
        cursor_hidden: false,
        hotkey,
    }
}

/// The overlay-set controller. Exactly one instance exists for the process
/// lifetime; every event handler mutates it through the methods below and
/// through nothing else.
pub struct App {
    windows: Vec<ColorWindow>,
    color: u32,
    visible: bool,
    cursor_hidden: bool,
    hotkey: HotkeyConfig,
}

impl View for App {
    type V = AppView;

    closed spec fn view(&self) -> AppView {
        AppView {
            windows: self.windows@,
            color: self.color,
            visible: self.visible,
            cursor_hidden: self.cursor_hidden,
            hotkey: self.hotkey,
        }
    }
}

impl App {
    /// A fresh controller: hidden, no windows, black fill, the configured
    /// hotkey binding.
    pub fn new(config: Config) -> (app: App)
        ensures
            app@ == spec_initial(config.hotkey),
            app@.wf(),
    {
        let app = App {
            windows: Vec::new(),
            color: DEFAULT_COLOR,
            visible: false,
            cursor_hidden: false,
            hotkey: config.hotkey,
        };
        proof {
            assert(app@ =~= spec_initial(config.hotkey));
        }
        app
    }

    /// The current visibility flag.
    pub fn is_visible(&self) -> (b: bool)
        ensures
            b == self@.visible,
    {
        self.visible
    }

    /// The current shared fill color.
    pub fn color(&self) -> (c: u32)
        ensures
            c == self@.color,
    {
        self.color
    }

    /// Whether the controller currently keeps the system cursor suppressed.
    pub fn cursor_hidden(&self) -> (b: bool)
        ensures
            b == self@.cursor_hidden,
    {
        self.cursor_hidden
    }

    /// The current hotkey binding.
    pub fn hotkey(&self) -> (hk: HotkeyConfig)
        ensures
            hk == self@.hotkey,
    {
        self.hotkey
    }

    /// How many overlay windows currently exist.
    pub fn window_count(&self) -> (n: usize)
        ensures
            n == self@.windows.len(),
    {
        self.windows.len()
    }

    /// The window at position `i` of the set, in enumeration order.
    pub fn window_at(&self, i: usize) -> (w: ColorWindow)
        requires
            i < self@.windows.len(),
        ensures
            w == self@.windows[i as int],
    {
        self.windows[i]
    }

    /// Rebuild the overlay set from the given monitor snapshot and show it.
    ///
    /// `handles[i]` is the handle of the window the platform created for
    /// `monitors[i]`, or `None` where that creation failed; a failed
    /// creation skips that monitor and never aborts the rest. Zero monitors,
    /// or all creations failing, still ends in the `Visible` state with an
    /// empty set.
    pub fn show_all(&mut self, monitors: &Vec<MonitorInfo>, handles: &Vec<Option<usize>>)
        requires
            handles@.len() == monitors@.len(),
        ensures
            final(self)@ == spec_show_all(old(self)@, monitors@, handles@),
            old(self)@.wf() ==> final(self)@.wf(),
    {
        let ghost v0 = self@;
        self.windows.clear();
        let n = monitors.len();
        let mut i: usize = 0;
        while i < n
            invariant
                i <= n,
                n == monitors@.len(),
                handles@.len() == monitors@.len(),
                self.color == v0.color,
                self.visible == v0.visible,
                self.cursor_hidden == v0.cursor_hidden,
                self.hotkey == v0.hotkey,
                self.windows@ =~= spec_built(
                    monitors@.take(i as int),
                    handles@.take(i as int),
                    self.color,
                ),
            decreases n - i,
        {
            proof {
                assert(monitors@.take(i + 1).drop_last() =~= monitors@.take(i as int));
                assert(handles@.take(i + 1).drop_last() =~= handles@.take(i as int));
                assert(monitors@.take(i + 1).last() == monitors@[i as int]);
                assert(handles@.take(i + 1).last() == handles@[i as int]);
            }
            match handles[i] {
                Some(handle) => {
                    let mut w = ColorWindow::new(&monitors[i], self.color, handle);
                    w.show();
                    self.windows.push(w);
                },
                None => {},
            }
            i = i + 1;
        }
        proof {
            assert(monitors@.take(n as int) =~= monitors@);
            assert(handles@.take(n as int) =~= handles@);
        }
        self.visible = true;
        self.cursor_hidden = self.windows.len() > 0;
        proof {
            lemma_built_windows(monitors@, handles@, old(self)@.color);
            assert(self@ =~= spec_show_all(old(self)@, monitors@, handles@));
        }
    }

    /// Hide every window of the set and restore the cursor; the windows are
    /// retained with their color and geometry, and the state becomes
    /// `Hidden`. Hiding an already hidden set changes nothing.
    pub fn hide_all(&mut self)
        ensures
            final(self)@ == spec_hide_all(old(self)@),
            old(self)@.wf() ==> final(self)@.wf(),
    {
        let ghost v0 = self@;
        let ghost ws0 = self.windows@;
        let n = self.windows.len();
        let mut i: usize = 0;
        while i < n
            invariant
                i <= n,
                n == ws0.len(),
                self.windows@.len() == ws0.len(),
                self.color == v0.color,
                self.visible == v0.visible,
                self.cursor_hidden == v0.cursor_hidden,
                self.hotkey == v0.hotkey,
                forall|k: int| 0 <= k < i
                    ==> self.windows@[k] == spec_hidden_window(#[trigger] ws0[k]),
                forall|k: int| i <= k < ws0.len() ==> self.windows@[k] == #[trigger] ws0[k],
            decreases n - i,
        {
            let mut w = self.windows[i];
            w.hide_window();
            self.windows[i] = w;
            i = i + 1;
        }
        self.visible = false;
        self.cursor_hidden = false;
        proof {
            assert(self.windows@ =~= ws0.map(|k: int, w: ColorWindow| spec_hidden_window(w)));
            assert(self@ =~= spec_hide_all(old(self)@));
        }
    }

    /// Update the shared fill color and push it to every existing window
    /// immediately, whatever the visibility state, so that both an already
    /// visible set and the next `show_all` reflect it.
    pub fn set_color(&mut self, color: u32)
        ensures
            final(self)@ == spec_set_color(old(self)@, color),
            old(self)@.wf() ==> final(self)@.wf(),
    {
        let ghost v0 = self@;
        let ghost ws0 = self.windows@;
        let n = self.windows.len();
        let mut i: usize = 0;
        while i < n
            invariant
                i <= n,
                n == ws0.len(),
                self.windows@.len() == ws0.len(),
                self.color == v0.color,
                self.visible == v0.visible,
                self.cursor_hidden == v0.cursor_hidden,
                self.hotkey == v0.hotkey,
                forall|k: int| 0 <= k < i
                    ==> self.windows@[k] == (ColorWindow { color, ..#[trigger] ws0[k] }),
                forall|k: int| i <= k < ws0.len() ==> self.windows@[k] == #[trigger] ws0[k],
            decreases n - i,
        {
            let mut w = self.windows[i];
            w.set_color(color);
            self.windows[i] = w;
            i = i + 1;
        }
        self.color = color;
        proof {
            assert(self.windows@ =~= ws0.map(|k: int, w: ColorWindow| ColorWindow { color, ..w }));
            assert(self@ =~= spec_set_color(old(self)@, color));
        }
    }

    /// One trigger of the global hotkey or the tray double-click: show the
    /// overlay when hidden, hide it when visible. The monitor snapshot and
    /// creation outcomes are consumed only on the show path.
    pub fn toggle(&mut self, monitors: &Vec<MonitorInfo>, handles: &Vec<Option<usize>>)
        requires
            handles@.len() == monitors@.len(),
        ensures
            final(self)@ == spec_toggle(old(self)@, monitors@, handles@),
            old(self)@.wf() ==> final(self)@.wf(),
    {
        if self.visible {
            self.hide_all();
        } else {
            self.show_all(monitors, handles);
        }
    }

    /// One dismiss gesture, delivered by any window of the set, possibly
    /// re-entrantly from within a window callback: exactly one `hide_all`
    /// of the entire set, never a partial hide.
    pub fn dismiss(&mut self)
        ensures
            final(self)@ == spec_hide_all(old(self)@),
            old(self)@.wf() ==> final(self)@.wf(),
    {
        self.hide_all();
    }

    /// Store a newly captured hotkey binding; the overlay state is
    /// untouched.
    pub fn set_hotkey(&mut self, modifiers: u32, key: u32)
        ensures
            final(self)@ == spec_set_hotkey(old(self)@, modifiers, key),
            old(self)@.wf() ==> final(self)@.wf(),
    {
        self.hotkey = HotkeyConfig { modifiers, key };
        proof {
            assert(self@ =~= spec_set_hotkey(old(self)@, modifiers, key));
        }
    }
}

/// After a rebuild the set holds exactly one window per monitor whose
/// creation succeeded, each filled with the shared color, shown, top-most,
/// and covering precisely its source monitor's rectangle.
pub proof fn lemma_built_windows(monitors: Seq<MonitorInfo>, handles: Seq<Option<usize>>, color: u32)
    requires
        monitors.len() == handles.len(),
    ensures
        spec_built(monitors, handles, color).len() == count_some(handles),
        forall|j: int| 0 <= j < spec_built(monitors, handles, color).len()
            ==> {
                let w = #[trigger] spec_built(monitors, handles, color)[j];
                &&& w.color == color
                &&& w.shown
                &&& w.topmost
                &&& exists|i: int| 0 <= i < monitors.len() && handles[i] is Some
                    && w.rect == (#[trigger] monitors[i]).rect && w.handle == handles[i]->0
            },
    decreases monitors.len(),
{
    if monitors.len() > 0 {
        lemma_built_windows(monitors.drop_last(), handles.drop_last(), color);
        let prev = spec_built(monitors.drop_last(), handles.drop_last(), color);
        let whole = spec_built(monitors, handles, color);
        assert forall|j: int| 0 <= j < whole.len() implies {
            let w = #[trigger] whole[j];
            &&& w.color == color
            &&& w.shown
            &&& w.topmost
            &&& exists|i: int| 0 <= i < monitors.len() && handles[i] is Some
                && w.rect == (#[trigger] monitors[i]).rect && w.handle == handles[i]->0
        } by {
            if j < prev.len() {
                let i = choose|i: int| 0 <= i < monitors.drop_last().len()
                    && handles.drop_last()[i] is Some
                    && prev[j].rect == (#[trigger] monitors.drop_last()[i]).rect
                    && prev[j].handle == handles.drop_last()[i]->0;
                assert(monitors[i] == monitors.drop_last()[i]);
                assert(handles[i] == handles.drop_last()[i]);
            } else {
                let i = monitors.len() - 1;
                assert(handles[i] is Some);
                assert(whole[j] == spec_window_for(monitors.last(), color, handles.last()->0));
                assert(whole[j].rect == monitors[i].rect);
            }
        }
    }
}

/// The position in `handles` that the `j`-th built window comes from: the
/// position of the `j`-th success.
pub open spec fn nth_success(handles: Seq<Option<usize>>, j: int) -> int
    decreases handles.len(),
{
    if handles.len() == 0 {
        0
    } else if j < count_some(handles.drop_last()) {
        nth_success(handles.drop_last(), j)
    } else {
        handles.len() - 1
    }
}

/// The windows of a rebuilt set correspond to the monitors one to one and
/// in enumeration order: the `j`-th window was built exactly for the
/// monitor at the `j`-th position whose creation succeeded.
pub proof fn lemma_built_correspondence(
    monitors: Seq<MonitorInfo>,
    handles: Seq<Option<usize>>,
    color: u32,
    j: int,
)
    requires
        monitors.len() == handles.len(),
        0 <= j < spec_built(monitors, handles, color).len(),
    ensures
        ({
            let i = nth_success(handles, j);
            &&& 0 <= i < monitors.len()
            &&& handles[i] is Some
            &&& count_some(handles.take(i)) == j
            &&& spec_built(monitors, handles, color)[j] == spec_window_for(
                monitors[i],
                color,
                handles[i]->0,
            )
        }),
    decreases monitors.len(),
{
    if monitors.len() > 0 {
        let pre_m = monitors.drop_last();
        let pre_h = handles.drop_last();
        lemma_built_windows(pre_m, pre_h, color);
        lemma_built_windows(monitors, handles, color);
        if j < count_some(pre_h) {
            lemma_built_correspondence(pre_m, pre_h, color, j);
            let i = nth_success(pre_h, j);
            assert(nth_success(handles, j) == i);
            assert(handles[i] == pre_h[i]);
            assert(monitors[i] == pre_m[i]);
            assert(handles.take(i) =~= pre_h.take(i));
            assert(spec_built(monitors, handles, color)[j] == spec_built(pre_m, pre_h, color)[j]);
        } else {
            let i = handles.len() - 1;
            assert(nth_success(handles, j) == i);
            assert(handles.last() is Some);
            assert(handles.take(i) =~= pre_h);
            assert(j == count_some(pre_h));
            assert(spec_built(monitors, handles, color)[j] == spec_window_for(
                monitors.last(),
                color,
                handles.last()->0,
            ));
        }
    }
}

/// Hiding when already hidden is a no-op: from a well-formed hidden state,
/// `hide_all` leaves the state unchanged, so it issues no visible-window
/// side effects.
pub proof fn lemma_hide_all_idempotent(v: AppView)
    requires
        v.wf(),
        !v.visible,
    ensures
        spec_hide_all(v) == v,
{
    assert(spec_hide_all(v).windows =~= v.windows);
    assert(spec_hide_all(v) =~= v);
}

/// A dismiss gesture hides the whole set at once: afterwards the state is
/// hidden, the set still holds every window, and none of them is shown.
pub proof fn lemma_dismiss_hides_whole_set(v: AppView)
    ensures
        !spec_hide_all(v).visible,
        !spec_hide_all(v).cursor_hidden,
        spec_hide_all(v).windows.len() == v.windows.len(),
        forall|i: int| 0 <= i < v.windows.len()
            ==> !(#[trigger] spec_hide_all(v).windows[i]).shown,
{
}

/// Recoloring reaches every live window: after `set_color`, every window of
/// the set displays the new color, while its geometry, visibility and
/// handle are untouched, whatever the prior visibility state.
pub proof fn lemma_set_color_propagates(v: AppView, color: u32)
    ensures
        spec_set_color(v, color).color == color,
        spec_set_color(v, color).visible == v.visible,
        spec_set_color(v, color).windows.len() == v.windows.len(),
        forall|i: int| 0 <= i < v.windows.len()
            ==> (#[trigger] spec_set_color(v, color).windows[i]) == (ColorWindow {
                color,
                ..v.windows[i]
            }),
{
}

/// Any run of `set_color` calls leaves visibility, the window set's length
/// and the hotkey unchanged, and ends with the last color of the run (or
/// the starting color for an empty run).
pub open spec fn spec_apply_colors(v: AppView, colors: Seq<u32>) -> AppView
    decreases colors.len(),
{
    if colors.len() == 0 {
        v
    } else {
        spec_set_color(spec_apply_colors(v, colors.drop_last()), colors.last())
    }
}

proof fn lemma_apply_colors(v: AppView, colors: Seq<u32>)
    ensures
        spec_apply_colors(v, colors).visible == v.visible,
        spec_apply_colors(v, colors).hotkey == v.hotkey,
        spec_apply_colors(v, colors).color == if colors.len() == 0 {
            v.color
        } else {
            colors.last()
        },
    decreases colors.len(),
{
    if colors.len() > 0 {
        lemma_apply_colors(v, colors.drop_last());
    }
}

/// Toggle symmetry: starting hidden, after any run of `set_color` calls
/// made while hidden, toggling twice returns to `Hidden`, with the color
/// and the hotkey binding it had just before the first toggle — the last
/// color set while hidden, or the original one if none was.
pub proof fn lemma_toggle_twice_from_hidden(
    v: AppView,
    colors: Seq<u32>,
    monitors: Seq<MonitorInfo>,
    handles: Seq<Option<usize>>,
    monitors2: Seq<MonitorInfo>,
    handles2: Seq<Option<usize>>,
)
    requires
        !v.visible,
    ensures
        ({
            let before = spec_apply_colors(v, colors);
            let after = spec_toggle(
                spec_toggle(before, monitors, handles),
                monitors2,
                handles2,
            );
            &&& !after.visible
            &&& after.color == before.color
            &&& after.hotkey == before.hotkey
            &&& colors.len() == 0 ==> after.color == v.color
            &&& colors.len() > 0 ==> after.color == colors.last()
        }),
{
    lemma_apply_colors(v, colors);
}

} // verus!
