use vstd::prelude::*;
use vstd::pervasive::VecAdditionalExecFns;
use crate::event::{spec_translate, Event, MouseButton, WindowId};
use crate::raw_event::RawEvent;
use crate::screen_units::{valid_scale_milli, Screen2d, POS_LIMIT_MILLI};

verus! {

/// Current state of one tracked mouse button.
#[derive(Clone, Copy, PartialEq, Eq, Hash, Debug, Structural)]
pub struct MouseButtonState {
    /// Which mouse button this is for.
    pub button: MouseButton,
    /// Indicates if the button is currently being pressed down by the user.
    pub pressed: bool,
    /// Location where the mouse button was last pressed.
    pub pressed_at: Screen2d,
    /// Indicates if the user pressed the cancel key while the button was down.
    pub cancelled: bool,
}

/// One operation on a tracked button, as the translator performs them.
#[derive(Clone, Copy, PartialEq, Eq, Hash, Debug, Structural)]
pub enum ButtonOp {
    /// The button went down with the mouse at the given position.
    Press(Screen2d),
    /// The button was let go.
    Release,
    /// The cancel key was hit; only a held button takes note.
    Cancel,
}

/// The transition function of a tracked button. A press records the position
/// and clears the cancelled flag; a release clears `pressed` only, leaving
/// origin and cancelled for late readers; a cancel marks a held button
/// cancelled without releasing it, and does nothing to an idle button.
pub open spec fn btn_step(s: MouseButtonState, op: ButtonOp) -> MouseButtonState {
    match op {
        ButtonOp::Press(at) => MouseButtonState {
            pressed: true,
            pressed_at: at,
            cancelled: false,
            ..s
        },
        ButtonOp::Release => MouseButtonState { pressed: false, ..s },
        ButtonOp::Cancel => if s.pressed {
            MouseButtonState { cancelled: true, ..s }
        } else {
            s
        },
    }
}

/// The state a button reaches after a whole sequence of operations.
pub open spec fn btn_run(s: MouseButtonState, ops: Seq<ButtonOp>) -> MouseButtonState
    decreases ops.len(),
{
    if ops.len() == 0 {
        s
    } else {
        btn_step(btn_run(s, ops.drop_last()), ops.last())
    }
}

pub open spec fn is_press(op: ButtonOp) -> bool {
    match op {
        ButtonOp::Press(_) => true,
        _ => false,
    }
}

pub open spec fn is_release(op: ButtonOp) -> bool {
    match op {
        ButtonOp::Release => true,
        _ => false,
    }
}

pub open spec fn is_cancel(op: ButtonOp) -> bool {
    match op {
        ButtonOp::Cancel => true,
        _ => false,
    }
}

/// LAW (button pressed): starting from an unpressed button, after any
/// sequence of press/release/cancel operations, `pressed` holds exactly when
/// the most recent press-or-release operation was a press.
pub proof fn lemma_button_pressed(s0: MouseButtonState, ops: Seq<ButtonOp>)
    requires
        !s0.pressed,
    ensures
        btn_run(s0, ops).pressed <==> exists|i: int|
            0 <= i < ops.len() && is_press(ops[i]) && (forall|j: int|
                i < j < ops.len() ==> !is_press(ops[j]) && !is_release(ops[j])),
    decreases ops.len(),
{
    if ops.len() == 0 {
    } else {
        let pre = ops.drop_last();
        let last = ops.last();
        let n = ops.len() as int;
        lemma_button_pressed(s0, pre);
        assert(forall|i: int| 0 <= i < n - 1 ==> pre[i] == ops[i]);
        if is_press(last) {
            assert(btn_run(s0, ops).pressed);
            assert(is_press(ops[n - 1]) && (forall|j: int|
                n - 1 < j < n ==> !is_press(ops[j]) && !is_release(ops[j])));
        } else if is_release(last) {
            assert(!btn_run(s0, ops).pressed);
            assert forall|i: int| 0 <= i < n implies !(is_press(ops[i]) && (forall|j: int|
                i < j < n ==> !is_press(ops[j]) && !is_release(ops[j]))) by {
                if i < n - 1 && is_press(ops[i]) {
                    assert(i < n - 1 < n && is_release(ops[n - 1]));
                }
            }
        } else {
            // A cancel leaves `pressed` alone, and shifts the witnesses one way
            // or the other between the full sequence and its prefix.
            assert(btn_run(s0, ops).pressed == btn_run(s0, pre).pressed);
            if btn_run(s0, pre).pressed {
                let i = choose|i: int|
                    0 <= i < n - 1 && is_press(pre[i]) && (forall|j: int|
                        i < j < n - 1 ==> !is_press(pre[j]) && !is_release(pre[j]));
                assert(is_press(ops[i]));
                assert(forall|j: int| i < j < n ==> !is_press(ops[j]) && !is_release(ops[j]));
            }
            if exists|i: int|
                0 <= i < n && is_press(ops[i]) && (forall|j: int|
                    i < j < n ==> !is_press(ops[j]) && !is_release(ops[j])) {
                let i = choose|i: int|
                    0 <= i < n && is_press(ops[i]) && (forall|j: int|
                        i < j < n ==> !is_press(ops[j]) && !is_release(ops[j]));
                assert(i < n - 1);
                assert(is_press(pre[i]) && (forall|j: int|
                    i < j < n - 1 ==> !is_press(pre[j]) && !is_release(pre[j])));
            }
        }
    }
}

/// LAW (button cancelled): starting from an unpressed, uncancelled button,
/// `cancelled` holds exactly when some cancel operation arrived while the
/// button was held, with no press afterwards. A release in between does not
/// clear the flag; only the next press does.
pub proof fn lemma_button_cancelled(s0: MouseButtonState, ops: Seq<ButtonOp>)
    requires
        !s0.pressed,
        !s0.cancelled,
    ensures
        btn_run(s0, ops).cancelled <==> exists|i: int|
            0 <= i < ops.len() && is_cancel(ops[i]) && btn_run(s0, ops.take(i)).pressed && (
            forall|j: int| i < j < ops.len() ==> !is_press(ops[j])),
    decreases ops.len(),
{
    if ops.len() == 0 {
    } else {
        let pre = ops.drop_last();
        let last = ops.last();
        let n = ops.len() as int;
        lemma_button_cancelled(s0, pre);
        assert(forall|i: int| 0 <= i < n - 1 ==> pre[i] == ops[i]);
        assert(forall|i: int| 0 <= i <= n - 1 ==> ops.take(i) =~= pre.take(i));
        assert(ops.take(n - 1) =~= pre);
        if is_press(last) {
            assert(!btn_run(s0, ops).cancelled);
            assert forall|i: int| 0 <= i < n implies !(is_cancel(ops[i]) && btn_run(
                s0,
                ops.take(i),
            ).pressed && (forall|j: int| i < j < n ==> !is_press(ops[j]))) by {
                if i < n - 1 && is_cancel(ops[i]) {
                    assert(i < n - 1 < n && is_press(ops[n - 1]));
                }
            }
        } else if is_release(last) {
            assert(btn_run(s0, ops).cancelled == btn_run(s0, pre).cancelled);
            if btn_run(s0, pre).cancelled {
                let i = choose|i: int|
                    0 <= i < n - 1 && is_cancel(pre[i]) && btn_run(s0, pre.take(i)).pressed && (
                    forall|j: int| i < j < n - 1 ==> !is_press(pre[j]));
                assert(is_cancel(ops[i]) && btn_run(s0, ops.take(i)).pressed);
                assert(forall|j: int| i < j < n ==> !is_press(ops[j]));
            }
            if exists|i: int|
                0 <= i < n && is_cancel(ops[i]) && btn_run(s0, ops.take(i)).pressed && (forall|
                    j: int,
                | i < j < n ==> !is_press(ops[j])) {
                let i = choose|i: int|
                    0 <= i < n && is_cancel(ops[i]) && btn_run(s0, ops.take(i)).pressed && (forall|
                        j: int,
                    | i < j < n ==> !is_press(ops[j]));
                assert(i < n - 1);
                assert(is_cancel(pre[i]) && btn_run(s0, pre.take(i)).pressed && (forall|j: int|
                    i < j < n - 1 ==> !is_press(pre[j])));
            }
        } else {
            // The last operation is a cancel: it sets the flag exactly when
            // the button is held at that point, and otherwise the witnesses
            // carry over from the prefix.
            if btn_run(s0, pre).pressed {
                assert(btn_run(s0, ops).cancelled);
                assert(is_cancel(ops[n - 1]) && btn_run(s0, ops.take(n - 1)).pressed && (forall|
                    j: int,
                | n - 1 < j < n ==> !is_press(ops[j])));
            } else {
                assert(btn_run(s0, ops).cancelled == btn_run(s0, pre).cancelled);
                if btn_run(s0, pre).cancelled {
                    let i = choose|i: int|
                        0 <= i < n - 1 && is_cancel(pre[i]) && btn_run(s0, pre.take(i)).pressed && (
                        forall|j: int| i < j < n - 1 ==> !is_press(pre[j]));
                    assert(is_cancel(ops[i]) && btn_run(s0, ops.take(i)).pressed);
                    assert(forall|j: int| i < j < n ==> !is_press(ops[j]));
                }
                if exists|i: int|
                    0 <= i < n && is_cancel(ops[i]) && btn_run(s0, ops.take(i)).pressed && (forall|
                        j: int,
                    | i < j < n ==> !is_press(ops[j])) {
                    let i = choose|i: int|
                        0 <= i < n && is_cancel(ops[i]) && btn_run(s0, ops.take(i)).pressed && (
                        forall|j: int| i < j < n ==> !is_press(ops[j]));
                    if i == n - 1 {
                        assert(btn_run(s0, ops.take(n - 1)).pressed);
                        assert(false);
                    } else {
                        assert(is_cancel(pre[i]) && btn_run(s0, pre.take(i)).pressed && (forall|
                            j: int,
                        | i < j < n - 1 ==> !is_press(pre[j])));
                    }
                }
            }
        }
    }
}

impl MouseButtonState {
    /// The state a fresh, never-pressed button starts in.
    pub open spec fn spec_default() -> MouseButtonState {
        MouseButtonState {
            button: MouseButton::Left,
            pressed: false,
            pressed_at: Screen2d::spec_from_logical(0, 0, 1000),
            cancelled: false,
        }
    }

    /// A fresh, unpressed instance for the given button.
    pub fn for_button(button: MouseButton) -> (r: MouseButtonState)
        ensures
            r == (MouseButtonState { button, ..Self::spec_default() }),
    {
        MouseButtonState {
            button,
            pressed: false,
            pressed_at: Screen2d::from_logical([0, 0], 1000),
            cancelled: false,
        }
    }

    /// Records a press at the given position.
    pub fn press(&mut self, at: Screen2d)
        ensures
            *final(self) == btn_step(*old(self), ButtonOp::Press(at)),
    {
        self.pressed = true;
        self.pressed_at = at;
        self.cancelled = false;
    }

    /// Records a release; origin and cancelled flag are left for late readers.
    pub fn release(&mut self)
        ensures
            *final(self) == btn_step(*old(self), ButtonOp::Release),
    {
        self.pressed = false;
    }

    /// Marks a held button cancelled; an idle button is left untouched.
    pub fn cancel(&mut self)
        ensures
            *final(self) == btn_step(*old(self), ButtonOp::Cancel),
    {
        if self.pressed {
            self.cancelled = true;
        }
    }
}

impl Default for MouseButtonState {
    fn default() -> (r: MouseButtonState)
        ensures
            r == MouseButtonState::spec_default(),
    {
        MouseButtonState::for_button(MouseButton::Left)
    }
}

/// Per-window record in the registry: identity, current size, current scale
/// factor (milliunits; the interaction state keeps it strictly positive).
#[derive(Clone, Copy, PartialEq, Eq, Hash, Debug, Structural)]
pub struct WindowData {
    pub id: WindowId,
    pub dim: Screen2d,
    pub hidpi_factor: u32,
}

impl WindowData {
    /// A new registry entry. The scale factor must be strictly positive.
    pub fn new(id: WindowId, dim: Screen2d, hidpi_factor: u32) -> (r: WindowData)
        requires
            valid_scale_milli(hidpi_factor as int),
        ensures
            r == (WindowData { id, dim, hidpi_factor }),
    {
        WindowData { id, dim, hidpi_factor }
    }

    /// The window's scale factor, in milliunits.
    pub fn hidpi_factor(&self) -> (r: u32)
        ensures
            r == self.hidpi_factor,
    {
        self.hidpi_factor
    }
}

/// The first registry index holding the given identity, if any.
pub open spec fn find_win(ws: Seq<WindowData>, id: WindowId) -> Option<int>
    decreases ws.len(),
{
    if ws.len() == 0 {
        Option::None
    } else if ws[0].id == id {
        Option::Some(0int)
    } else {
        match find_win(ws.drop_first(), id) {
            Option::Some(i) => Option::Some(i + 1),
            Option::None => Option::None,
        }
    }
}

/// What `find_win` returns: the first match, or nothing when no entry matches.
pub proof fn lemma_find_win(ws: Seq<WindowData>, id: WindowId)
    ensures
        match find_win(ws, id) {
            Option::Some(i) => 0 <= i < ws.len() && ws[i].id == id && (forall|j: int|
                0 <= j < i ==> ws[j].id != id),
            Option::None => forall|j: int| 0 <= j < ws.len() ==> ws[j].id != id,
        },
    decreases ws.len(),
{
    if ws.len() == 0 {
    } else if ws[0].id == id {
    } else {
        let tail = ws.drop_first();
        lemma_find_win(tail, id);
        match find_win(tail, id) {
            Option::Some(i) => {
                assert(ws[i + 1] == tail[i]);
                assert forall|j: int| 0 <= j < i + 1 implies ws[j].id != id by {
                    if j > 0 {
                        assert(tail[j - 1] == ws[j]);
                        assert(tail[j - 1].id != id);
                    }
                }
            },
            Option::None => {
                assert forall|j: int| 0 <= j < ws.len() implies ws[j].id != id by {
                    if j > 0 {
                        assert(tail[j - 1] == ws[j]);
                        assert(tail[j - 1].id != id);
                    }
                }
            },
        }
    }
}

/// The converse: a first match at `k` makes `find_win` return `k`.
pub proof fn lemma_find_win_at(ws: Seq<WindowData>, id: WindowId, k: int)
    requires
        0 <= k < ws.len(),
        ws[k].id == id,
        forall|j: int| 0 <= j < k ==> ws[j].id != id,
    ensures
        find_win(ws, id) == Option::Some(k),
    decreases ws.len(),
{
    if k == 0 {
    } else {
        lemma_find_win_at(ws.drop_first(), id, k - 1);
    }
}

/// The scale factor a lazily created entry inherits: the first-registered
/// window's, or 1.0 when the registry is empty.
pub open spec fn inherited_scale(ws: Seq<WindowData>) -> int {
    if ws.len() > 0 {
        ws[0].hidpi_factor as int
    } else {
        1000
    }
}

/// The entry `get_or_create` makes for an unknown identity: zero size, inherited scale.
pub open spec fn spec_fresh_win(ws: Seq<WindowData>, id: WindowId) -> WindowData {
    WindowData {
        id,
        dim: Screen2d::spec_from_logical(0, 0, inherited_scale(ws)),
        hidpi_factor: inherited_scale(ws) as u32,
    }
}

/// The registry after a get-or-create: unchanged when the identity is known,
/// extended by a fresh default entry otherwise.
pub open spec fn spec_get_or_create(ws: Seq<WindowData>, id: WindowId) -> Seq<WindowData> {
    match find_win(ws, id) {
        Option::Some(_) => ws,
        Option::None => ws.push(spec_fresh_win(ws, id)),
    }
}

/// The index get-or-create hands back.
pub open spec fn spec_goc_index(ws: Seq<WindowData>, id: WindowId) -> int {
    match find_win(ws, id) {
        Option::Some(i) => i,
        Option::None => ws.len() as int,
    }
}

/// The registry with every entry of the given identity removed, order kept.
pub open spec fn spec_remove_win(ws: Seq<WindowData>, id: WindowId) -> Seq<WindowData>
    decreases ws.len(),
{
    if ws.len() == 0 {
        Seq::empty()
    } else {
        let rest = spec_remove_win(ws.drop_first(), id);
        if ws[0].id == id {
            rest
        } else {
            seq![ws[0]] + rest
        }
    }
}

/// No two registry entries share an identity.
pub open spec fn distinct_ids(ws: Seq<WindowData>) -> bool {
    forall|i: int, j: int| 0 <= i < j < ws.len() ==> ws[i].id != ws[j].id
}

/// Removal drops exactly the entries with the given identity: what is left
/// has no such entry, every survivor comes from the original registry, and
/// distinctness is preserved.
pub proof fn lemma_remove_win(ws: Seq<WindowData>, id: WindowId)
    ensures
        forall|k: int|
            0 <= k < spec_remove_win(ws, id).len() ==> #[trigger] spec_remove_win(ws, id)[k].id
                != id,
        forall|k: int|
            0 <= k < spec_remove_win(ws, id).len() ==> exists|m: int|
                0 <= m < ws.len() && #[trigger] spec_remove_win(ws, id)[k] == ws[m],
        distinct_ids(ws) ==> distinct_ids(spec_remove_win(ws, id)),
        forall|w: WindowData|
            ws.contains(w) && w.id != id ==> #[trigger] spec_remove_win(ws, id).contains(w),
    decreases ws.len(),
{
    let rem = spec_remove_win(ws, id);
    if ws.len() == 0 {
    } else {
        let tail = ws.drop_first();
        lemma_remove_win(tail, id);
        let rest = spec_remove_win(tail, id);
        assert(forall|m: int| 0 <= m < tail.len() ==> tail[m] == ws[m + 1]);
        if ws[0].id == id {
            assert(forall|w: WindowData| tail.contains(w) ==> ws.contains(w));
            assert forall|w: WindowData| ws.contains(w) && w.id != id implies #[trigger] rem.contains(
                w,
            ) by {
                let m = choose|m: int| 0 <= m < ws.len() && ws[m] == w;
                assert(m != 0);
                assert(tail[m - 1] == w);
                assert(tail.contains(w));
            }
        } else {
            assert(rem == seq![ws[0]] + rest);
            assert(rem[0] == ws[0]);
            assert(forall|k: int| 0 <= k < rest.len() ==> rem[k + 1] == rest[k]);
            assert(forall|k: int| 0 <= k < rem.len() ==> rem[k].id != id);
            assert forall|k: int|
                0 <= k < rem.len() implies exists|m: int|
                0 <= m < ws.len() && #[trigger] rem[k] == ws[m] by {
                if k == 0 {
                    assert(rem[0] == ws[0]);
                } else {
                    let m = choose|m: int| 0 <= m < tail.len() && #[trigger] rest[k - 1] == tail[m];
                    assert(rem[k] == ws[m + 1]);
                }
            }
            if distinct_ids(ws) {
                assert(distinct_ids(tail));
                assert forall|i: int, j: int|
                    0 <= i < j < rem.len() implies rem[i].id != rem[j].id by {
                    if i == 0 {
                        let m = choose|m: int|
                            0 <= m < tail.len() && #[trigger] rest[j - 1] == tail[m];
                        assert(rem[j] == ws[m + 1]);
                        assert(ws[0].id != ws[m + 1].id);
                    } else {
                        assert(rest[i - 1].id != rest[j - 1].id);
                    }
                }
            }
            assert forall|w: WindowData| ws.contains(w) && w.id != id implies #[trigger] rem.contains(
                w,
            ) by {
                let m = choose|m: int| 0 <= m < ws.len() && ws[m] == w;
                if m == 0 {
                    assert(rem[0] == w);
                } else {
                    assert(tail[m - 1] == w);
                    assert(tail.contains(w));
                    assert(rest.contains(w));
                    let k = choose|k: int| 0 <= k < rest.len() && rest[k] == w;
                    assert((seq![ws[0]] + rest)[k + 1] == rest[k]);
                    assert(rem[k + 1] == w);
                    assert(0 <= k + 1 < rem.len());
                }
            }
        }
    }
}

/// LAW (registry stability): a get-or-create, on a known or unknown identity,
/// leaves the registry so that an immediate lookup of that identity finds
/// exactly the entry whose index get-or-create handed back.
pub proof fn lemma_registry_get_or_create_stable(ws: Seq<WindowData>, id: WindowId)
    requires
        distinct_ids(ws),
    ensures
        ({
            let ws2 = spec_get_or_create(ws, id);
            let i = spec_goc_index(ws, id);
            &&& find_win(ws2, id) == Option::Some(i)
            &&& 0 <= i < ws2.len()
            &&& ws2[i].id == id
        }),
{
    let ws2 = spec_get_or_create(ws, id);
    let i = spec_goc_index(ws, id);
    lemma_find_win(ws, id);
    match find_win(ws, id) {
        Option::Some(_) => {},
        Option::None => {
            assert(ws2 == ws.push(spec_fresh_win(ws, id)));
            assert(ws2[ws.len() as int].id == id);
            assert(forall|j: int| 0 <= j < ws.len() ==> ws2[j] == ws[j]);
            lemma_find_win_at(ws2, id, ws.len() as int);
        },
    }
}

/// LAW (registry removal): after removing an identity, a lookup of that
/// identity reports it absent.
pub proof fn lemma_registry_remove_absent(ws: Seq<WindowData>, id: WindowId)
    ensures
        find_win(spec_remove_win(ws, id), id) == Option::<int>::None,
{
    lemma_remove_win(ws, id);
    lemma_find_win(spec_remove_win(ws, id), id);
    if find_win(spec_remove_win(ws, id), id) is Some {
        let i = find_win(spec_remove_win(ws, id), id)->0;
        assert(spec_remove_win(ws, id)[i].id != id);
    }
}

/// The abstract value of an [`EventState`]: every field as a plain value, the
/// registry as a sequence.
#[verifier::ext_equal]
pub struct StateView {
    pub mouse_pos: Screen2d,
    pub mouse_activity_start: Screen2d,
    pub mouse_in_window: bool,
    pub mouse_left: MouseButtonState,
    pub mouse_middle: MouseButtonState,
    pub mouse_right: MouseButtonState,
    pub shift_down: bool,
    pub alt_down: bool,
    pub ctrl_down: bool,
    pub logo_down: bool,
    pub windows: Seq<WindowData>,
    pub line_height: int,
}

/// The state after the cancel key is hit: every held tracked button is
/// marked cancelled, no button is released.
pub open spec fn spec_cancel_held(pre: StateView) -> StateView {
    StateView {
        mouse_left: btn_step(pre.mouse_left, ButtonOp::Cancel),
        mouse_middle: btn_step(pre.mouse_middle, ButtonOp::Cancel),
        mouse_right: btn_step(pre.mouse_right, ButtonOp::Cancel),
        ..pre
    }
}

/// The state after one backend button report: press or release of the named
/// tracked button, at the current mouse position; untracked buttons change
/// nothing.
pub open spec fn spec_record_button(pre: StateView, button: MouseButton, pressed: bool) -> StateView {
    let op = if pressed {
        ButtonOp::Press(pre.mouse_pos)
    } else {
        ButtonOp::Release
    };
    match button {
        MouseButton::Left => StateView { mouse_left: btn_step(pre.mouse_left, op), ..pre },
        MouseButton::Middle => StateView { mouse_middle: btn_step(pre.mouse_middle, op), ..pre },
        MouseButton::Right => StateView { mouse_right: btn_step(pre.mouse_right, op), ..pre },
        MouseButton::Other(_) => pre,
    }
}

/// Persistent state associated with the events. This keeps track of which
/// modifier keys are currently pressed, the location of the mouse, the state
/// of the mouse buttons, and the per-window registry.
#[derive(Clone, PartialEq, Eq, Hash, Debug)]
pub struct EventState {
    pub mouse_pos: Screen2d,
    pub mouse_activity_start: Screen2d,
    pub mouse_in_window: bool,
    pub mouse_left: MouseButtonState,
    pub mouse_middle: MouseButtonState,
    pub mouse_right: MouseButtonState,
    pub shift_down: bool,
    pub alt_down: bool,
    pub ctrl_down: bool,
    pub logo_down: bool,
    pub windows: Vec<WindowData>,
    pub logical_line_height: u32,
}

impl View for EventState {
    type V = StateView;

    open spec fn view(&self) -> StateView {
        StateView {
            mouse_pos: self.mouse_pos,
            mouse_activity_start: self.mouse_activity_start,
            mouse_in_window: self.mouse_in_window,
            mouse_left: self.mouse_left,
            mouse_middle: self.mouse_middle,
            mouse_right: self.mouse_right,
            shift_down: self.shift_down,
            alt_down: self.alt_down,
            ctrl_down: self.ctrl_down,
            logo_down: self.logo_down,
            windows: self.windows@,
            line_height: self.logical_line_height as int,
        }
    }
}

/// A mouse position the state may hold: bounded so that distances between any
/// two such positions stay representable.
pub open spec fn pos_bounded(p: Screen2d) -> bool {
    &&& -(POS_LIMIT_MILLI as int) <= p@.x <= POS_LIMIT_MILLI as int
    &&& -(POS_LIMIT_MILLI as int) <= p@.y <= POS_LIMIT_MILLI as int
}

/// Well-formedness of the whole interaction state.
pub open spec fn state_wf(v: StateView) -> bool {
    &&& distinct_ids(v.windows)
    &&& forall|k: int|
        0 <= k < v.windows.len() ==> valid_scale_milli(#[trigger] v.windows[k].hidpi_factor as int)
    &&& 1000 <= v.line_height <= 1_000_000
    &&& v.mouse_left.button == MouseButton::Left
    &&& v.mouse_middle.button == MouseButton::Middle
    &&& v.mouse_right.button == MouseButton::Right
    &&& pos_bounded(v.mouse_pos)
    &&& pos_bounded(v.mouse_activity_start)
    &&& pos_bounded(v.mouse_left.pressed_at)
    &&& pos_bounded(v.mouse_middle.pressed_at)
    &&& pos_bounded(v.mouse_right.pressed_at)
}

impl EventState {
    pub open spec fn wf(self) -> bool {
        state_wf(self@)
    }

    /// Any tracked button is currently held.
    pub open spec fn spec_any_pressed(self) -> bool {
        self@.mouse_left.pressed || self@.mouse_middle.pressed || self@.mouse_right.pressed
    }

    /// The press origin of the first held button, in the fixed order
    /// left, middle, right.
    pub open spec fn spec_pressed_at(self) -> Option<Screen2d> {
        if self@.mouse_left.pressed {
            Option::Some(self@.mouse_left.pressed_at)
        } else if self@.mouse_middle.pressed {
            Option::Some(self@.mouse_middle.pressed_at)
        } else if self@.mouse_right.pressed {
            Option::Some(self@.mouse_right.pressed_at)
        } else {
            Option::None
        }
    }

    /// A fresh interaction state for a just-created window: the registry
    /// holds that window, the mouse rests at the logical origin, no button or
    /// modifier is down, and the logical line height defaults to 18 units.
    pub fn new(win_id: WindowId, win_dim: Screen2d, hidpi_factor: u32) -> (r: EventState)
        requires
            valid_scale_milli(hidpi_factor as int),
        ensures
            r.wf(),
            r@.windows =~= seq![WindowData { id: win_id, dim: win_dim, hidpi_factor }],
            r@.mouse_pos == Screen2d::spec_from_logical(0, 0, hidpi_factor as int),
            r@.mouse_activity_start == Screen2d::spec_from_logical(0, 0, hidpi_factor as int),
            !r@.mouse_in_window,
            r@.mouse_left == (MouseButtonState {
                button: MouseButton::Left,
                ..MouseButtonState::spec_default()
            }),
            r@.mouse_middle == (MouseButtonState {
                button: MouseButton::Middle,
                ..MouseButtonState::spec_default()
            }),
            r@.mouse_right == (MouseButtonState {
                button: MouseButton::Right,
                ..MouseButtonState::spec_default()
            }),
            !r@.shift_down && !r@.alt_down && !r@.ctrl_down && !r@.logo_down,
            r@.line_height == 18_000,
    {
        let origin = Screen2d::from_logical([0, 0], hidpi_factor);
        let mut windows: Vec<WindowData> = Vec::new();
        windows.push(WindowData::new(win_id, win_dim, hidpi_factor));
        let r = EventState {
            mouse_pos: origin,
            mouse_activity_start: origin,
            mouse_in_window: false,
            mouse_left: MouseButtonState::for_button(MouseButton::Left),
            mouse_middle: MouseButtonState::for_button(MouseButton::Middle),
            mouse_right: MouseButtonState::for_button(MouseButton::Right),
            shift_down: false,
            alt_down: false,
            ctrl_down: false,
            logo_down: false,
            windows,
            logical_line_height: 18_000,
        };
        proof {
            Screen2d::lemma_spec_from_logical(0, 0, 1000);
            assert(r@.windows =~= seq![WindowData { id: win_id, dim: win_dim, hidpi_factor }]);
            assert(r@.windows.len() == 1);
            assert(forall|k: int|
                0 <= k < r@.windows.len() ==> valid_scale_milli(
                    #[trigger] r@.windows[k].hidpi_factor as int,
                ));
            assert(distinct_ids(r@.windows));
        }
        r
    }

    /// The size of the first-registered window, or a zero size at scale 1.0
    /// while the registry is empty (tolerated during start-up).
    pub fn primary_win_dim(&self) -> (r: Screen2d)
        ensures
            r == if self@.windows.len() > 0 {
                self@.windows[0].dim
            } else {
                Screen2d::spec_from_logical(0, 0, 1000)
            },
    {
        if self.windows.len() > 0 {
            self.windows[0].dim
        } else {
            Screen2d::from_logical([0, 0], 1000)
        }
    }

    /// The scale factor new registry entries inherit, in milliunits: the
    /// first-registered window's, or 1.0 while the registry is empty.
    pub fn hidpi_factor(&self) -> (r: u32)
        requires
            self.wf(),
        ensures
            r as int == inherited_scale(self@.windows),
            valid_scale_milli(r as int),
    {
        if self.windows.len() > 0 {
            let w = self.windows[0];
            w.hidpi_factor()
        } else {
            1000
        }
    }

    /// The configured logical line height, in milliunits.
    pub fn logical_line_height(&self) -> (r: u32)
        ensures
            r as int == self@.line_height,
    {
        self.logical_line_height
    }

    /// Sets the logical line height. It must be at least one logical unit.
    pub fn set_logical_line_height(&mut self, h: u32)
        requires
            1000 <= h <= 1_000_000,
        ensures
            final(self)@ =~= (StateView { line_height: h as int, ..old(self)@ }),
    {
        self.logical_line_height = h;
    }

    /// The index of the entry for the given identity, creating a default
    /// entry (zero size, inherited scale factor) when the identity is unknown.
    /// This is the only path by which the registry grows.
    #[verifier::loop_isolation(false)]
    pub fn get_or_create_win(&mut self, id: WindowId) -> (idx: usize)
        requires
            old(self).wf(),
        ensures
            final(self).wf(),
            final(self)@ =~= (StateView {
                windows: spec_get_or_create(old(self)@.windows, id),
                ..old(self)@
            }),
            idx as int == spec_goc_index(old(self)@.windows, id),
            idx < final(self)@.windows.len(),
            final(self)@.windows[idx as int].id == id,
    {
        proof {
            lemma_find_win(self@.windows, id);
        }
        let n = self.windows.len();
        let mut i: usize = 0;
        while i < n
            invariant
                n == self.windows.len(),
                0 <= i <= n,
                forall|j: int| 0 <= j < i ==> self@.windows[j].id != id,
            decreases n - i,
        {
            if self.windows[i].id == id {
                proof {
                    lemma_find_win_at(self@.windows, id, i as int);
                }
                return i;
            }
            i = i + 1;
        }
        let f = self.hidpi_factor();
        let fresh = WindowData::new(id, Screen2d::from_logical([0, 0], f), f);
        self.windows.push(fresh);
        proof {
            assert(find_win(old(self)@.windows, id) == Option::<int>::None);
            assert(fresh == spec_fresh_win(old(self)@.windows, id));
            assert(final(self)@.windows =~= old(self)@.windows.push(fresh));
        }
        n
    }

    /// Replaces the recorded size of one registry entry.
    pub fn set_win_dim(&mut self, idx: usize, dim: Screen2d)
        requires
            old(self).wf(),
            idx < old(self)@.windows.len(),
        ensures
            final(self).wf(),
            final(self)@ =~= (StateView {
                windows: old(self)@.windows.update(
                    idx as int,
                    WindowData { dim, ..old(self)@.windows[idx as int] },
                ),
                ..old(self)@
            }),
    {
        let mut w = self.windows[idx];
        w.dim = dim;
        self.windows.set(idx, w);
        proof {
            let ws1 = old(self)@.windows;
            let ws2 = final(self)@.windows;
            assert(forall|k: int| 0 <= k < ws2.len() ==> ws2[k].id == ws1[k].id);
            assert(forall|k: int|
                0 <= k < ws2.len() ==> #[trigger] ws2[k].hidpi_factor == ws1[k].hidpi_factor);
        }
    }

    /// Replaces the recorded scale factor of one registry entry. The factor
    /// must be strictly positive.
    pub fn set_win_scale(&mut self, idx: usize, hidpi_factor: u32)
        requires
            old(self).wf(),
            idx < old(self)@.windows.len(),
            valid_scale_milli(hidpi_factor as int),
        ensures
            final(self).wf(),
            final(self)@ =~= (StateView {
                windows: old(self)@.windows.update(
                    idx as int,
                    WindowData { hidpi_factor, ..old(self)@.windows[idx as int] },
                ),
                ..old(self)@
            }),
    {
        let mut w = self.windows[idx];
        w.hidpi_factor = hidpi_factor;
        self.windows.set(idx, w);
        proof {
            let ws1 = old(self)@.windows;
            let ws2 = final(self)@.windows;
            assert(forall|k: int| 0 <= k < ws2.len() ==> ws2[k].id == ws1[k].id);
            assert(forall|k: int|
                0 <= k < ws2.len() ==> valid_scale_milli(#[trigger] ws2[k].hidpi_factor as int));
        }
    }

    /// Removes the entry for a destroyed window.
    #[verifier::loop_isolation(false)]
    pub fn window_destroyed(&mut self, id: WindowId)
        requires
            old(self).wf(),
        ensures
            final(self).wf(),
            final(self)@ =~= (StateView {
                windows: spec_remove_win(old(self)@.windows, id),
                ..old(self)@
            }),
            find_win(final(self)@.windows, id) == Option::<int>::None,
    {
        let ghost full = self@.windows;
        let n = self.windows.len();
        let mut kept: Vec<WindowData> = Vec::new();
        let mut i: usize = 0;
        proof {
            assert(full.skip(0) =~= full);
        }
        while i < n
            invariant
                n == self.windows.len(),
                self@.windows == full,
                0 <= i <= n,
                spec_remove_win(full, id) =~= kept@ + spec_remove_win(full.skip(i as int), id),
            decreases n - i,
        {
            proof {
                assert(full.skip(i as int).len() == n - i);
                assert(full.skip(i as int)[0] == full[i as int]);
                assert(full.skip(i as int).drop_first() =~= full.skip(i as int + 1));
            }
            let w = self.windows[i];
            if !(w.id == id) {
                kept.push(w);
                proof {
                    assert(spec_remove_win(full.skip(i as int), id) =~= seq![full[i as int]]
                        + spec_remove_win(full.skip(i as int + 1), id));
                }
            }
            i = i + 1;
        }
        proof {
            assert(full.skip(n as int) =~= Seq::<WindowData>::empty());
            assert(kept@ =~= spec_remove_win(full, id));
            lemma_remove_win(full, id);
            lemma_registry_remove_absent(full, id);
        }
        self.windows = kept;
    }

    /// Records a cursor move: the mouse position follows, and while no
    /// tracked button is held the activity-start position follows too, so
    /// that drag distances measure from the last idle-to-pressed transition.
    pub fn record_cursor_moved(&mut self, pos: Screen2d)
        requires
            old(self).wf(),
            pos_bounded(pos),
        ensures
            final(self).wf(),
            final(self)@ =~= (StateView {
                mouse_pos: pos,
                mouse_activity_start: if old(self).spec_any_pressed() {
                    old(self)@.mouse_activity_start
                } else {
                    pos
                },
                ..old(self)@
            }),
    {
        self.mouse_pos = pos;
        if !self.is_any_mouse_button_pressed() {
            self.mouse_activity_start = pos;
        }
    }

    /// Records that the cursor entered a window.
    pub fn record_cursor_entered(&mut self)
        requires
            old(self).wf(),
        ensures
            final(self).wf(),
            final(self)@ =~= (StateView { mouse_in_window: true, ..old(self)@ }),
    {
        self.mouse_in_window = true;
    }

    /// Records that the cursor left the window.
    pub fn record_cursor_left(&mut self)
        requires
            old(self).wf(),
        ensures
            final(self).wf(),
            final(self)@ =~= (StateView { mouse_in_window: false, ..old(self)@ }),
    {
        self.mouse_in_window = false;
    }

    /// Takes the four modifier flags verbatim from the backend's report.
    pub fn set_modifiers(&mut self, shift: bool, ctrl: bool, alt: bool, logo: bool)
        requires
            old(self).wf(),
        ensures
            final(self).wf(),
            final(self)@ =~= (StateView {
                shift_down: shift,
                ctrl_down: ctrl,
                alt_down: alt,
                logo_down: logo,
                ..old(self)@
            }),
    {
        self.shift_down = shift;
        self.ctrl_down = ctrl;
        self.alt_down = alt;
        self.logo_down = logo;
    }

    /// The cancel key was hit: every currently held tracked button is marked
    /// cancelled, without being released.
    pub fn cancel_held_buttons(&mut self)
        requires
            old(self).wf(),
        ensures
            final(self).wf(),
            final(self)@ =~= spec_cancel_held(old(self)@),
    {
        self.mouse_left.cancel();
        self.mouse_right.cancel();
        self.mouse_middle.cancel();
    }

    /// Applies one backend button report to the tracked buttons: a press
    /// records the current mouse position as origin and clears the cancelled
    /// flag; a release clears `pressed` only. Untracked buttons change nothing.
    pub fn record_mouse_button(&mut self, button: MouseButton, pressed: bool)
        requires
            old(self).wf(),
        ensures
            final(self).wf(),
            final(self)@ =~= spec_record_button(old(self)@, button, pressed),
    {
        let pos = self.mouse_pos;
        match button {
            MouseButton::Left => {
                if pressed {
                    self.mouse_left.press(pos);
                } else {
                    self.mouse_left.release();
                }
            },
            MouseButton::Middle => {
                if pressed {
                    self.mouse_middle.press(pos);
                } else {
                    self.mouse_middle.release();
                }
            },
            MouseButton::Right => {
                if pressed {
                    self.mouse_right.press(pos);
                } else {
                    self.mouse_right.release();
                }
            },
            MouseButton::Other(_) => {},
        }
    }

    /// Whether any of the three tracked mouse buttons is currently held.
    pub fn is_any_mouse_button_pressed(&self) -> (r: bool)
        ensures
            r == self.spec_any_pressed(),
    {
        self.mouse_left.pressed || self.mouse_middle.pressed || self.mouse_right.pressed
    }

    /// Where the current press began: the press origin of the first held
    /// button (left, then middle, then right), or nothing when no tracked
    /// button is held.
    pub fn get_mouse_pressed_at(&self) -> (r: Option<Screen2d>)
        ensures
            r == self.spec_pressed_at(),
    {
        if self.mouse_left.pressed {
            return Some(self.mouse_left.pressed_at);
        }
        if self.mouse_middle.pressed {
            return Some(self.mouse_middle.pressed_at);
        }
        if self.mouse_right.pressed {
            return Some(self.mouse_right.pressed_at);
        }
        None
    }

    /// The distance dragged since the current press began: mouse position
    /// minus press origin, or nothing when no tracked button is held.
    pub fn get_mouse_drag_dist(&self) -> (r: Option<Screen2d>)
        requires
            self.wf(),
        ensures
            r == match self.spec_pressed_at() {
                Option::Some(start) => Option::Some(self@.mouse_pos.spec_sub(start)),
                Option::None => Option::None::<Screen2d>,
            },
    {
        if let Some(start) = self.get_mouse_pressed_at() {
            Some(self.mouse_pos.sub(start))
        } else {
            None
        }
    }

    /// Translates one raw backend event, updating this state as a side
    /// effect, and returns the one normalized event it maps to.
    pub fn process_event(&mut self, evt: RawEvent) -> (e: Event)
        requires
            old(self).wf(),
            evt.wf(),
        ensures
            final(self).wf(),
            ({
                let t = spec_translate(old(self)@, evt);
                final(self)@ =~= t.0 && e == t.1
            }),
    {
        Event::from_gl(evt, self)
    }

    /// Distance from where the left button was last pressed.
    pub fn mouse_left_dist(&self) -> (r: Screen2d)
        requires
            self.wf(),
        ensures
            r == self@.mouse_pos.spec_sub(self@.mouse_left.pressed_at),
    {
        self.mouse_pos.sub(self.mouse_left.pressed_at)
    }

    /// Distance from where the middle button was last pressed.
    pub fn mouse_middle_dist(&self) -> (r: Screen2d)
        requires
            self.wf(),
        ensures
            r == self@.mouse_pos.spec_sub(self@.mouse_middle.pressed_at),
    {
        self.mouse_pos.sub(self.mouse_middle.pressed_at)
    }

    /// Distance from where the right button was last pressed.
    pub fn mouse_right_dist(&self) -> (r: Screen2d)
        requires
            self.wf(),
        ensures
            r == self@.mouse_pos.spec_sub(self@.mouse_right.pressed_at),
    {
        self.mouse_pos.sub(self.mouse_right.pressed_at)
    }
}

} // verus!
