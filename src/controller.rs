use vstd::prelude::*;
use crate::monitor::{
    can_move, disabled_spec, enabled_spec, moved_spec, select_mode, DisplayError, Monitor,
    MonitorView,
};
use crate::config::views;
use crate::utils::{
    next_index, next_index_spec, previous_index, previous_index_spec, scale_value_at, ScaleValue,
    TUIMode, SCALE_COUNT,
};

verus! {

/// A key press, as far as the interface tells keys apart.
#[derive(Clone, Copy, Debug, PartialEq, Eq, Structural)]
pub enum Key {
    Char(char),
    Esc,
    Other,
}

/// What the user asks for.
#[derive(Clone, Copy, Debug, PartialEq, Eq, Structural)]
pub enum Action {
    SelectPrevious,
    SelectNext,
    EnterMove,
    EnterResolution,
    EnterScale,
    Enable,
    Disable,
    ExitMode,
    StepUp,
    StepDown,
    StepLeft,
    StepRight,
    StepUpFast,
    StepDownFast,
    StepLeftFast,
    StepRightFast,
    Confirm,
    Commit,
    Quit,
}

/// What the caller has to do after an action: nothing, or write the
/// configuration out.
#[derive(Clone, Copy, Debug, PartialEq, Eq, Structural)]
pub enum Outcome {
    Continue,
    Commit,
}

/// A short step of a move, in logical units.
pub const STEP: i32 = 10;

/// A long step of a move, in logical units.
pub const FAST_STEP: i32 = 100;

/// The action a key asks for in a mode. `q` quits and `w` commits in every
/// mode.
pub open spec fn key_action(mode: TUIMode, key: Key) -> Option<Action> {
    match key {
        Key::Char('q') => Some(Action::Quit),
        Key::Char('w') => Some(Action::Commit),
        Key::Char(c) => match mode {
            TUIMode::View => if c == 'k' {
                Some(Action::SelectNext)
            } else if c == 'j' {
                Some(Action::SelectPrevious)
            } else if c == 'm' {
                Some(Action::EnterMove)
            } else if c == 'r' {
                Some(Action::EnterResolution)
            } else if c == 's' {
                Some(Action::EnterScale)
            } else if c == 'e' {
                Some(Action::Enable)
            } else if c == 'd' {
                Some(Action::Disable)
            } else {
                None
            },
            TUIMode::Move => if c == 'k' {
                Some(Action::StepUp)
            } else if c == 'j' {
                Some(Action::StepDown)
            } else if c == 'h' {
                Some(Action::StepLeft)
            } else if c == 'l' {
                Some(Action::StepRight)
            } else if c == 'K' {
                Some(Action::StepUpFast)
            } else if c == 'J' {
                Some(Action::StepDownFast)
            } else if c == 'H' {
                Some(Action::StepLeftFast)
            } else if c == 'L' {
                Some(Action::StepRightFast)
            } else {
                None
            },
            TUIMode::Resolution | TUIMode::Scale => if c == 'k' {
                Some(Action::SelectPrevious)
            } else if c == 'j' {
                Some(Action::SelectNext)
            } else if c == ' ' {
                Some(Action::Confirm)
            } else {
                None
            },
        },
        Key::Esc => match mode {
            TUIMode::View => None,
            _ => Some(Action::ExitMode),
        },
        Key::Other => None,
    }
}

/// The action a key asks for in a mode, if any.
pub fn action_for_key(mode: TUIMode, key: Key) -> (r: Option<Action>)
    ensures
        r == key_action(mode, key),
{
    match key {
        Key::Char('q') => Some(Action::Quit),
        Key::Char('w') => Some(Action::Commit),
        Key::Char(c) => match mode {
            TUIMode::View => if c == 'k' {
                Some(Action::SelectNext)
            } else if c == 'j' {
                Some(Action::SelectPrevious)
            } else if c == 'm' {
                Some(Action::EnterMove)
            } else if c == 'r' {
                Some(Action::EnterResolution)
            } else if c == 's' {
                Some(Action::EnterScale)
            } else if c == 'e' {
                Some(Action::Enable)
            } else if c == 'd' {
                Some(Action::Disable)
            } else {
                None
            },
            TUIMode::Move => if c == 'k' {
                Some(Action::StepUp)
            } else if c == 'j' {
                Some(Action::StepDown)
            } else if c == 'h' {
                Some(Action::StepLeft)
            } else if c == 'l' {
                Some(Action::StepRight)
            } else if c == 'K' {
                Some(Action::StepUpFast)
            } else if c == 'J' {
                Some(Action::StepDownFast)
            } else if c == 'H' {
                Some(Action::StepLeftFast)
            } else if c == 'L' {
                Some(Action::StepRightFast)
            } else {
                None
            },
            TUIMode::Resolution | TUIMode::Scale => if c == 'k' {
                Some(Action::SelectPrevious)
            } else if c == 'j' {
                Some(Action::SelectNext)
            } else if c == ' ' {
                Some(Action::Confirm)
            } else {
                None
            },
        },
        Key::Esc => match mode {
            TUIMode::View => None,
            _ => Some(Action::ExitMode),
        },
        Key::Other => None,
    }
}

/// The state of the interface: the displays, the editing mode, and the
/// cursors on the displays, on the selected display's modes and on the
/// scale table.
pub struct App {
    pub exit: bool,
    pub monitors: Vec<Monitor>,
    pub selected_monitor: usize,
    pub selected_resolution: usize,
    pub selected_scale: usize,
    pub mode: TUIMode,
}

/// The state of the interface as mathematical values.
pub struct AppView {
    pub exit: bool,
    pub monitors: Seq<MonitorView>,
    pub selected_monitor: int,
    pub selected_resolution: int,
    pub selected_scale: int,
    pub mode: TUIMode,
}

impl View for App {
    type V = AppView;

    open spec fn view(&self) -> AppView {
        AppView {
            exit: self.exit,
            monitors: views(self.monitors@),
            selected_monitor: self.selected_monitor as int,
            selected_resolution: self.selected_resolution as int,
            selected_scale: self.selected_scale as int,
            mode: self.mode,
        }
    }
}

/// The cursors are in range: the display cursor on a display when there is
/// one; outside the view mode a display is selected; in the resolution mode
/// the mode cursor is on one of the selected display's modes, or at zero
/// when it has none; in the scale mode the scale cursor is on the table.
pub open spec fn wf_view(s: AppView) -> bool {
    let n = s.monitors.len();
    &&& n == 0 ==> s.selected_monitor == 0 && s.mode == TUIMode::View
    &&& n > 0 ==> 0 <= s.selected_monitor < n
    &&& s.mode == TUIMode::Resolution ==> {
        let k = s.monitors[s.selected_monitor].modes.len();
        (k == 0 && s.selected_resolution == 0) || 0 <= s.selected_resolution < k
    }
    &&& s.mode == TUIMode::Scale ==> 0 <= s.selected_scale < SCALE_COUNT
}

/// The state with the selected display replaced.
pub open spec fn with_selected(s: AppView, m: MonitorView) -> AppView {
    AppView { monitors: s.monitors.update(s.selected_monitor, m), ..s }
}

/// The state after a move of the selected display; a move that would leave
/// the coordinate range does nothing.
pub open spec fn step_move(s: AppView, dx: int, dy: int) -> AppView {
    let m = s.monitors[s.selected_monitor];
    if can_move(m.position, dx, dy) {
        with_selected(s, moved_spec(m, dx, dy))
    } else {
        s
    }
}

/// An action that is refused: a confirmation in the resolution mode with
/// the cursor on no mode.
pub open spec fn step_fails(s: AppView, a: Action) -> bool {
    a == Action::Confirm && s.mode == TUIMode::Resolution && s.selected_resolution
        >= s.monitors[s.selected_monitor].modes.len()
}

/// The state after an action. An action that does not belong to the mode,
/// or that needs a display when there is none, changes nothing.
pub open spec fn step(s: AppView, a: Action) -> AppView {
    let n = s.monitors.len();
    let sel = s.selected_monitor;
    if a == Action::Quit {
        AppView { exit: true, ..s }
    } else if a == Action::Commit || step_fails(s, a) {
        s
    } else {
        match s.mode {
            TUIMode::View => if n == 0 {
                s
            } else {
                match a {
                    Action::SelectNext => AppView { selected_monitor: next_index_spec(sel, n as int), ..s },
                    Action::SelectPrevious => AppView {
                        selected_monitor: previous_index_spec(sel, n as int),
                        ..s
                    },
                    Action::Enable => with_selected(s, enabled_spec(s.monitors[sel])),
                    Action::Disable => with_selected(s, disabled_spec(s.monitors[sel])),
                    Action::EnterMove => AppView { mode: TUIMode::Move, ..s },
                    Action::EnterResolution => AppView {
                        mode: TUIMode::Resolution,
                        selected_resolution: 0,
                        ..s
                    },
                    Action::EnterScale => AppView { mode: TUIMode::Scale, selected_scale: 0, ..s },
                    _ => s,
                }
            },
            TUIMode::Move => match a {
                Action::ExitMode => AppView { mode: TUIMode::View, ..s },
                Action::StepUp => step_move(s, 0, -STEP),
                Action::StepDown => step_move(s, 0, STEP as int),
                Action::StepLeft => step_move(s, -STEP, 0),
                Action::StepRight => step_move(s, STEP as int, 0),
                Action::StepUpFast => step_move(s, 0, -FAST_STEP),
                Action::StepDownFast => step_move(s, 0, FAST_STEP as int),
                Action::StepLeftFast => step_move(s, -FAST_STEP, 0),
                Action::StepRightFast => step_move(s, FAST_STEP as int, 0),
                _ => s,
            },
            TUIMode::Resolution => {
                let m = s.monitors[sel];
                let k = m.modes.len() as int;
                let cur = s.selected_resolution;
                match a {
                    Action::ExitMode => AppView { mode: TUIMode::View, ..s },
                    Action::SelectNext => if k > 0 {
                        AppView { selected_resolution: next_index_spec(cur, k), ..s }
                    } else {
                        s
                    },
                    Action::SelectPrevious => if k > 0 {
                        AppView { selected_resolution: previous_index_spec(cur, k), ..s }
                    } else {
                        s
                    },
                    Action::Confirm => with_selected(
                        s,
                        MonitorView { modes: select_mode(m.modes, cur), ..m },
                    ),
                    _ => s,
                }
            },
            TUIMode::Scale => {
                let m = s.monitors[sel];
                let cur = s.selected_scale;
                match a {
                    Action::ExitMode => AppView { mode: TUIMode::View, ..s },
                    Action::SelectNext => AppView {
                        selected_scale: next_index_spec(cur, SCALE_COUNT as int),
                        ..s
                    },
                    Action::SelectPrevious => AppView {
                        selected_scale: previous_index_spec(cur, SCALE_COUNT as int),
                        ..s
                    },
                    Action::Confirm => with_selected(
                        s,
                        MonitorView { scale: Some(scale_value_at(cur)), ..m },
                    ),
                    _ => s,
                }
            },
        }
    }
}

/// What an action returns: `IndexOutOfRange` when it is refused, else
/// whether the configuration is to be written out.
pub open spec fn step_result(s: AppView, a: Action) -> Result<Outcome, DisplayError> {
    if a == Action::Quit {
        Ok(Outcome::Continue)
    } else if a == Action::Commit {
        Ok(Outcome::Commit)
    } else if step_fails(s, a) {
        Err(DisplayError::IndexOutOfRange)
    } else {
        Ok(Outcome::Continue)
    }
}

impl Default for App {
    fn default() -> (r: Self)
        ensures
            r.wf(),
            r@.monitors.len() == 0,
            !r.exit,
            r.mode == TUIMode::View,
            r.selected_monitor == 0,
            r.selected_resolution == 0,
            r.selected_scale == 0,
    {
        App::new(Vec::new())
    }
}

impl App {
    /// The cursors are in range.
    pub open spec fn wf(&self) -> bool {
        wf_view(self@)
    }

    /// The interface over these displays, in the view mode with every cursor
    /// at zero.
    pub fn new(monitors: Vec<Monitor>) -> (r: Self)
        ensures
            r.wf(),
            r.monitors@ == monitors@,
            !r.exit,
            r.mode == TUIMode::View,
            r.selected_monitor == 0,
            r.selected_resolution == 0,
            r.selected_scale == 0,
    {
        App {
            exit: false,
            monitors,
            selected_monitor: 0,
            selected_resolution: 0,
            selected_scale: 0,
            mode: TUIMode::View,
        }
    }

    /// Applies the action that a key asks for in the current mode; a key
    /// that asks for none changes nothing.
    pub fn handle_key_event(&mut self, key: Key) -> (r: Result<Outcome, DisplayError>)
        requires
            old(self).wf(),
        ensures
            final(self).wf(),
            match key_action(old(self).mode, key) {
                Some(a) => final(self)@ == step(old(self)@, a) && r == step_result(old(self)@, a),
                None => final(self)@ == old(self)@ && r == Ok::<Outcome, DisplayError>(
                    Outcome::Continue,
                ),
            },
    {
        match action_for_key(self.mode, key) {
            Some(a) => self.handle_action(a),
            None => Ok(Outcome::Continue),
        }
    }

    /// Applies an action to the state.
    pub fn handle_action(&mut self, action: Action) -> (r: Result<Outcome, DisplayError>)
        requires
            old(self).wf(),
        ensures
            final(self).wf(),
            final(self)@ == step(old(self)@, action),
            r == step_result(old(self)@, action),
    {
        proof {
            lemma_step_keeps_wf(self@, action);
        }
        match action {
            Action::Quit => {
                self.exit = true;
                return Ok(Outcome::Continue);
            },
            Action::Commit => {
                return Ok(Outcome::Commit);
            },
            _ => {},
        }
        let n = self.monitors.len();
        if n == 0 {
            return Ok(Outcome::Continue);
        }
        let sel = self.selected_monitor;
        match self.mode {
            TUIMode::View => match action {
                Action::SelectNext => {
                    self.selected_monitor = next_index(sel, n);
                },
                Action::SelectPrevious => {
                    self.selected_monitor = previous_index(sel, n);
                },
                Action::Enable => {
                    let ghost v = self.monitors@;
                    self.monitors[sel].enable();
                    proof {
                        lemma_views_update(v, sel as int, self.monitors@[sel as int]);
                    }
                },
                Action::Disable => {
                    let ghost v = self.monitors@;
                    self.monitors[sel].disable();
                    proof {
                        lemma_views_update(v, sel as int, self.monitors@[sel as int]);
                    }
                },
                Action::EnterMove => {
                    self.mode = TUIMode::Move;
                },
                Action::EnterResolution => {
                    self.mode = TUIMode::Resolution;
                    self.selected_resolution = 0;
                },
                Action::EnterScale => {
                    self.mode = TUIMode::Scale;
                    self.selected_scale = 0;
                },
                _ => {},
            },
            TUIMode::Move => match action {
                Action::ExitMode => {
                    self.mode = TUIMode::View;
                },
                Action::StepUp => self.move_selected(0, -STEP),
                Action::StepDown => self.move_selected(0, STEP),
                Action::StepLeft => self.move_selected(-STEP, 0),
                Action::StepRight => self.move_selected(STEP, 0),
                Action::StepUpFast => self.move_selected(0, -FAST_STEP),
                Action::StepDownFast => self.move_selected(0, FAST_STEP),
                Action::StepLeftFast => self.move_selected(-FAST_STEP, 0),
                Action::StepRightFast => self.move_selected(FAST_STEP, 0),
                _ => {},
            },
            TUIMode::Resolution => {
                let k = self.monitors[sel].modes.len();
                match action {
                    Action::ExitMode => {
                        self.mode = TUIMode::View;
                    },
                    Action::SelectNext => {
                        if k > 0 {
                            self.selected_resolution = next_index(self.selected_resolution, k);
                        }
                    },
                    Action::SelectPrevious => {
                        if k > 0 {
                            self.selected_resolution = previous_index(self.selected_resolution, k);
                        }
                    },
                    Action::Confirm => {
                        let cur = self.selected_resolution;
                        let ghost v = self.monitors@;
                        let res = self.monitors[sel].set_current_resolution(cur);
                        proof {
                            lemma_views_update(v, sel as int, self.monitors@[sel as int]);
                            if cur >= k {
                                assert(views(self.monitors@) =~= views(v));
                            }
                        }
                        return match res {
                            Ok(()) => Ok(Outcome::Continue),
                            Err(e) => Err(e),
                        };
                    },
                    _ => {},
                }
            },
            TUIMode::Scale => match action {
                Action::ExitMode => {
                    self.mode = TUIMode::View;
                },
                Action::SelectNext => {
                    self.selected_scale = next_index(self.selected_scale, SCALE_COUNT);
                },
                Action::SelectPrevious => {
                    self.selected_scale = previous_index(self.selected_scale, SCALE_COUNT);
                },
                Action::Confirm => {
                    let table = ScaleValue::table();
                    let value = table[self.selected_scale].value;
                    let ghost v = self.monitors@;
                    self.monitors[sel].scale = Some(value);
                    proof {
                        lemma_views_update(v, sel as int, self.monitors@[sel as int]);
                    }
                },
                _ => {},
            },
        }
        Ok(Outcome::Continue)
    }
}

impl App {
    /// Moves the selected display by `dx`, `dy` when the move stays in the
    /// coordinate range.
    fn move_selected(&mut self, dx: i32, dy: i32)
        requires
            old(self).wf(),
            old(self).mode == TUIMode::Move,
        ensures
            final(self)@ == step_move(old(self)@, dx as int, dy as int),
    {
        let sel = self.selected_monitor;
        let fits = match self.monitors[sel].position {
            Some(p) => {
                let x = p.x as i64 + dx as i64;
                let y = p.y as i64 + dy as i64;
                i32::MIN as i64 <= x && x <= i32::MAX as i64 && i32::MIN as i64 <= y && y
                    <= i32::MAX as i64
            },
            None => true,
        };
        if fits {
            let ghost v = self.monitors@;
            self.monitors[sel].move_horizontal(dx);
            self.monitors[sel].move_vertical(dy);
            proof {
                lemma_views_update(v, sel as int, self.monitors@[sel as int]);
                assert(self.monitors@ == v.update(sel as int, self.monitors@[sel as int]));
            }
        }
    }
}

proof fn lemma_views_update(v: Seq<Monitor>, i: int, m: Monitor)
    requires
        0 <= i < v.len(),
    ensures
        views(v.update(i, m)) == views(v).update(i, m@),
{
    assert(views(v.update(i, m)) =~= views(v).update(i, m@));
}

/// Every action keeps the cursors in range.
pub proof fn lemma_step_keeps_wf(s: AppView, a: Action)
    requires
        wf_view(s),
    ensures
        wf_view(step(s, a)),
{
}

/// The state after the actions, in order.
pub open spec fn run(s: AppView, actions: Seq<Action>) -> AppView
    decreases actions.len(),
{
    if actions.len() == 0 {
        s
    } else {
        step(run(s, actions.drop_last()), actions.last())
    }
}

/// The mode cursor is bound to the selected display: entering the
/// resolution mode puts it on the first mode, and after any actions, in the
/// resolution mode, it stands on one of the selected display's modes, or at
/// zero when that display has none. It never keeps a place that only a
/// display selected earlier had.
pub proof fn lemma_resolution_cursor_bound(s: AppView, actions: Seq<Action>)
    requires
        wf_view(s),
    ensures
        s.mode == TUIMode::View && s.monitors.len() > 0 ==> step(
            s,
            Action::EnterResolution,
        ).mode == TUIMode::Resolution && step(s, Action::EnterResolution).selected_resolution
            == 0,
        ({
            let t = run(s, actions);
            let k = t.monitors[t.selected_monitor].modes.len();
            t.mode == TUIMode::Resolution ==> (k == 0 && t.selected_resolution == 0) || 0
                <= t.selected_resolution < k
        }),
{
    lemma_run_keeps_wf(s, actions);
}

proof fn lemma_run_keeps_wf(s: AppView, actions: Seq<Action>)
    requires
        wf_view(s),
    ensures
        wf_view(run(s, actions)),
    decreases actions.len(),
{
    if actions.len() > 0 {
        lemma_run_keeps_wf(s, actions.drop_last());
        lemma_step_keeps_wf(run(s, actions.drop_last()), actions.last());
    }
}

} // verus!
