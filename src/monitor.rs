use vstd::prelude::*;

verus! {

/// Where a display stands in the compositor's space: `x` grows rightward,
/// `y` grows downward.
#[derive(Clone, Copy, Debug, PartialEq, Eq, Structural)]
pub struct Position {
    pub x: i32,
    pub y: i32,
}

/// One mode a display supports. The refresh rate is in millihertz.
#[derive(Clone, Copy, Debug, PartialEq, Eq, Structural)]
pub struct Resolution {
    pub width: u32,
    pub height: u32,
    pub refresh: u32,
    pub preferred: bool,
    pub current: bool,
}

/// A display: its modes in discovery order, its place when it has one, and
/// its scale in thousandths (`1000` is a scale of one).
#[derive(Clone, Debug, PartialEq)]
pub struct Monitor {
    pub name: String,
    pub description: Option<String>,
    pub enabled: bool,
    pub modes: Vec<Resolution>,
    pub position: Option<Position>,
    pub scale: Option<u32>,
}

/// What a display holds, as mathematical values.
pub struct MonitorView {
    pub name: Seq<char>,
    pub description: Option<Seq<char>>,
    pub enabled: bool,
    pub modes: Seq<Resolution>,
    pub position: Option<Position>,
    pub scale: Option<u32>,
}

impl View for Monitor {
    type V = MonitorView;

    open spec fn view(&self) -> MonitorView {
        MonitorView {
            name: self.name@,
            description: match self.description {
                Some(d) => Some(d@),
                None => None,
            },
            enabled: self.enabled,
            modes: self.modes@,
            position: self.position,
            scale: self.scale,
        }
    }
}

/// The failures of the display model.
#[derive(Clone, Debug, PartialEq)]
pub enum DisplayError {
    /// A mode index at or past the end of the display's mode list.
    IndexOutOfRange,
    /// An enabled display, named here, with no mode to use or no position.
    UnresolvedDisplay(String),
}

/// The flag that selects a mode: `current` or, when `preferred`, `preferred`.
pub open spec fn flagged(m: Resolution, preferred: bool) -> bool {
    if preferred {
        m.preferred
    } else {
        m.current
    }
}

/// The first mode at or after index `k` that carries the flag.
pub open spec fn first_flagged(modes: Seq<Resolution>, preferred: bool, k: int) -> Option<Resolution>
    decreases modes.len() - k,
{
    if k < 0 || k >= modes.len() {
        None
    } else if flagged(modes[k], preferred) {
        Some(modes[k])
    } else {
        first_flagged(modes, preferred, k + 1)
    }
}

/// The mode a display runs in: the current one, else the preferred one.
pub open spec fn resolved_mode_spec(modes: Seq<Resolution>) -> Option<Resolution> {
    match first_flagged(modes, false, 0) {
        Some(m) => Some(m),
        None => first_flagged(modes, true, 0),
    }
}

/// The modes with `current` set on the one at `index` and cleared elsewhere.
pub open spec fn select_mode(modes: Seq<Resolution>, index: int) -> Seq<Resolution> {
    Seq::new(modes.len(), |j: int| Resolution { current: j == index, ..modes[j] })
}

/// A display after it is enabled: placed at the origin with a scale of one.
pub open spec fn enabled_spec(m: MonitorView) -> MonitorView {
    MonitorView { enabled: true, position: Some(Position { x: 0, y: 0 }), scale: Some(1000), ..m }
}

/// A display after it is disabled: nothing else changes.
pub open spec fn disabled_spec(m: MonitorView) -> MonitorView {
    MonitorView { enabled: false, ..m }
}

/// A move of `dx`, `dy` fits in the position's range, or there is no position.
pub open spec fn can_move(p: Option<Position>, dx: int, dy: int) -> bool {
    match p {
        Some(q) => i32::MIN <= q.x + dx <= i32::MAX && i32::MIN <= q.y + dy <= i32::MAX,
        None => true,
    }
}

/// The position moved by `dx`, `dy`; no position stays none.
pub open spec fn moved(p: Option<Position>, dx: int, dy: int) -> Option<Position> {
    match p {
        Some(q) => Some(Position { x: (q.x + dx) as i32, y: (q.y + dy) as i32 }),
        None => None,
    }
}

/// A display moved by `dx`, `dy`.
pub open spec fn moved_spec(m: MonitorView, dx: int, dy: int) -> MonitorView {
    MonitorView { position: moved(m.position, dx, dy), ..m }
}

/// After the mode at a valid index is made current, exactly one mode is
/// current, and it is the one at that index.
pub proof fn lemma_single_current(modes: Seq<Resolution>, index: int)
    requires
        0 <= index < modes.len(),
    ensures
        select_mode(modes, index).len() == modes.len(),
        select_mode(modes, index)[index].current,
        forall|j: int|
            0 <= j < modes.len() && #[trigger] select_mode(modes, index)[j].current ==> j == index,
{
}

impl Monitor {
    fn find_flagged(&self, preferred: bool) -> (r: Option<&Resolution>)
        ensures
            match r {
                Some(m) => first_flagged(self.modes@, preferred, 0) == Some(*m),
                None => first_flagged(self.modes@, preferred, 0) is None,
            },
    {
        let mut i: usize = 0;
        while i < self.modes.len()
            invariant
                i <= self.modes@.len(),
                first_flagged(self.modes@, preferred, 0) == first_flagged(self.modes@, preferred, i as int),
            decreases self.modes@.len() - i,
        {
            let m = &self.modes[i];
            if (preferred && m.preferred) || (!preferred && m.current) {
                return Some(m);
            }
            i = i + 1;
        }
        None
    }

    /// The first mode marked current, if any.
    pub fn get_current_resolution(&self) -> (r: Option<&Resolution>)
        ensures
            match r {
                Some(m) => first_flagged(self.modes@, false, 0) == Some(*m),
                None => first_flagged(self.modes@, false, 0) is None,
            },
    {
        self.find_flagged(false)
    }

    /// The first mode marked preferred, if any.
    pub fn get_prefered_resolution(&self) -> (r: Option<&Resolution>)
        ensures
            match r {
                Some(m) => first_flagged(self.modes@, true, 0) == Some(*m),
                None => first_flagged(self.modes@, true, 0) is None,
            },
    {
        self.find_flagged(true)
    }

    /// The mode the display runs in: the current one, else the preferred one.
    pub fn resolved_mode(&self) -> (r: Option<Resolution>)
        ensures
            r == resolved_mode_spec(self.modes@),
    {
        match self.get_current_resolution() {
            Some(m) => Some(*m),
            None => match self.get_prefered_resolution() {
                Some(m) => Some(*m),
                None => None,
            },
        }
    }

    /// Makes the mode at `index` the only current one. An index past the
    /// end is refused and leaves the display as it was.
    pub fn set_current_resolution(&mut self, index: usize) -> (r: Result<(), DisplayError>)
        ensures
            index < old(self).modes@.len() ==> r is Ok && final(self)@ == (MonitorView {
                modes: select_mode(old(self).modes@, index as int),
                ..old(self)@
            }),
            index >= old(self).modes@.len() ==> r == Err::<(), DisplayError>(
                DisplayError::IndexOutOfRange,
            ) && final(self)@ == old(self)@,
    {
        if index >= self.modes.len() {
            return Err(DisplayError::IndexOutOfRange);
        }
        let mut i: usize = 0;
        while i < self.modes.len()
            invariant
                index < self.modes@.len(),
                i <= self.modes@.len(),
                self.modes@.len() == old(self).modes@.len(),
                forall|j: int| 0 <= j < i ==> self.modes@[j] == select_mode(old(self).modes@, index as int)[j],
                forall|j: int| i <= j < self.modes@.len() ==> self.modes@[j] == old(self).modes@[j],
                self.name == old(self).name,
                self.description == old(self).description,
                self.enabled == old(self).enabled,
                self.position == old(self).position,
                self.scale == old(self).scale,
            decreases self.modes@.len() - i,
        {
            let mut m = self.modes[i];
            m.current = i == index;
            self.modes.set(i, m);
            i = i + 1;
        }
        assert(self.modes@ =~= select_mode(old(self).modes@, index as int));
        Ok(())
    }

    /// Moves the display by `direction` along `y`; one without a position
    /// stays where it is.
    pub fn move_vertical(&mut self, direction: i32)
        requires
            can_move(old(self).position, 0, direction as int),
        ensures
            final(self)@ == moved_spec(old(self)@, 0, direction as int),
    {
        if let Some(pos) = &mut self.position {
            pos.y = pos.y + direction;
        }
    }

    /// Moves the display by `direction` along `x`; one without a position
    /// stays where it is.
    pub fn move_horizontal(&mut self, direction: i32)
        requires
            can_move(old(self).position, direction as int, 0),
        ensures
            final(self)@ == moved_spec(old(self)@, direction as int, 0),
    {
        if let Some(pos) = &mut self.position {
            pos.x = pos.x + direction;
        }
    }

    /// Enables the display, placing it at the origin with a scale of one.
    pub fn enable(&mut self)
        ensures
            final(self)@ == enabled_spec(old(self)@),
    {
        self.enabled = true;
        self.position = Some(Position { x: 0, y: 0 });
        self.scale = Some(1000);
    }

    /// Disables the display; its position and scale stay.
    pub fn disable(&mut self)
        ensures
            final(self)@ == disabled_spec(old(self)@),
    {
        self.enabled = false;
    }
}

} // verus!
