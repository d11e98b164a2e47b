use vstd::prelude::*;
use crate::monitor::{resolved_mode_spec, DisplayError, Monitor, MonitorView};
use crate::text::{digits, int_text, milli_text, push_digits, push_int, push_milli};

verus! {

/// The views of a list of displays.
pub open spec fn views(ms: Seq<Monitor>) -> Seq<MonitorView> {
    ms.map_values(|m: Monitor| m@)
}

/// The configuration line of a display, or none for an enabled display with
/// no mode to use or no position. A missing scale is written as one.
pub open spec fn config_line(m: MonitorView) -> Option<Seq<char>> {
    if !m.enabled {
        Some("monitor = "@ + m.name + ", disabled"@)
    } else {
        match (resolved_mode_spec(m.modes), m.position) {
            (Some(r), Some(p)) => Some(
                "monitor = "@ + m.name + ", "@ + digits(r.width as nat) + "x"@ + digits(
                    r.height as nat,
                ) + "@"@ + milli_text(r.refresh as nat) + ", "@ + int_text(p.x as int) + "x"@
                    + int_text(p.y as int) + ", "@ + milli_text(
                    match m.scale {
                        Some(s) => s as nat,
                        None => 1000,
                    },
                ),
            ),
            _ => None,
        }
    }
}

/// The configuration of the first `n` displays, one line each ending in a
/// newline; or the index of the first of them that has no line.
pub open spec fn config_upto(ms: Seq<MonitorView>, n: int) -> Result<Seq<char>, int>
    decreases n,
{
    if n <= 0 {
        Ok(Seq::empty())
    } else {
        match config_upto(ms, n - 1) {
            Err(k) => Err(k),
            Ok(t) => match config_line(ms[n - 1]) {
                Some(l) => Ok(t + l + seq!['\n']),
                None => Err(n - 1),
            },
        }
    }
}

/// The configuration of all the displays, in their order.
pub open spec fn config_spec(ms: Seq<MonitorView>) -> Result<Seq<char>, int> {
    config_upto(ms, ms.len() as int)
}

impl Monitor {
    /// The display's line in the compositor's configuration.
    pub fn to_hyprland_config(&self) -> (r: Result<String, DisplayError>)
        ensures
            match config_line(self@) {
                Some(t) => r matches Ok(s) && s@ == t,
                None => r matches Err(DisplayError::UnresolvedDisplay(n)) && n@ == self.name@,
            },
    {
        let mut s = String::new();
        s.append("monitor = ");
        s.append(self.name.as_str());
        if !self.enabled {
            s.append(", disabled");
            return Ok(s);
        }
        let mode = match self.resolved_mode() {
            Some(m) => m,
            None => return Err(DisplayError::UnresolvedDisplay(self.name.clone())),
        };
        let pos = match self.position {
            Some(p) => p,
            None => return Err(DisplayError::UnresolvedDisplay(self.name.clone())),
        };
        let scale: u32 = match self.scale {
            Some(v) => v,
            None => 1000,
        };
        s.append(", ");
        push_digits(&mut s, mode.width as u64);
        s.append("x");
        push_digits(&mut s, mode.height as u64);
        s.append("@");
        push_milli(&mut s, mode.refresh);
        s.append(", ");
        push_int(&mut s, pos.x as i64);
        s.append("x");
        push_int(&mut s, pos.y as i64);
        s.append(", ");
        push_milli(&mut s, scale);
        Ok(s)
    }

    /// The whole configuration: one line per display, in order, each ending
    /// in a newline. The first display without a line is named in the error.
    pub fn hyprland_config(monitors: &Vec<Monitor>) -> (r: Result<String, DisplayError>)
        ensures
            match config_spec(views(monitors@)) {
                Ok(t) => r matches Ok(s) && s@ == t,
                Err(k) => r matches Err(DisplayError::UnresolvedDisplay(n)) && 0 <= k
                    < monitors@.len() && n@ == monitors@[k].name@,
            },
    {
        let ghost ms = views(monitors@);
        let mut s = String::new();
        let mut i: usize = 0;
        while i < monitors.len()
            invariant
                ms == views(monitors@),
                i <= monitors@.len(),
                config_upto(ms, i as int) == Ok::<Seq<char>, int>(s@),
            decreases monitors@.len() - i,
        {
            match monitors[i].to_hyprland_config() {
                Ok(line) => {
                    let ghost before = s@;
                    s.append(line.as_str());
                    s.append("\n");
                    proof {
                        reveal_strlit("\n");
                        assert(ms[i as int] == monitors@[i as int]@);
                        assert(s@ =~= before + line@ + seq!['\n']);
                    }
                },
                Err(e) => {
                    proof {
                        assert(ms[i as int] == monitors@[i as int]@);
                        lemma_config_upto_stays_err(ms, i as int + 1, ms.len() as int);
                    }
                    return Err(e);
                },
            }
            i = i + 1;
        }
        Ok(s)
    }
}

proof fn lemma_config_upto_stays_err(ms: Seq<MonitorView>, n: int, m: int)
    requires
        0 < n <= m,
        config_upto(ms, n) is Err,
    ensures
        config_upto(ms, m) == config_upto(ms, n),
    decreases m - n,
{
    if m > n {
        lemma_config_upto_stays_err(ms, n, m - 1);
    }
}

} // verus!
