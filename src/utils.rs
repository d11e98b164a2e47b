use vstd::prelude::*;

verus! {

/// The editing mode of the interface.
#[derive(Clone, Copy, Debug, PartialEq, Eq, Structural, Default)]
pub enum TUIMode {
    #[default]
    View,
    Move,
    Resolution,
    Scale,
}

/// The index after `current` in a cycle of `len` items.
pub open spec fn next_index_spec(current: int, len: int) -> int {
    if current + 1 >= len {
        0
    } else {
        current + 1
    }
}

/// The index before `current` in a cycle of `len` items.
pub open spec fn previous_index_spec(current: int, len: int) -> int {
    if current == 0 {
        len - 1
    } else {
        current - 1
    }
}

/// Steps forward over `len` items, wrapping from the last to the first.
pub fn next_index(current: usize, len: usize) -> (r: usize)
    requires
        len > 0,
    ensures
        r == next_index_spec(current as int, len as int),
        r < len,
{
    if current >= len - 1 {
        0
    } else {
        current + 1
    }
}

/// Steps backward over `len` items, wrapping from the first to the last.
pub fn previous_index(current: usize, len: usize) -> (r: usize)
    requires
        len > 0,
    ensures
        r == previous_index_spec(current as int, len as int),
        current < len ==> r < len,
{
    if current == 0 {
        len - 1
    } else {
        current - 1
    }
}

/// Stepping wraps at both ends: forward from the last index comes the
/// first, backward from the first comes the last.
pub proof fn lemma_index_wraps(n: int)
    requires
        n > 0,
    ensures
        next_index_spec(n - 1, n) == 0,
        previous_index_spec(0, n) == n - 1,
{
}

/// The number of entries in the scale table.
pub const SCALE_COUNT: usize = 9;

/// The factor of the scale table's entry `i`, in thousandths.
pub open spec fn scale_value_at(i: int) -> u32 {
    if i == 0 {
        500
    } else if i == 1 {
        600
    } else if i == 2 {
        750
    } else if i == 3 {
        800
    } else if i == 4 {
        1000
    } else if i == 5 {
        1250
    } else if i == 6 {
        1600
    } else if i == 7 {
        1750
    } else {
        2000
    }
}

/// The label of the scale table's entry `i`.
pub open spec fn scale_name_at(i: int) -> Seq<char> {
    if i == 0 {
        "50%"@
    } else if i == 1 {
        "66%"@
    } else if i == 2 {
        "75%"@
    } else if i == 3 {
        "80%"@
    } else if i == 4 {
        "100%"@
    } else if i == 5 {
        "125%"@
    } else if i == 6 {
        "160%"@
    } else if i == 7 {
        "175%"@
    } else {
        "200%"@
    }
}

/// A named scale factor, in thousandths.
#[derive(Clone, Copy, Debug, PartialEq, Eq)]
pub struct ScaleValue {
    pub name: &'static str,
    pub value: u32,
}

impl ScaleValue {
    /// A scale labelled `name`, of `value` thousandths.
    pub fn new(name: &'static str, value: u32) -> (r: Self)
        ensures
            r.name == name,
            r.value == value,
    {
        ScaleValue { name, value }
    }

    /// The scales offered, smallest first.
    pub fn table() -> (r: Vec<Self>)
        ensures
            r@.len() == SCALE_COUNT,
            forall|i: int|
                0 <= i < SCALE_COUNT ==> #[trigger] r@[i].value == scale_value_at(i) && r@[i].name@
                    == scale_name_at(i),
    {
        let r = vec![
            ScaleValue::new("50%", 500),
            ScaleValue::new("66%", 600),
            ScaleValue::new("75%", 750),
            ScaleValue::new("80%", 800),
            ScaleValue::new("100%", 1000),
            ScaleValue::new("125%", 1250),
            ScaleValue::new("160%", 1600),
            ScaleValue::new("175%", 1750),
            ScaleValue::new("200%", 2000),
        ];
        assert forall|i: int| 0 <= i < SCALE_COUNT implies #[trigger] r@[i].value == scale_value_at(i)
            && r@[i].name@ == scale_name_at(i) by {
            if i == 0 {
            } else if i == 1 {
            } else if i == 2 {
            } else if i == 3 {
            } else if i == 4 {
            } else if i == 5 {
            } else if i == 6 {
            } else if i == 7 {
            } else {
            }
        }
        r
    }
}

} // verus!
