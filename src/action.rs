use vstd::prelude::*;

verus! {

/// Proportions of the available width are counted in hundred-thousandths:
/// this value is the whole width.
pub const PROPORTION_SCALE: u32 = 100000;

/// Two thirds of the width, as the master of an emphasised split.
pub const TWO_THIRDS: u32 = 66667;

/// One third of the width, as the slave of an emphasised split.
pub const ONE_THIRD: u32 = 33333;

/// Half of the width.
pub const HALF: u32 = 50000;

/// A request for the compositor to change the layout.
#[derive(Clone, Copy, Debug, PartialEq, Eq, Structural)]
pub enum Action {
    /// Center the window with this id.
    CenterWindow { id: u64 },
    /// Give the window with this id `proportion` hundred-thousandths of the
    /// available width.
    SetWindowWidth { id: u64, proportion: u32 },
}

/// The action that gives window `window_id` the share `proportion` of the
/// width, in hundred-thousandths.
pub fn set_window_width(window_id: u64, proportion: u32) -> (r: Action)
    requires
        0 < proportion <= PROPORTION_SCALE,
    ensures
        r == (Action::SetWindowWidth { id: window_id, proportion }),
{
    Action::SetWindowWidth { id: window_id, proportion }
}

/// The action that centers window `window_id`.
pub fn center_window(window_id: u64) -> (r: Action)
    ensures
        r == (Action::CenterWindow { id: window_id }),
{
    Action::CenterWindow { id: window_id }
}

} // verus!
