use vstd::prelude::*;

use crate::action::{set_window_width, Action, HALF, ONE_THIRD, TWO_THIRDS};
use crate::model::{master_slave, Window};
use crate::query::get_master_slave_windows;

verus! {

/// Why a layout change could not be made.
#[derive(Clone, Copy, Debug, PartialEq, Eq, Structural)]
pub enum LayoutError {
    /// The compositor's socket could not be opened.
    ConnectFailed,
    /// The window list could not be fetched.
    WindowsUnavailable,
    /// The compositor answered with something other than what was asked for.
    UnexpectedResponse,
    /// The focused workspace lacks a master or a slave window.
    NotEnoughWindows,
    /// A width change could not be sent.
    SetWidthFailed,
    /// A centering could not be sent.
    CenterFailed,
}

impl LayoutError {
    /// The text reported to the caller of a layout change.
    pub fn message(&self) -> (r: &'static str)
        ensures
            match self {
                LayoutError::ConnectFailed => r@ == "failed to connect to niri"@,
                LayoutError::WindowsUnavailable => r@ == "failed to get windows"@,
                LayoutError::UnexpectedResponse => r@ == "unexpected response from niri"@,
                LayoutError::NotEnoughWindows => r@ == "not enough windows to change layout"@,
                LayoutError::SetWidthFailed => r@ == "failed to set window width"@,
                LayoutError::CenterFailed => r@ == "failed to center window"@,
            },
    {
        match self {
            LayoutError::ConnectFailed => "failed to connect to niri",
            LayoutError::WindowsUnavailable => "failed to get windows",
            LayoutError::UnexpectedResponse => "unexpected response from niri",
            LayoutError::NotEnoughWindows => "not enough windows to change layout",
            LayoutError::SetWidthFailed => "failed to set window width",
            LayoutError::CenterFailed => "failed to center window",
        }
    }
}

/// The text reported after a successful layout change.
pub fn layout_changed_message() -> (r: &'static str)
    ensures
        r@ == "go master/slave mode"@,
{
    "go master/slave mode"
}

/// Target shares of master and slave: equal widths are taken as an even split
/// that is to become two thirds and one third; any other pair is reset to halves.
pub open spec fn proportions_for(master: Window, slave: Window) -> (u32, u32) {
    if master.layout.window_size.0 == slave.layout.window_size.0 {
        (TWO_THIRDS, ONE_THIRD)
    } else {
        (HALF, HALF)
    }
}

/// The shares that master and slave are to get, from their current widths.
pub fn choose_proportions(master: &Window, slave: &Window) -> (r: (u32, u32))
    ensures
        r == proportions_for(*master, *slave),
{
    if master.layout.window_size.0 == slave.layout.window_size.0 {
        (TWO_THIRDS, ONE_THIRD)
    } else {
        (HALF, HALF)
    }
}

/// The two width changes of a master/slave rebalance of `windows`, master
/// first, or the reason why there are none.
pub open spec fn layout_change(windows: Seq<Window>) -> Result<(Action, Action), LayoutError> {
    match master_slave(windows) {
        (Some(m), Some(s)) => Ok(
            (
                Action::SetWindowWidth { id: m.id, proportion: proportions_for(m, s).0 },
                Action::SetWindowWidth { id: s.id, proportion: proportions_for(m, s).1 },
            ),
        ),
        _ => Err(LayoutError::NotEnoughWindows),
    }
}

/// Plans a master/slave rebalance of the focused workspace: the master and
/// slave of `windows` get the shares that `choose_proportions` picks. Without
/// both of them nothing is to be changed and `NotEnoughWindows` is returned.
pub fn plan_layout_change(windows: &[Window]) -> (r: Result<(Action, Action), LayoutError>)
    ensures
        r == layout_change(windows@),
{
    let (master, slave) = get_master_slave_windows(windows);
    match (master, slave) {
        (Some(m), Some(s)) => {
            let (pm, ps) = choose_proportions(m, s);
            Ok((set_window_width(m.id, pm), set_window_width(s.id, ps)))
        },
        _ => {
            Err(LayoutError::NotEnoughWindows)
        },
    }
}

} // verus!
