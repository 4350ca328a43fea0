//! Layout automation for the niri compositor: the decisions behind centering a
//! sole window, the master/slave split, and the reaction to compositor events.
//! Everything here works on snapshots handed in as plain values; talking to
//! the compositor is left to the caller.

mod action;
mod layout;
mod model;
mod query;
mod reactor;
mod socket_path;

pub use action::{
    center_window, set_window_width, Action, HALF, ONE_THIRD, PROPORTION_SCALE, TWO_THIRDS,
};
pub use layout::{choose_proportions, layout_changed_message, plan_layout_change, LayoutError};
pub use model::{Window, WindowLayout, Workspace};
pub use query::{
    get_master_slave_windows, non_floating_window_ids_in_focused_workspace,
    set_centered_window_if_only_one,
};
pub use reactor::{actions_for, default_excluded_apps, respond, Event, Reactor, Rule};
pub use socket_path::{contains_infix, first_socket_path, runtime_dir, RETRY_INTERVAL_SECS};
