//! Value-level parsing and formatting helpers.
pub mod bools;
pub mod time;

pub use bools::{
    active_inactive, connected_disconnected, enabled_disabled, is_true, on_off, open_closed,
    pass_fail, true_false, up_down, yes_no,
};
