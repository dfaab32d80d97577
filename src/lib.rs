//! Process-wide progress reporting for batch and worker-pool tools: a single
//! aggregate bar, or one status line per worker plus a trailing aggregate bar.
//!
//! The trackers are plain values whose behaviour is stated over a
//! mathematical model; rendering is delegated to `indicatif`.

mod render;
pub mod layout;
pub mod single;
pub mod multi;

pub use layout::{bar_template, ordinal_label};
pub use single::{finish_progress_bar, init_progress_bar, set_pos, update_bar, ProgressTracker};
pub use multi::{
    finish_multi_progress_bar, init_multi_progress_bar, update_mp_bar, update_mp_msg,
    MultiTracker, ProgressError,
};
