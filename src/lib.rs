//! Backend logic of a desktop shell whose one custom command asks the
//! operating system for its Snap Layouts picker by synthesising Win+Z.

pub mod chord;
pub mod command;
pub mod startup;

pub use chord::{snap_layout_chord, KeyEvent};
pub use command::{snap_result, trigger_snap_layouts, Platform};
pub use startup::{window_ready_line, window_ready_message};
