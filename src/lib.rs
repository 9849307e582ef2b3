//! A two-list task tracker driven by key events: the list and application
//! state machines, and the decisions the renderer reads from them.
use vstd::prelude::*;

pub mod app;
pub mod input;
pub mod laws;
pub mod list;
mod text;
pub mod view;

pub use app::{App, AppModel, Pane};
pub use input::{Event, KeyCode, KeyEvent, KeyEventKind};
pub use list::{ListModel, StatefulList};
pub use view::{ConfirmAction, HintBar, PaneStyle};
