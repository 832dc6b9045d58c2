//! Run-loop controller of a terminal display: decides, for each incoming
//! event, whether the domain state advances, whether the screen is redrawn,
//! how achieved frame throughput is tracked, and when the loop terminates.

pub mod laws;
pub mod render_flag;
pub mod scheduler;

pub use render_flag::ShouldRender;

pub use scheduler::{Action, App, AppRuntimeInfo, AppView, Event, KeyCode};
