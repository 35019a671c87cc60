//! Decision logic of a desktop shell that supervises an edge-runtime worker:
//! the worker's command line, the events that its output stream gives the
//! user interface, and the commands that the interface calls.

pub mod forward;
pub mod greeting;
pub mod launch;
pub mod text;
pub mod window;

pub use forward::{forward_all, Forwarder, Step, StreamEvent, TerminatedPayload, UiEvent};
pub use greeting::greet;
pub use launch::{start_edge_runtime, Launch, WorkerConfig};
pub use window::{open_main_window, MainWindow, WindowAction, WindowSpec};
