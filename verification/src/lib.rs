//! Decision logic of a synchronous capture orchestrator: validated sizes,
//! command lines of the capture tools, polling decisions, the recorder's
//! state, exit codes and error reports. The processes, files and signals
//! themselves belong to the driver that runs these decisions.
pub mod text;
pub mod size;
pub mod error;
pub mod wait;
pub mod commands;
pub mod session;
pub mod cli;

pub use size::Size;
pub use error::{Error, Status, run_exit_code};
pub use session::Session;
