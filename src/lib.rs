use vstd::prelude::*;

pub mod disk;
pub mod launch;
pub mod locale;
pub mod registry;
pub mod streams;
pub mod table;
pub mod tray;

verus! {

/// Lifecycle state of a supervised application.
#[derive(Clone, Copy, Debug, PartialEq, Eq, Structural)]
pub enum AppState {
    Running,
    Stopped,
    Failed,
}

/// A state transition of one supervised process, handed to the UI layer.
#[derive(Clone, Debug)]
pub struct StateChangeEvent {
    pub app_id: String,
    pub pid: u32,
    pub state: AppState,
}

/// What a command that ran to completion printed, and how it ended.
#[derive(Clone, Debug)]
pub struct CommandOutput {
    pub stdout: String,
    pub stderr: String,
    pub code: Option<i32>,
}

} // verus!
