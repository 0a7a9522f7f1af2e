mod element;
mod format;
pub mod laws;
mod process;
mod settings;
pub mod sink;

pub use element::{
    register_element, ElementRegistration, ELEMENT_NAME, PROPERTY_CMD, PROPERTY_WAIT_FOR_EXIT,
};
pub use format::FrameFormat;
pub use process::{ExitCause, LaunchPlan, ProcessStatus, ShutdownPlan, SHELL, SHELL_FLAG};
pub use settings::{Settings, WAIT_FOR_EXIT_DEFAULT_NS};
pub use sink::{FlowError, ProcessPhase, SinkError, SinkModel, SinkState, VideoPipeSink};
