//! The verified core of a language-model driver layer.
//!
//! - [`response`]: completions, their text, and whether they hold anything.
//! - [`stream`]: the events of a streamed completion.
//! - [`window`], [`clock`], [`wait`]: the hours in which requests may go out,
//!   the hour that it is, and holding a request back until both agree.
//! - [`driver`]: a driver behind such a window.
//! - [`config`], [`error`]: the configuration of a driver, shown without its API
//!   key, and the errors of drivers with their messages.
//! - [`message`], [`text`]: the data that these share, and numbers as text.
//!
//! Sending events, sleeping and talking to a provider are left to the caller.

pub mod clock;
pub mod config;
pub mod driver;
pub mod error;
pub mod message;
pub mod response;
pub mod stream;
pub mod text;
pub mod wait;
pub mod window;

pub use config::{default_skip_permissions, DriverConfig};
pub use driver::TimeWindowedDriver;
pub use error::LlmError;
pub use message::{ContentBlock, StopReason, TokenUsage, ToolCall};
pub use response::CompletionResponse;
pub use stream::{stream_outcome, StreamEvent};
pub use wait::{WaitAction, WaitStep, WindowWait};
pub use window::InferenceWindowConfig;
