//! What the pipeline is set up with, what it is fed, and what it answers.

use vstd::prelude::*;
use crate::button::MouseButton;

verus! {

/// The pipeline's settings.
#[derive(Debug, Clone, Copy, PartialEq, Eq)]
pub struct PipelineConfig {
    /// The least time between two lookups of the cursor shape, in
    /// milliseconds.
    pub debounce_interval_ms: u64,
    /// The number of buffered events at which a batch is sent.
    pub batch_max_size: usize,
    /// The time since the last flush at which a batch is sent, in
    /// milliseconds.
    pub batch_flush_interval_ms: u64,
    /// The length of one wait of the consumer, in milliseconds.
    pub receive_timeout_ms: u64,
}

/// The settings that a pipeline runs with unless told otherwise: lookups
/// 16 ms apart, batches of 100 events or 50 ms, waits of 100 ms.
pub open spec fn default_config() -> PipelineConfig {
    PipelineConfig {
        debounce_interval_ms: 16,
        batch_max_size: 100,
        batch_flush_interval_ms: 50,
        receive_timeout_ms: 100,
    }
}

impl Default for PipelineConfig {
    /// Lookups 16 ms apart, batches of 100 events or 50 ms, waits of 100 ms.
    fn default() -> (config: Self)
        ensures
            config == default_config(),
    {
        PipelineConfig {
            debounce_interval_ms: 16,
            batch_max_size: 100,
            batch_flush_interval_ms: 50,
            receive_timeout_ms: 100,
        }
    }
}

/// One raw signal of the pointing device.
#[derive(Debug, Clone, Copy, PartialEq, Eq)]
pub enum RawInput {
    /// The pointer is at the position with these coordinate bit patterns.
    MouseMove { x: u64, y: u64 },
    /// A button went down.
    ButtonPress(MouseButton),
    /// A button went up.
    ButtonRelease(MouseButton),
    /// Any other signal.
    Other,
}

/// What one raw signal changed.
#[derive(Debug, Clone, Copy, PartialEq, Eq)]
pub enum Reaction {
    /// Nothing: the pipeline is stopped, the signal is of no interest, or
    /// it repeats what is known.
    Ignored,
    /// The pointer moved to `position`; `type_changed` says whether a due
    /// lookup found a new cursor shape.
    Moved { position: (u64, u64), type_changed: bool },
    /// `button` went down at `position`.
    Pressed { button: MouseButton, position: (u64, u64) },
    /// `button` went up.
    Released { button: MouseButton },
}

/// Why the pipeline could not start or stop cleanly.
#[derive(Debug, Clone, PartialEq, Eq)]
pub enum PipelineError {
    /// The input source refused the callback.
    RegistrationFailure(String),
    /// The consumer thread had panicked.
    ThreadJoinFailure(String),
}

impl PipelineError {
    /// The text of the error.
    pub open spec fn text(self) -> Seq<char> {
        match self {
            PipelineError::RegistrationFailure(detail) => "Failed to start listening: "@ + detail@,
            PipelineError::ThreadJoinFailure(detail) => "Failed to join thread: "@ + detail@,
        }
    }

    /// The text of the error, as a string.
    pub fn message(&self) -> (text: String)
        ensures
            text@ == self.text(),
    {
        match self {
            PipelineError::RegistrationFailure(detail) => {
                "Failed to start listening: ".to_owned().concat(detail.as_str())
            },
            PipelineError::ThreadJoinFailure(detail) => {
                "Failed to join thread: ".to_owned().concat(detail.as_str())
            },
        }
    }
}

} // verus!
