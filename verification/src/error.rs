//! Errors of the DJ agent.

use vstd::prelude::*;

verus! {

/// Errors that can occur in the DJ agent system.
///
/// Quantities measured in beats or degrees are carried as the IEEE-754 bit
/// pattern of the `f64` they stand for; messages of parse and I/O failures
/// are carried as text.
#[derive(Debug, Clone, PartialEq, Eq)]
pub enum DJError {
    /// Command not found.
    CommandNotFound(String),
    /// Action not allowed due to safety constraints.
    ActionNotAllowed {
        /// Reason the action was blocked.
        reason: String,
    },
    /// Tier not unlocked.
    TierLocked {
        /// The locked tier.
        tier: u8,
    },
    /// Deck not found.
    DeckNotFound(String),
    /// Configuration error.
    ConfigError(String),
    /// YAML parsing error.
    YamlError(String),
    /// JSON parsing error.
    JsonError(String),
    /// I/O error.
    IoError(String),
    /// Bridge execution error.
    BridgeError(String),
    /// Voice recognition error.
    VoiceError(String),
    /// Gesture recognition error.
    GestureError(String),
    /// MIDI error.
    MidiError(String),
    /// Execution error.
    ExecutionError(String),
    /// Cooldown active.
    CooldownActive {
        /// Beats remaining on cooldown (bit pattern of an `f64`).
        beats_remaining: u64,
    },
    /// Quantization miss.
    QuantizationMiss {
        /// Phase error in degrees (bit pattern of an `f64`).
        phase_error_deg: u64,
    },
}

impl DJError {
    /// Creates an action not allowed error.
    pub fn action_not_allowed(reason: String) -> (e: DJError)
        ensures
            e == (DJError::ActionNotAllowed { reason }),
    {
        DJError::ActionNotAllowed { reason }
    }

    /// Creates a bridge error.
    pub fn bridge(message: String) -> (e: DJError)
        ensures
            e == DJError::BridgeError(message),
    {
        DJError::BridgeError(message)
    }

    /// Creates a voice error.
    pub fn voice(message: String) -> (e: DJError)
        ensures
            e == DJError::VoiceError(message),
    {
        DJError::VoiceError(message)
    }

    /// Creates a gesture error.
    pub fn gesture(message: String) -> (e: DJError)
        ensures
            e == DJError::GestureError(message),
    {
        DJError::GestureError(message)
    }

    /// Creates a MIDI error.
    pub fn midi(message: String) -> (e: DJError)
        ensures
            e == DJError::MidiError(message),
    {
        DJError::MidiError(message)
    }

    /// Creates an execution error.
    pub fn execution(message: String) -> (e: DJError)
        ensures
            e == DJError::ExecutionError(message),
    {
        DJError::ExecutionError(message)
    }
}

} // verus!
