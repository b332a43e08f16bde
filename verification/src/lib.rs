//! Client side of the Azure Cognitive Speech Services text-to-speech websocket protocol: message
//! framing, audio format negotiation, the opening handshake of a synthesis session and the decoder
//! that turns the service's frames into utterance events.

pub mod audio;
pub mod error;
pub mod event;
pub mod json;
pub mod message;
pub mod negotiation;
pub mod round_trip;
pub mod synthesiser;
pub mod text;

pub use crate::error::SynthesisError;
pub use crate::synthesiser::AzureCognitiveSpeechServicesSynthesiser;
