//! The errors of a synthesis session.

use vstd::prelude::*;
use crate::message::{AzureCognitiveSpeechServicesMessageError, MessageErrorView};

verus! {

/// Why a session could not be opened or its stream was cut short.
#[derive(Debug)]
pub enum SynthesisError {
    /// The subscription key cannot stand in a request header.
    InvalidKey,
    /// A message could not be built or read.
    Message(AzureCognitiveSpeechServicesMessageError),
    /// The named event came without a binary body.
    ExpectedBinary(&'static str),
    /// The first field is missing where the second says.
    MissingField(&'static str, &'static str),
    /// The document to speak could not be written as SSML.
    Ssml(ssml::Error),
    /// A document inside an event is not JSON.
    Deserialize(simd_json::Error),
    /// An animation chunk does not have the shape of a frame index and rows of at most as many
    /// weights as there are blend shape keys.
    MalformedAnimationChunk,
    /// The service announced a second audio stream for one request.
    UnexpectedMultipleStreams,
    /// The service has no name for the audio format.
    UnsupportedAudioFormat,
    /// The service sent metadata of a type that this client does not read.
    UnimplementedMetadata(String),
    /// A frame answers another request than this session's.
    UnexpectedRequestId(String),
}

/// The mathematical content of an error.
pub enum SynthesisErrorView {
    InvalidKey,
    Message(MessageErrorView),
    ExpectedBinary(Seq<char>),
    MissingField(Seq<char>, Seq<char>),
    Ssml(ssml::Error),
    Deserialize(simd_json::Error),
    MalformedAnimationChunk,
    UnexpectedMultipleStreams,
    UnsupportedAudioFormat,
    UnimplementedMetadata(Seq<char>),
    UnexpectedRequestId(Seq<char>),
}

impl View for SynthesisError {
    type V = SynthesisErrorView;

    open spec fn view(&self) -> SynthesisErrorView {
        match *self {
            SynthesisError::InvalidKey => SynthesisErrorView::InvalidKey,
            SynthesisError::Message(error) => SynthesisErrorView::Message(error@),
            SynthesisError::ExpectedBinary(event) => SynthesisErrorView::ExpectedBinary(event@),
            SynthesisError::MissingField(field, place) => SynthesisErrorView::MissingField(field@, place@),
            SynthesisError::Ssml(error) => SynthesisErrorView::Ssml(error),
            SynthesisError::Deserialize(error) => SynthesisErrorView::Deserialize(error),
            SynthesisError::MalformedAnimationChunk => SynthesisErrorView::MalformedAnimationChunk,
            SynthesisError::UnexpectedMultipleStreams => SynthesisErrorView::UnexpectedMultipleStreams,
            SynthesisError::UnsupportedAudioFormat => SynthesisErrorView::UnsupportedAudioFormat,
            SynthesisError::UnimplementedMetadata(kind) => SynthesisErrorView::UnimplementedMetadata(kind@),
            SynthesisError::UnexpectedRequestId(id) => SynthesisErrorView::UnexpectedRequestId(id@),
        }
    }
}

} // verus!
