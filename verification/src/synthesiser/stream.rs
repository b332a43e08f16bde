//! Decoding the frames that the service sends into the events of an utterance.
//!
//! The decoder is fed one frame at a time and answers with what the frame means: nothing for
//! the caller, one event, the end of the turn, or an error. After the end of the turn, a close
//! or an error it is finished and answers nothing else.
//!
//! Messages are told apart by their path. A message with a path that the decoder does not know
//! is passed over, so that the service can add messages; metadata of a type that it does not
//! read breaks the stream, and so does a frame that answers another request than the
//! decoder's.

use vstd::prelude::*;
use vstd::string::*;
use crate::error::{SynthesisError, SynthesisErrorView};
use crate::event::{
    blendshape_key, spec_blendshape_key, spec_frame_view, spec_frames_view, BlendShape,
    BlendShapeView, UtteranceEvent, UtteranceEventView, BLENDSHAPE_KEY_COUNT,
};
use crate::json::{
    array, json_array, json_is_number, json_member, json_parse, member, member_string, member_u64,
    parse, spec_member_string, spec_member_u64,
};
use crate::message::{
    spec_parse_binary, spec_parse_text, spec_text_of, AzureCognitiveSpeechServicesMessage,
    AzureCognitiveSpeechServicesMessageBody, MessageBodyView, MessageErrorView, MessageView,
};

verus! {

/// A frame as it comes from the websocket.
#[derive(Clone, Debug)]
pub enum InboundFrame {
    Text(String),
    Binary(Vec<u8>),
    /// The peer closes the connection.
    Close,
    /// Any other frame, such as a ping.
    Other,
}

pub enum InboundFrameView {
    Text(Seq<char>),
    Binary(Seq<u8>),
    Close,
    Other,
}

impl View for InboundFrame {
    type V = InboundFrameView;

    open spec fn view(&self) -> InboundFrameView {
        match *self {
            InboundFrame::Text(text) => InboundFrameView::Text(text@),
            InboundFrame::Binary(bytes) => InboundFrameView::Binary(bytes@),
            InboundFrame::Close => InboundFrameView::Close,
            InboundFrame::Other => InboundFrameView::Other,
        }
    }
}

/// What one frame means to the caller.
#[derive(Debug)]
pub enum Step {
    /// Nothing to hand on; the stream goes on.
    Skip,
    /// One event; the stream goes on.
    Event(UtteranceEvent),
    /// The turn ended: the stream is complete.
    TurnEnd,
    /// The peer closed the connection before the turn ended.
    Closed,
    /// The stream is broken.
    Failed(SynthesisError),
    /// The frame came after the stream had ended.
    Finished,
}

pub enum StepView {
    Skip,
    Event(UtteranceEventView),
    TurnEnd,
    Closed,
    Failed(SynthesisErrorView),
    Finished,
}

impl View for Step {
    type V = StepView;

    open spec fn view(&self) -> StepView {
        match *self {
            Step::Skip => StepView::Skip,
            Step::Event(event) => StepView::Event(event@),
            Step::TurnEnd => StepView::TurnEnd,
            Step::Closed => StepView::Closed,
            Step::Failed(error) => StepView::Failed(error@),
            Step::Finished => StepView::Finished,
        }
    }
}

/// The decoder of one request's stream.
#[derive(Clone, Debug)]
pub struct EventStreamDecoder {
    request_id: String,
    stream_id: Option<String>,
    finished: bool,
}

pub struct DecoderView {
    pub request_id: Seq<char>,
    /// The audio stream that the service announced, once it has.
    pub stream_id: Option<Seq<char>>,
    pub finished: bool,
}

impl View for EventStreamDecoder {
    type V = DecoderView;

    closed spec fn view(&self) -> DecoderView {
        DecoderView {
            request_id: self.request_id@,
            stream_id: match self.stream_id {
                Some(id) => Some(id@),
                None => None,
            },
            finished: self.finished,
        }
    }
}

/// The views of a result's two sides.
pub open spec fn spec_event_outcome(result: Result<UtteranceEvent, SynthesisError>) -> Result<
    UtteranceEventView,
    SynthesisErrorView,
> {
    match result {
        Ok(event) => Ok(event@),
        Err(error) => Err(error@),
    }
}

/// The rows of an animation chunk, each with its weights, or `None` for a row that is no
/// array; `None` where the rows are no array.
pub open spec fn spec_read_rows(rows: simd_json::OwnedValue) -> Option<
    Seq<Option<Seq<simd_json::OwnedValue>>>,
> {
    match json_array(rows) {
        Some(list) => Some(Seq::new(list.len(), |i: int| json_array(list[i]))),
        None => None,
    }
}

/// The rows that an animation chunk holds under `BlendShapes`.
pub open spec fn spec_chunk_rows(chunk: simd_json::OwnedValue) -> Option<
    Seq<Option<Seq<simd_json::OwnedValue>>>,
> {
    match json_member(chunk, "BlendShapes"@) {
        Some(rows) => spec_read_rows(rows),
        None => None,
    }
}

/// The content of rows as they were read.
pub open spec fn spec_rows_view(rows: Seq<Option<Vec<simd_json::OwnedValue>>>) -> Seq<
    Option<Seq<simd_json::OwnedValue>>,
> {
    Seq::new(
        rows.len(),
        |i: int|
            match rows[i] {
                Some(weights) => Some(weights@),
                None => None,
            },
    )
}

/// The content of optional rows as they were read.
pub open spec fn spec_optional_rows_view(rows: Option<Vec<Option<Vec<simd_json::OwnedValue>>>>) -> Option<
    Seq<Option<Seq<simd_json::OwnedValue>>>,
> {
    match rows {
        Some(read) => Some(spec_rows_view(read@)),
        None => None,
    }
}

/// The blend shapes of a row: each weight under the key at its position.
pub open spec fn spec_shapes(weights: Seq<simd_json::OwnedValue>) -> Seq<BlendShapeView> {
    Seq::new(
        weights.len(),
        |j: int| BlendShapeView { key: spec_blendshape_key(j as usize), weight: weights[j] },
    )
}

/// Whether a row is an array of numbers, at most as many as there are blend shape keys.
pub open spec fn spec_row_fits(row: Option<Seq<simd_json::OwnedValue>>) -> bool {
    row matches Some(weights) && weights.len() <= BLENDSHAPE_KEY_COUNT && forall|j: int|
        0 <= j < weights.len() ==> json_is_number(#[trigger] weights[j])
}

/// Whether every row is an array of numbers, at most as many as there are blend shape keys.
pub open spec fn spec_rows_fit(rows: Seq<Option<Seq<simd_json::OwnedValue>>>) -> bool {
    forall|i: int| 0 <= i < rows.len() ==> spec_row_fits(#[trigger] rows[i])
}

/// The event made of a frame index and rows of weights: one frame for each row. Without a
/// frame index, without rows, or with a row that does not fit, the chunk is malformed.
pub open spec fn spec_frames_from(
    frame_index: Option<u64>,
    rows: Option<Seq<Option<Seq<simd_json::OwnedValue>>>>,
) -> Result<UtteranceEventView, SynthesisErrorView> {
    match (frame_index, rows) {
        (Some(index), Some(read)) => if spec_rows_fit(read) {
            Ok(
                UtteranceEventView::BlendShapeVisemesChunk {
                    frame_index: index,
                    frames: Seq::new(read.len(), |i: int| spec_shapes(read[i].unwrap())),
                },
            )
        } else {
            Err(SynthesisErrorView::MalformedAnimationChunk)
        },
        _ => Err(SynthesisErrorView::MalformedAnimationChunk),
    }
}

/// The event that an animation chunk holds.
pub open spec fn spec_viseme_event(chunk: simd_json::OwnedValue) -> Result<
    UtteranceEventView,
    SynthesisErrorView,
> {
    spec_frames_from(spec_member_u64(chunk, "FrameIndex"@), spec_chunk_rows(chunk))
}

/// The first of the metadata entries of a document.
pub open spec fn spec_first_metadata(document: simd_json::OwnedValue) -> Option<
    simd_json::OwnedValue,
> {
    match json_member(document, "Metadata"@) {
        Some(entries) => match json_array(entries) {
            Some(list) => if list.len() > 0 {
                Some(list[0])
            } else {
                None
            },
            None => None,
        },
        None => None,
    }
}

/// The text that a boundary's data holds under `text`, `Text`.
pub open spec fn spec_boundary_text(data: simd_json::OwnedValue) -> Option<Seq<char>> {
    match json_member(data, "text"@) {
        Some(inner) => spec_member_string(inner, "Text"@),
        None => None,
    }
}

/// A field that an `audio.metadata` event lacks.
pub open spec fn spec_metadata_lacks(field: Seq<char>) -> SynthesisErrorView {
    SynthesisErrorView::MissingField(field, "`audio.metadata` event"@)
}

/// The boundary made of an offset, a duration and a text, asked for in this order; `sentence`
/// tells whether it bounds a sentence or a word.
pub open spec fn spec_boundary_from(
    sentence: bool,
    offset: Option<u64>,
    duration: Option<u64>,
    text: Option<Seq<char>>,
) -> Result<UtteranceEventView, SynthesisErrorView> {
    match offset {
        None => Err(spec_metadata_lacks("Offset"@)),
        Some(offset_ticks) => match duration {
            None => Err(spec_metadata_lacks("Duration"@)),
            Some(duration_ticks) => match text {
                None => Err(spec_metadata_lacks("Text"@)),
                Some(text) => if sentence {
                    Ok(UtteranceEventView::SentenceBoundary { offset_ticks, duration_ticks, text })
                } else {
                    Ok(UtteranceEventView::WordBoundary { offset_ticks, duration_ticks, text })
                },
            },
        },
    }
}

/// The boundary that the data of a metadata entry holds.
pub open spec fn spec_boundary_event(data: simd_json::OwnedValue, sentence: bool) -> Result<
    UtteranceEventView,
    SynthesisErrorView,
> {
    spec_boundary_from(
        sentence,
        spec_member_u64(data, "Offset"@),
        spec_member_u64(data, "Duration"@),
        spec_boundary_text(data),
    )
}

/// The types of metadata that the service sends.
#[derive(Clone, Copy, Debug, PartialEq, Eq, Structural)]
pub enum MetadataKind {
    WordBoundary,
    SentenceBoundary,
    Viseme,
    /// A type that this client does not read.
    Other,
}

/// The type of metadata that a name stands for.
pub open spec fn spec_metadata_kind(name: Seq<char>) -> MetadataKind {
    if name == "WordBoundary"@ {
        MetadataKind::WordBoundary
    } else if name == "SentenceBoundary"@ {
        MetadataKind::SentenceBoundary
    } else if name == "Viseme"@ {
        MetadataKind::Viseme
    } else {
        MetadataKind::Other
    }
}

/// The event that the data of a viseme entry holds: its animation chunk, itself JSON, is read.
pub open spec fn spec_viseme_data_event(data: simd_json::OwnedValue) -> Result<
    UtteranceEventView,
    SynthesisErrorView,
> {
    match spec_member_string(data, "AnimationChunk"@) {
        None => Err(spec_metadata_lacks("AnimationChunk"@)),
        Some(text) => match json_parse(text) {
            Err(error) => Err(SynthesisErrorView::Deserialize(error)),
            Ok(chunk) => spec_viseme_event(chunk),
        },
    }
}

/// The event that the document of an `audio.metadata` message holds.
pub open spec fn spec_metadata_event(document: simd_json::OwnedValue) -> Result<
    UtteranceEventView,
    SynthesisErrorView,
> {
    match spec_first_metadata(document) {
        None => Err(spec_metadata_lacks("Metadata"@)),
        Some(entry) => match spec_member_string(entry, "Type"@) {
            None => Err(spec_metadata_lacks("Type"@)),
            Some(kind) => match json_member(entry, "Data"@) {
                None => Err(spec_metadata_lacks("Data"@)),
                Some(data) => match spec_metadata_kind(kind) {
                    MetadataKind::WordBoundary => spec_boundary_event(data, false),
                    MetadataKind::SentenceBoundary => spec_boundary_event(data, true),
                    MetadataKind::Viseme => spec_viseme_data_event(data),
                    MetadataKind::Other => Err(SynthesisErrorView::UnimplementedMetadata(kind)),
                },
            },
        },
    }
}

/// The audio stream that the document of a `response` message announces.
pub open spec fn spec_response_stream(document: simd_json::OwnedValue) -> Result<
    Seq<char>,
    SynthesisErrorView,
> {
    match json_member(document, "audio"@) {
        None => Err(SynthesisErrorView::MissingField("audio"@, "`response` event"@)),
        Some(audio) => if spec_member_string(audio, "type"@) is None {
            Err(SynthesisErrorView::MissingField("type"@, "`response` event audio metadata"@))
        } else {
            match spec_member_string(audio, "streamId"@) {
                None => Err(
                    SynthesisErrorView::MissingField(
                        "streamId"@,
                        "`response` event audio metadata"@,
                    ),
                ),
                Some(stream) => Ok(stream),
            }
        },
    }
}

/// The JSON document in the body of a message.
pub open spec fn spec_body_document(body: MessageBodyView) -> Result<
    simd_json::OwnedValue,
    SynthesisErrorView,
> {
    match body {
        MessageBodyView::Binary(_) => Err(
            SynthesisErrorView::Message(MessageErrorView::ParseBinary),
        ),
        MessageBodyView::Text(text) => match json_parse(text) {
            Ok(document) => Ok(document),
            Err(error) => Err(SynthesisErrorView::Message(MessageErrorView::ParseJson(error))),
        },
    }
}

/// The decoder after the stream has ended.
pub open spec fn spec_finish(state: DecoderView) -> DecoderView {
    DecoderView { finished: true, ..state }
}

/// The state and the answer after an error.
pub open spec fn spec_fail(state: DecoderView, error: SynthesisErrorView) -> (DecoderView, StepView) {
    (spec_finish(state), StepView::Failed(error))
}

/// The state and the answer after the stream that a `response` names is known. The first
/// stream is kept; another one later breaks the stream.
pub open spec fn spec_note_stream(state: DecoderView, stream: Seq<char>) -> (DecoderView, StepView) {
    match state.stream_id {
        Some(known) => if known == stream {
            (state, StepView::Skip)
        } else {
            spec_fail(state, SynthesisErrorView::UnexpectedMultipleStreams)
        },
        None => (DecoderView { stream_id: Some(stream), ..state }, StepView::Skip),
    }
}

/// The state and the answer after a message was read, by its path.
pub open spec fn spec_dispatch(state: DecoderView, message: MessageView) -> (DecoderView, StepView) {
    if message.request_id != state.request_id {
        spec_fail(state, SynthesisErrorView::UnexpectedRequestId(message.request_id))
    } else if message.path == "turn.start"@ {
        (state, StepView::Skip)
    } else if message.path == "turn.end"@ {
        (spec_finish(state), StepView::TurnEnd)
    } else if message.path == "audio"@ {
        match message.body {
            MessageBodyView::Binary(bytes) => (
                state,
                StepView::Event(UtteranceEventView::AudioChunk(bytes)),
            ),
            MessageBodyView::Text(_) => spec_fail(
                state,
                SynthesisErrorView::ExpectedBinary("audio"@),
            ),
        }
    } else if message.path == "audio.metadata"@ {
        match spec_body_document(message.body) {
            Err(error) => spec_fail(state, error),
            Ok(document) => match spec_metadata_event(document) {
                Err(error) => spec_fail(state, error),
                Ok(event) => (state, StepView::Event(event)),
            },
        }
    } else if message.path == "response"@ {
        match spec_body_document(message.body) {
            Err(error) => spec_fail(state, error),
            Ok(document) => match spec_response_stream(document) {
                Err(error) => spec_fail(state, error),
                Ok(stream) => spec_note_stream(state, stream),
            },
        }
    } else {
        (state, StepView::Skip)
    }
}

/// The state and the answer after the frame's message was read, or could not be.
pub open spec fn spec_after_parse(
    state: DecoderView,
    parsed: Result<MessageView, MessageErrorView>,
) -> (DecoderView, StepView) {
    match parsed {
        Err(error) => spec_fail(state, SynthesisErrorView::Message(error)),
        Ok(message) => spec_dispatch(state, message),
    }
}

/// The state and the answer after one frame.
pub open spec fn spec_step(state: DecoderView, frame: InboundFrameView) -> (DecoderView, StepView) {
    if state.finished {
        (state, StepView::Finished)
    } else {
        match frame {
            InboundFrameView::Close => (spec_finish(state), StepView::Closed),
            InboundFrameView::Other => (state, StepView::Skip),
            InboundFrameView::Text(text) => spec_after_parse(state, spec_parse_text(text)),
            InboundFrameView::Binary(bytes) => spec_after_parse(state, spec_parse_binary(bytes)),
        }
    }
}

fn same_text(a: &str, b: &str) -> (same: bool)
    ensures
        same == (a@ == b@),
{
    String::from_str(a) == String::from_str(b)
}

fn metadata_lacks(field: &'static str) -> (error: SynthesisError)
    ensures
        error@ == spec_metadata_lacks(field@),
{
    SynthesisError::MissingField(field, "`audio.metadata` event")
}

fn read_row(row: &simd_json::OwnedValue) -> (weights: Option<Vec<simd_json::OwnedValue>>)
    ensures
        match weights {
            Some(read) => json_array(*row) == Some(read@),
            None => json_array(*row) is None,
        },
{
    let list = match array(row) {
        Some(list) => list,
        None => {
            return None;
        },
    };
    let mut weights: Vec<simd_json::OwnedValue> = Vec::new();
    let mut j: usize = 0;
    while j < list.len()
        invariant
            j <= list.len(),
            weights.len() == j,
            forall|k: int| 0 <= k < j ==> weights@[k] == list@[k],
        decreases list.len() - j,
    {
        weights.push(list[j].clone());
        j += 1;
    }
    proof {
        assert(weights@ =~= list@);
    }
    Some(weights)
}

fn read_rows(rows: &simd_json::OwnedValue) -> (read: Option<Vec<Option<Vec<simd_json::OwnedValue>>>>)
    ensures
        spec_optional_rows_view(read) == spec_read_rows(*rows),
{
    let list = match array(rows) {
        Some(list) => list,
        None => {
            return None;
        },
    };
    let mut read: Vec<Option<Vec<simd_json::OwnedValue>>> = Vec::new();
    let mut i: usize = 0;
    while i < list.len()
        invariant
            i <= list.len(),
            read.len() == i,
            forall|k: int| 0 <= k < i ==> spec_rows_view(read@)[k] == json_array(list@[k]),
        decreases list.len() - i,
    {
        let ghost before = read@;
        read.push(read_row(&list[i]));
        proof {
            assert forall|k: int| 0 <= k < i + 1 implies spec_rows_view(read@)[k] == json_array(
                list@[k],
            ) by {
                if k < i {
                    assert(spec_rows_view(read@)[k] == spec_rows_view(before)[k]);
                }
            }
        }
        i += 1;
    }
    proof {
        assert(spec_rows_view(read@) =~= spec_read_rows(*rows).unwrap());
    }
    Some(read)
}

fn shapes_from(weights: Vec<simd_json::OwnedValue>) -> (shapes: Option<Vec<BlendShape>>)
    ensures
        match shapes {
            Some(made) => spec_row_fits(Some(weights@)) && spec_frame_view(made@) == spec_shapes(
                weights@,
            ),
            None => !spec_row_fits(Some(weights@)),
        },
{
    let mut shapes: Vec<BlendShape> = Vec::new();
    let mut fits = true;
    for weight in it: weights
        invariant
            it.seq() == weights@,
            !fits ==> !spec_row_fits(Some(weights@)),
            fits ==> shapes.len() == it.index() <= BLENDSHAPE_KEY_COUNT,
            fits ==> forall|k: int|
                0 <= k < it.index() ==> json_is_number(#[trigger] weights@[k]) && shapes@[k]@
                    == (BlendShapeView { key: spec_blendshape_key(k as usize), weight: weights@[k] }),
    {
        if fits {
            match BlendShape::at(shapes.len(), weight) {
                Some(shape) => {
                    shapes.push(shape);
                },
                None => {
                    fits = false;
                },
            }
        }
    }
    if !fits {
        return None;
    }
    proof {
        assert(spec_frame_view(shapes@) =~= spec_shapes(weights@));
    }
    Some(shapes)
}

/// Makes the event of a frame index and rows of weights as they were read from an animation
/// chunk: for each row the blend shapes of one frame.
pub fn frames_from(
    frame_index: Option<u64>,
    rows: Option<Vec<Option<Vec<simd_json::OwnedValue>>>>,
) -> (event: Result<UtteranceEvent, SynthesisError>)
    ensures
        spec_event_outcome(event) == spec_frames_from(frame_index, spec_optional_rows_view(rows)),
{
    let index = match frame_index {
        Some(index) => index,
        None => {
            return Err(SynthesisError::MalformedAnimationChunk);
        },
    };
    let read = match rows {
        Some(read) => read,
        None => {
            return Err(SynthesisError::MalformedAnimationChunk);
        },
    };
    let ghost all = spec_rows_view(read@);
    let mut frames: Vec<Vec<BlendShape>> = Vec::new();
    let mut fits = true;
    for row in it: read
        invariant
            it.seq() == read@,
            all == spec_rows_view(read@),
            !fits ==> !spec_rows_fit(all),
            fits ==> frames.len() == it.index(),
            fits ==> forall|k: int|
                0 <= k < it.index() ==> (spec_row_fits(#[trigger] all[k]) && spec_frame_view(
                    frames@[k]@,
                ) == spec_shapes(all[k].unwrap())),
    {
        proof {
            assert(all[it.index()] == match row {
                Some(weights) => Some(weights@),
                None => None,
            });
        }
        if fits {
            let shapes = match row {
                Some(weights) => shapes_from(weights),
                None => None,
            };
            match shapes {
                Some(made) => {
                    frames.push(made);
                },
                None => {
                    fits = false;
                },
            }
        }
    }
    if !fits {
        return Err(SynthesisError::MalformedAnimationChunk);
    }
    proof {
        let expected = Seq::new(all.len(), |i: int| spec_shapes(all[i].unwrap()));
        assert(spec_frames_view(frames@) =~= expected);
    }
    Ok(UtteranceEvent::BlendShapeVisemesChunk { frame_index: index, frames })
}

/// Reads an animation chunk: the index of its first frame and, for each row of weights, the
/// blend shapes of one frame.
pub fn viseme_event(chunk: &simd_json::OwnedValue) -> (event: Result<
    UtteranceEvent,
    SynthesisError,
>)
    ensures
        spec_event_outcome(event) == spec_viseme_event(*chunk),
{
    let rows = match member(chunk, "BlendShapes") {
        Some(rows) => read_rows(rows),
        None => None,
    };
    frames_from(member_u64(chunk, "FrameIndex"), rows)
}

/// Makes the boundary of an offset, a duration and a text as they were read from the data of
/// a metadata entry.
pub fn boundary_from(
    sentence: bool,
    offset: Option<u64>,
    duration: Option<u64>,
    text: Option<String>,
) -> (event: Result<UtteranceEvent, SynthesisError>)
    ensures
        spec_event_outcome(event) == spec_boundary_from(
            sentence,
            offset,
            duration,
            spec_text_of(text),
        ),
{
    let offset_ticks = match offset {
        Some(ticks) => ticks,
        None => {
            return Err(metadata_lacks("Offset"));
        },
    };
    let duration_ticks = match duration {
        Some(ticks) => ticks,
        None => {
            return Err(metadata_lacks("Duration"));
        },
    };
    let text = match text {
        Some(text) => text,
        None => {
            return Err(metadata_lacks("Text"));
        },
    };
    if sentence {
        Ok(UtteranceEvent::SentenceBoundary { offset_ticks, duration_ticks, text })
    } else {
        Ok(UtteranceEvent::WordBoundary { offset_ticks, duration_ticks, text })
    }
}

fn boundary_event(data: &simd_json::OwnedValue, sentence: bool) -> (event: Result<
    UtteranceEvent,
    SynthesisError,
>)
    ensures
        spec_event_outcome(event) == spec_boundary_event(*data, sentence),
{
    let text = match member(data, "text") {
        Some(inner) => member_string(inner, "Text"),
        None => None,
    };
    boundary_from(sentence, member_u64(data, "Offset"), member_u64(data, "Duration"), text)
}

/// The type of metadata that a name stands for.
pub fn metadata_kind(name: &str) -> (kind: MetadataKind)
    ensures
        kind == spec_metadata_kind(name@),
{
    if same_text(name, "WordBoundary") {
        MetadataKind::WordBoundary
    } else if same_text(name, "SentenceBoundary") {
        MetadataKind::SentenceBoundary
    } else if same_text(name, "Viseme") {
        MetadataKind::Viseme
    } else {
        MetadataKind::Other
    }
}

fn viseme_data_event(data: &simd_json::OwnedValue) -> (event: Result<
    UtteranceEvent,
    SynthesisError,
>)
    ensures
        spec_event_outcome(event) == spec_viseme_data_event(*data),
{
    let text = match member_string(data, "AnimationChunk") {
        Some(text) => text,
        None => {
            return Err(metadata_lacks("AnimationChunk"));
        },
    };
    match parse(text) {
        Err(error) => Err(SynthesisError::Deserialize(error)),
        Ok(chunk) => viseme_event(&chunk),
    }
}

/// Reads the document of an `audio.metadata` message: a word boundary, a sentence boundary or
/// a chunk of visemes, by the type of its first metadata entry.
pub fn metadata_event(document: &simd_json::OwnedValue) -> (event: Result<
    UtteranceEvent,
    SynthesisError,
>)
    ensures
        spec_event_outcome(event) == spec_metadata_event(*document),
{
    let entries = match member(document, "Metadata") {
        Some(entries) => array(entries),
        None => None,
    };
    let first = match entries {
        Some(list) => if list.len() > 0 {
            Some(&list[0])
        } else {
            None
        },
        None => None,
    };
    let entry = match first {
        Some(entry) => entry,
        None => {
            return Err(metadata_lacks("Metadata"));
        },
    };
    let kind = match member_string(entry, "Type") {
        Some(kind) => kind,
        None => {
            return Err(metadata_lacks("Type"));
        },
    };
    let data = match member(entry, "Data") {
        Some(data) => data,
        None => {
            return Err(metadata_lacks("Data"));
        },
    };
    match metadata_kind(kind.as_str()) {
        MetadataKind::WordBoundary => boundary_event(data, false),
        MetadataKind::SentenceBoundary => boundary_event(data, true),
        MetadataKind::Viseme => viseme_data_event(data),
        MetadataKind::Other => Err(SynthesisError::UnimplementedMetadata(kind)),
    }
}

/// Reads the document of a `response` message: the id of the audio stream that it announces.
pub fn response_stream(document: &simd_json::OwnedValue) -> (stream: Result<String, SynthesisError>)
    ensures
        match stream {
            Ok(id) => spec_response_stream(*document) == Ok::<Seq<char>, SynthesisErrorView>(id@),
            Err(error) => spec_response_stream(*document) == Err::<Seq<char>, SynthesisErrorView>(
                error@,
            ),
        },
{
    let audio = match member(document, "audio") {
        Some(audio) => audio,
        None => {
            return Err(SynthesisError::MissingField("audio", "`response` event"));
        },
    };
    if member_string(audio, "type").is_none() {
        return Err(SynthesisError::MissingField("type", "`response` event audio metadata"));
    }
    match member_string(audio, "streamId") {
        Some(id) => Ok(id),
        None => Err(SynthesisError::MissingField("streamId", "`response` event audio metadata")),
    }
}

fn body_document(message: AzureCognitiveSpeechServicesMessage) -> (document: Result<
    simd_json::OwnedValue,
    SynthesisError,
>)
    ensures
        match document {
            Ok(value) => spec_body_document(message@.body) == Ok::<
                simd_json::OwnedValue,
                SynthesisErrorView,
            >(value),
            Err(error) => spec_body_document(message@.body) == Err::<
                simd_json::OwnedValue,
                SynthesisErrorView,
            >(error@),
        },
{
    match message.into_json_abstract() {
        Ok(value) => Ok(value),
        Err(error) => Err(SynthesisError::Message(error)),
    }
}

/// A decoder for the stream of the request `request_id`, before its first frame.
pub fn stream(request_id: &str) -> (decoder: EventStreamDecoder)
    ensures
        decoder@ == (DecoderView { request_id: request_id@, stream_id: None, finished: false }),
{
    EventStreamDecoder { request_id: String::from_str(request_id), stream_id: None, finished: false }
}

impl EventStreamDecoder {
    /// The request whose stream this decoder reads.
    pub fn request_id(&self) -> (request_id: &str)
        ensures
            request_id@ == self@.request_id,
    {
        self.request_id.as_str()
    }

    /// Whether the stream has ended.
    pub fn is_finished(&self) -> (finished: bool)
        ensures
            finished == self@.finished,
    {
        self.finished
    }

    fn fail(&mut self, error: SynthesisError) -> (step: Step)
        ensures
            (final(self)@, step@) == spec_fail(old(self)@, error@),
    {
        self.finished = true;
        Step::Failed(error)
    }

    fn note_stream(&mut self, stream: String) -> (step: Step)
        ensures
            (final(self)@, step@) == spec_note_stream(old(self)@, stream@),
    {
        let differs = match &self.stream_id {
            Some(known) => Some(!same_text(known.as_str(), stream.as_str())),
            None => None,
        };
        match differs {
            Some(true) => self.fail(SynthesisError::UnexpectedMultipleStreams),
            Some(false) => Step::Skip,
            None => {
                self.stream_id = Some(stream);
                Step::Skip
            },
        }
    }

    fn dispatch(&mut self, message: AzureCognitiveSpeechServicesMessage) -> (step: Step)
        ensures
            (final(self)@, step@) == spec_dispatch(old(self)@, message@),
    {
        if !same_text(message.request_id(), self.request_id.as_str()) {
            let id = String::from_str(message.request_id());
            return self.fail(SynthesisError::UnexpectedRequestId(id));
        }
        if same_text(message.path(), "turn.start") {
            Step::Skip
        } else if same_text(message.path(), "turn.end") {
            self.finished = true;
            Step::TurnEnd
        } else if same_text(message.path(), "audio") {
            match message.into_body() {
                AzureCognitiveSpeechServicesMessageBody::Binary(bytes) => Step::Event(
                    UtteranceEvent::AudioChunk(bytes),
                ),
                AzureCognitiveSpeechServicesMessageBody::Text(_) => self.fail(
                    SynthesisError::ExpectedBinary("audio"),
                ),
            }
        } else if same_text(message.path(), "audio.metadata") {
            match body_document(message) {
                Err(error) => self.fail(error),
                Ok(document) => match metadata_event(&document) {
                    Err(error) => self.fail(error),
                    Ok(event) => Step::Event(event),
                },
            }
        } else if same_text(message.path(), "response") {
            match body_document(message) {
                Err(error) => self.fail(error),
                Ok(document) => match response_stream(&document) {
                    Err(error) => self.fail(error),
                    Ok(stream) => self.note_stream(stream),
                },
            }
        } else {
            Step::Skip
        }
    }

    /// Takes the next frame of the stream and says what it means.
    pub fn accept(&mut self, frame: InboundFrame) -> (step: Step)
        ensures
            (final(self)@, step@) == spec_step(old(self)@, frame@),
    {
        if self.finished {
            return Step::Finished;
        }
        let parsed = match frame {
            InboundFrame::Close => {
                self.finished = true;
                return Step::Closed;
            },
            InboundFrame::Other => {
                return Step::Skip;
            },
            InboundFrame::Text(text) => AzureCognitiveSpeechServicesMessage::from_str(text.as_str()),
            InboundFrame::Binary(bytes) => AzureCognitiveSpeechServicesMessage::try_from(bytes),
        };
        match parsed {
            Err(error) => self.fail(SynthesisError::Message(error)),
            Ok(message) => self.dispatch(message),
        }
    }
}

/// Once the stream has ended, no frame brings an event or changes the decoder.
pub proof fn lemma_finished_is_final(state: DecoderView, frame: InboundFrameView)
    requires
        state.finished,
    ensures
        spec_step(state, frame) == (state, StepView::Finished),
{
}

/// The end of the turn, a close and every error end the stream; nothing else does.
pub proof fn lemma_stream_ends(state: DecoderView, frame: InboundFrameView)
    requires
        !state.finished,
    ensures
        spec_step(state, frame).0.finished <==> (spec_step(state, frame).1 is TurnEnd
            || spec_step(state, frame).1 is Closed || spec_step(state, frame).1 is Failed),
        spec_step(state, frame).0.request_id == state.request_id,
        !(spec_step(state, frame).1 is Finished),
{
}

/// A `response` that names another stream than the one on record breaks the stream, and every
/// frame after it is answered with `Finished`.
pub proof fn lemma_second_stream_is_fatal(
    state: DecoderView,
    known: Seq<char>,
    other: Seq<char>,
    later: InboundFrameView,
)
    requires
        state.stream_id == Some(known),
        known != other,
    ensures
        spec_note_stream(state, other).1 == StepView::Failed(
            SynthesisErrorView::UnexpectedMultipleStreams,
        ),
        spec_step(spec_note_stream(state, other).0, later).1 == StepView::Finished,
{
}

/// What a run of frames brought: the events in the order of their frames and, where the stream
/// ended within the run, the answer that ended it.
#[derive(Debug)]
pub struct Transcript {
    pub events: Vec<UtteranceEvent>,
    pub ending: Option<Step>,
}

pub struct TranscriptView {
    pub events: Seq<UtteranceEventView>,
    pub ending: Option<StepView>,
}

impl View for Transcript {
    type V = TranscriptView;

    open spec fn view(&self) -> TranscriptView {
        TranscriptView {
            events: Seq::new(self.events@.len(), |i: int| self.events@[i]@),
            ending: match self.ending {
                Some(step) => Some(step@),
                None => None,
            },
        }
    }
}

/// The content of a run of frames.
pub open spec fn spec_inbound_views(frames: Seq<InboundFrame>) -> Seq<InboundFrameView> {
    Seq::new(frames.len(), |i: int| frames[i]@)
}

/// The decoder and the transcript after a run of frames: each frame is taken in its turn, its
/// event, if it has one, follows those of the frames before it, and the first answer that is
/// neither an event nor a skip ends the run.
pub open spec fn spec_run(state: DecoderView, frames: Seq<InboundFrameView>) -> (
    DecoderView,
    TranscriptView,
)
    decreases frames.len(),
{
    if frames.len() == 0 {
        (state, TranscriptView { events: Seq::empty(), ending: None })
    } else {
        let (next, step) = spec_step(state, frames[0]);
        match step {
            StepView::Skip => spec_run(next, frames.drop_first()),
            StepView::Event(event) => {
                let (last, rest) = spec_run(next, frames.drop_first());
                (last, TranscriptView { events: seq![event] + rest.events, ending: rest.ending })
            },
            _ => (next, TranscriptView { events: Seq::empty(), ending: Some(step) }),
        }
    }
}

/// A run goes on after a frame that brought an event or nothing as it would have started
/// there.
proof fn lemma_run_extends(
    start: DecoderView,
    done: Seq<InboundFrameView>,
    frame: InboundFrameView,
)
    requires
        spec_run(start, done).1.ending is None,
    ensures
        ({
            let (state, transcript) = spec_run(start, done);
            let (next, step) = spec_step(state, frame);
            spec_run(start, done.push(frame)) == match step {
                StepView::Skip => (next, transcript),
                StepView::Event(event) => (
                    next,
                    TranscriptView { events: transcript.events.push(event), ending: None },
                ),
                _ => (next, TranscriptView { events: transcript.events, ending: Some(step) }),
            }
        }),
    decreases done.len(),
{
    let longer = done.push(frame);
    assert(longer[0] == (if done.len() == 0 { frame } else { done[0] }));
    if done.len() == 0 {
        assert(longer.drop_first() =~= Seq::<InboundFrameView>::empty());
        let (next, step) = spec_step(start, frame);
        assert(spec_run(next, longer.drop_first()) == (
            next,
            TranscriptView { events: Seq::<UtteranceEventView>::empty(), ending: None },
        ));
        match step {
            StepView::Event(event) => {
                assert(seq![event] + Seq::<UtteranceEventView>::empty() =~= Seq::<
                    UtteranceEventView,
                >::empty().push(event));
            },
            _ => {},
        }
    } else {
        let (after, first) = spec_step(start, done[0]);
        assert(longer.drop_first() =~= done.drop_first().push(frame));
        match first {
            StepView::Skip => {
                lemma_run_extends(after, done.drop_first(), frame);
            },
            StepView::Event(event) => {
                lemma_run_extends(after, done.drop_first(), frame);
                let rest = spec_run(after, done.drop_first()).1;
                let state = spec_run(start, done).0;
                let step = spec_step(state, frame).1;
                match step {
                    StepView::Event(more) => {
                        assert(seq![event] + rest.events.push(more) =~= (seq![event]
                            + rest.events).push(more));
                    },
                    _ => {},
                }
            },
            _ => {},
        }
    }
}

/// After the answer that ends a run, further frames change nothing.
proof fn lemma_run_ended(start: DecoderView, done: Seq<InboundFrameView>, frame: InboundFrameView)
    requires
        spec_run(start, done).1.ending is Some,
    ensures
        spec_run(start, done.push(frame)) == spec_run(start, done),
    decreases done.len(),
{
    if done.len() > 0 {
        let (after, first) = spec_step(start, done[0]);
        assert(done.push(frame).drop_first() =~= done.drop_first().push(frame));
        assert(done.push(frame)[0] == done[0]);
        match first {
            StepView::Skip => {
                lemma_run_ended(after, done.drop_first(), frame);
            },
            StepView::Event(_) => {
                lemma_run_ended(after, done.drop_first(), frame);
            },
            _ => {},
        }
    }
}

impl EventStreamDecoder {
    /// Takes a run of frames and collects what they bring, up to the answer that ends the
    /// stream. Frames after that answer are dropped unread.
    pub fn accept_all(&mut self, frames: Vec<InboundFrame>) -> (transcript: Transcript)
        ensures
            (final(self)@, transcript@) == spec_run(old(self)@, spec_inbound_views(frames@)),
    {
        let ghost start = self@;
        let ghost all = spec_inbound_views(frames@);
        let mut transcript = Transcript { events: Vec::new(), ending: None };
        proof {
            assert(transcript@.events =~= Seq::<UtteranceEventView>::empty());
        }
        for frame in it: frames
            invariant
                it.seq() == frames@,
                all == spec_inbound_views(frames@),
                (self@, transcript@) == spec_run(start, all.take(it.index())),
        {
            proof {
                assert(all.take(it.index() + 1) =~= all.take(it.index()).push(frame@));
                if transcript@.ending is None {
                    lemma_run_extends(start, all.take(it.index()), frame@);
                } else {
                    lemma_run_ended(start, all.take(it.index()), frame@);
                }
            }
            if transcript.ending.is_none() {
                let ghost before = transcript@.events;
                match self.accept(frame) {
                    Step::Skip => {},
                    Step::Event(event) => {
                        transcript.events.push(event);
                        proof {
                            assert(transcript@.events =~= before.push(event@));
                        }
                    },
                    step => {
                        transcript.ending = Some(step);
                    },
                }
            }
        }
        proof {
            assert(all.take(all.len() as int) =~= all);
        }
        transcript
    }
}

/// Once a run has ended the stream, frames added to it bring nothing more: no event follows a
/// fatal error, the end of the turn or a close.
pub proof fn lemma_nothing_follows_the_end(
    state: DecoderView,
    frames: Seq<InboundFrameView>,
    later: Seq<InboundFrameView>,
)
    requires
        spec_run(state, frames).1.ending is Some,
    ensures
        spec_run(state, frames + later) == spec_run(state, frames),
    decreases later.len(),
{
    if later.len() == 0 {
        assert(frames + later =~= frames);
    } else {
        lemma_nothing_follows_the_end(state, frames, later.drop_last());
        lemma_run_ended(state, frames + later.drop_last(), later.last());
        assert((frames + later.drop_last()).push(later.last()) =~= frames + later);
    }
}

} // verus!
