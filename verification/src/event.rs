//! The events of an utterance.

use vstd::prelude::*;
use crate::json::{is_number, json_is_number};

verus! {

/// The number of protocol ticks, of 100 nanoseconds each, in a millisecond.
pub const TICKS_PER_MILLISECOND: u64 = 10_000;

/// The number of blend shape keys.
pub const BLENDSHAPE_KEY_COUNT: usize = 55;

/// A time in milliseconds, exact: whole milliseconds and the ticks beyond them.
#[derive(Clone, Copy, Debug, PartialEq, Eq, Structural)]
pub struct Milliseconds {
    pub whole: u64,
    pub ticks: u64,
}

/// The milliseconds that a number of ticks makes.
pub open spec fn spec_milliseconds(ticks: nat) -> Milliseconds {
    Milliseconds { whole: (ticks / 10_000) as u64, ticks: (ticks % 10_000) as u64 }
}

/// The time at which a boundary starts: its offset in ticks divided by 10 000.
pub fn boundary_start(offset_ticks: u64) -> (start: Milliseconds)
    ensures
        start == spec_milliseconds(offset_ticks as nat),
        start.whole * 10_000 + start.ticks == offset_ticks,
        start.ticks < 10_000,
{
    Milliseconds {
        whole: offset_ticks / TICKS_PER_MILLISECOND,
        ticks: offset_ticks % TICKS_PER_MILLISECOND,
    }
}

/// The time at which a boundary ends: its start and its duration together.
pub fn boundary_end(offset_ticks: u64, duration_ticks: u64) -> (end: Milliseconds)
    ensures
        end == spec_milliseconds((offset_ticks + duration_ticks) as nat),
        end.whole * 10_000 + end.ticks == offset_ticks + duration_ticks,
        end.ticks < 10_000,
{
    let total: u128 = offset_ticks as u128 + duration_ticks as u128;
    let whole: u128 = total / 10_000;
    let ticks: u128 = total % 10_000;
    Milliseconds { whole: whole as u64, ticks: ticks as u64 }
}

/// The blend shape key at a position of the table that the service's weights follow; the empty
/// text outside the table.
pub open spec fn spec_blendshape_key(index: usize) -> Seq<char> {
    match index {
        0 => "eyeBlinkLeft"@,
        1 => "eyeLookDownLeft"@,
        2 => "eyeLookInLeft"@,
        3 => "eyeLookOutLeft"@,
        4 => "eyeLookUpLeft"@,
        5 => "eyeSquintLeft"@,
        6 => "eyeWideLeft"@,
        7 => "eyeBlinkRight"@,
        8 => "eyeLookDownRight"@,
        9 => "eyeLookInRight"@,
        10 => "eyeLookOutRight"@,
        11 => "eyeLookUpRight"@,
        12 => "eyeSquintRight"@,
        13 => "eyeWideRight"@,
        14 => "jawForward"@,
        15 => "jawLeft"@,
        16 => "jawRight"@,
        17 => "jawOpen"@,
        18 => "mouthClose"@,
        19 => "mouthFunnel"@,
        20 => "mouthPucker"@,
        21 => "mouthLeft"@,
        22 => "mouthRight"@,
        23 => "mouthSmileLeft"@,
        24 => "mouthSmileRight"@,
        25 => "mouthFrownLeft"@,
        26 => "mouthFrownRight"@,
        27 => "mouthDimpleLeft"@,
        28 => "mouthDimpleRight"@,
        29 => "mouthStretchLeft"@,
        30 => "mouthStretchRight"@,
        31 => "mouthRollLower"@,
        32 => "mouthRollUpper"@,
        33 => "mouthShrugLower"@,
        34 => "mouthShrugUpper"@,
        35 => "mouthPressLeft"@,
        36 => "mouthPressRight"@,
        37 => "mouthLowerDownLeft"@,
        38 => "mouthLowerDownRight"@,
        39 => "mouthUpperUpLeft"@,
        40 => "mouthUpperUpRight"@,
        41 => "browDownLeft"@,
        42 => "browDownRight"@,
        43 => "browInnerUp"@,
        44 => "browOuterUpLeft"@,
        45 => "browOuterUpRight"@,
        46 => "cheekPuff"@,
        47 => "cheekSquintLeft"@,
        48 => "cheekSquintRight"@,
        49 => "noseSneerLeft"@,
        50 => "noseSneerRight"@,
        51 => "tongueOut"@,
        52 => "headRoll"@,
        53 => "leftEyeRoll"@,
        54 => "rightEyeRoll"@,
        _ => Seq::empty(),
    }
}

/// The blend shape key at a position of the table, or `None` outside it.
pub fn blendshape_key(index: usize) -> (key: Option<&'static str>)
    ensures
        match key {
            Some(name) => index < BLENDSHAPE_KEY_COUNT && name@ == spec_blendshape_key(index),
            None => index >= BLENDSHAPE_KEY_COUNT,
        },
{
    match index {
        0 => Some("eyeBlinkLeft"),
        1 => Some("eyeLookDownLeft"),
        2 => Some("eyeLookInLeft"),
        3 => Some("eyeLookOutLeft"),
        4 => Some("eyeLookUpLeft"),
        5 => Some("eyeSquintLeft"),
        6 => Some("eyeWideLeft"),
        7 => Some("eyeBlinkRight"),
        8 => Some("eyeLookDownRight"),
        9 => Some("eyeLookInRight"),
        10 => Some("eyeLookOutRight"),
        11 => Some("eyeLookUpRight"),
        12 => Some("eyeSquintRight"),
        13 => Some("eyeWideRight"),
        14 => Some("jawForward"),
        15 => Some("jawLeft"),
        16 => Some("jawRight"),
        17 => Some("jawOpen"),
        18 => Some("mouthClose"),
        19 => Some("mouthFunnel"),
        20 => Some("mouthPucker"),
        21 => Some("mouthLeft"),
        22 => Some("mouthRight"),
        23 => Some("mouthSmileLeft"),
        24 => Some("mouthSmileRight"),
        25 => Some("mouthFrownLeft"),
        26 => Some("mouthFrownRight"),
        27 => Some("mouthDimpleLeft"),
        28 => Some("mouthDimpleRight"),
        29 => Some("mouthStretchLeft"),
        30 => Some("mouthStretchRight"),
        31 => Some("mouthRollLower"),
        32 => Some("mouthRollUpper"),
        33 => Some("mouthShrugLower"),
        34 => Some("mouthShrugUpper"),
        35 => Some("mouthPressLeft"),
        36 => Some("mouthPressRight"),
        37 => Some("mouthLowerDownLeft"),
        38 => Some("mouthLowerDownRight"),
        39 => Some("mouthUpperUpLeft"),
        40 => Some("mouthUpperUpRight"),
        41 => Some("browDownLeft"),
        42 => Some("browDownRight"),
        43 => Some("browInnerUp"),
        44 => Some("browOuterUpLeft"),
        45 => Some("browOuterUpRight"),
        46 => Some("cheekPuff"),
        47 => Some("cheekSquintLeft"),
        48 => Some("cheekSquintRight"),
        49 => Some("noseSneerLeft"),
        50 => Some("noseSneerRight"),
        51 => Some("tongueOut"),
        52 => Some("headRoll"),
        53 => Some("leftEyeRoll"),
        54 => Some("rightEyeRoll"),
        _ => None,
    }
}

/// The number of the frame at `position` in a chunk whose first frame has the number
/// `frame_index`. Frames follow each other at sixty frames a second, so the frame with the
/// number n starts n sixtieths of a second into the audio stream.
pub fn frame_number(frame_index: u64, position: usize) -> (number: u128)
    ensures
        number == frame_index + position,
{
    frame_index as u128 + position as u128
}

/// One blend shape of a frame: its key, which is the key at its position in the service's
/// table, and its weight as the service sent it, which is a JSON number.
#[derive(Debug)]
pub struct BlendShape {
    key: &'static str,
    weight: simd_json::OwnedValue,
}

pub struct BlendShapeView {
    pub key: Seq<char>,
    pub weight: simd_json::OwnedValue,
}

impl View for BlendShape {
    type V = BlendShapeView;

    closed spec fn view(&self) -> BlendShapeView {
        BlendShapeView { key: self.key@, weight: self.weight }
    }
}

impl Clone for BlendShape {
    fn clone(&self) -> (copy: Self)
        ensures
            copy@ == self@,
    {
        proof {
            use_type_invariant(self);
        }
        BlendShape { key: self.key, weight: self.weight.clone() }
    }
}

impl BlendShape {
    #[verifier::type_invariant]
    spec fn weight_is_number(&self) -> bool {
        json_is_number(self.weight)
    }

    /// The blend shape at `position` of a frame with the given weight, or `None` where the
    /// table has no key for the position or the weight is no number.
    pub fn at(position: usize, weight: simd_json::OwnedValue) -> (shape: Option<BlendShape>)
        ensures
            match shape {
                Some(made) => position < BLENDSHAPE_KEY_COUNT && json_is_number(weight) && made@
                    == (BlendShapeView { key: spec_blendshape_key(position), weight }),
                None => position >= BLENDSHAPE_KEY_COUNT || !json_is_number(weight),
            },
    {
        if !is_number(&weight) {
            return None;
        }
        match blendshape_key(position) {
            Some(key) => Some(BlendShape { key, weight }),
            None => None,
        }
    }

    /// The key of the blend shape.
    pub fn key(&self) -> (key: &'static str)
        ensures
            key@ == self@.key,
    {
        self.key
    }

    /// The weight of the blend shape, a JSON number.
    pub fn weight(&self) -> (weight: &simd_json::OwnedValue)
        ensures
            *weight == self@.weight,
            json_is_number(*weight),
    {
        proof {
            use_type_invariant(self);
        }
        &self.weight
    }
}

/// The content of one frame of blend shapes.
pub open spec fn spec_frame_view(frame: Seq<BlendShape>) -> Seq<BlendShapeView> {
    Seq::new(frame.len(), |j: int| frame[j]@)
}

/// The content of the frames of a chunk.
pub open spec fn spec_frames_view(frames: Seq<Vec<BlendShape>>) -> Seq<Seq<BlendShapeView>> {
    Seq::new(frames.len(), |i: int| spec_frame_view(frames[i]@))
}

/// What the service tells about an utterance while it speaks.
///
/// Times are in ticks of 100 nanoseconds from the start of the audio stream. The frames of a
/// chunk follow each other at sixty frames a second, the first at `frame_index`.
#[derive(Clone, Debug)]
pub enum UtteranceEvent {
    AudioChunk(Vec<u8>),
    WordBoundary { offset_ticks: u64, duration_ticks: u64, text: String },
    SentenceBoundary { offset_ticks: u64, duration_ticks: u64, text: String },
    BlendShapeVisemesChunk { frame_index: u64, frames: Vec<Vec<BlendShape>> },
}

pub enum UtteranceEventView {
    AudioChunk(Seq<u8>),
    WordBoundary { offset_ticks: u64, duration_ticks: u64, text: Seq<char> },
    SentenceBoundary { offset_ticks: u64, duration_ticks: u64, text: Seq<char> },
    BlendShapeVisemesChunk { frame_index: u64, frames: Seq<Seq<BlendShapeView>> },
}

impl View for UtteranceEvent {
    type V = UtteranceEventView;

    open spec fn view(&self) -> UtteranceEventView {
        match *self {
            UtteranceEvent::AudioChunk(bytes) => UtteranceEventView::AudioChunk(bytes@),
            UtteranceEvent::WordBoundary { offset_ticks, duration_ticks, text } =>
                UtteranceEventView::WordBoundary { offset_ticks, duration_ticks, text: text@ },
            UtteranceEvent::SentenceBoundary { offset_ticks, duration_ticks, text } =>
                UtteranceEventView::SentenceBoundary { offset_ticks, duration_ticks, text: text@ },
            UtteranceEvent::BlendShapeVisemesChunk { frame_index, frames } =>
                UtteranceEventView::BlendShapeVisemesChunk {
                    frame_index,
                    frames: spec_frames_view(frames@),
                },
        }
    }
}

} // verus!
