use azure_cognitive_speech_services::error::SynthesisError;
use azure_cognitive_speech_services::event::{
    blendshape_key, boundary_end, boundary_start, frame_number, BlendShape, Milliseconds,
    UtteranceEvent, BLENDSHAPE_KEY_COUNT, TICKS_PER_MILLISECOND,
};
use azure_cognitive_speech_services::message::AzureCognitiveSpeechServicesMessageError;
use azure_cognitive_speech_services::synthesiser::stream::{
    boundary_from, frames_from, metadata_event, metadata_kind, response_stream, stream, viseme_event,
    EventStreamDecoder, InboundFrame, MetadataKind, Step,
};
use simd_json::prelude::ValueAsScalar;

const ID: &str = "0123456789abcdef0123456789abcdef";

fn text(path: &str, body: &str) -> InboundFrame {
    InboundFrame::Text(format!("X-RequestId: {ID}\r\nPath: {path}\r\n\r\n{body}"))
}

fn binary(path: &str, body: &[u8]) -> InboundFrame {
    let headers = format!("X-RequestId: {ID}\r\nPath: {path}");
    let mut frame = (headers.len() as u16).to_be_bytes().to_vec();
    frame.extend_from_slice(headers.as_bytes());
    frame.extend_from_slice(body);
    InboundFrame::Binary(frame)
}

fn json(text: &str) -> simd_json::OwnedValue {
    let mut bytes = text.as_bytes().to_vec();
    simd_json::to_owned_value(&mut bytes).unwrap()
}

fn boundary(kind: &str, offset: u64, duration: u64, word: &str) -> String {
    format!(
        "{{\"Metadata\":[{{\"Type\":\"{kind}\",\"Data\":{{\"Offset\":{offset},\"Duration\":{duration},\"text\":{{\"Text\":\"{word}\",\"Length\":2}}}}}}]}}"
    )
}

fn response(stream_id: &str) -> InboundFrame {
    text("response", &format!("{{\"audio\":{{\"type\":\"inline\",\"streamId\":\"{stream_id}\"}}}}"))
}

/// Feeds the frames to a fresh decoder and collects the events up to the end of the stream.
fn run(frames: Vec<InboundFrame>) -> (Vec<UtteranceEvent>, Option<Step>, EventStreamDecoder) {
    let mut decoder = stream(ID);
    let mut events = Vec::new();
    for frame in frames {
        match decoder.accept(frame) {
            Step::Skip => {}
            Step::Event(event) => events.push(event),
            last => return (events, Some(last), decoder),
        }
    }
    (events, None, decoder)
}

#[test]
fn a_turn_with_audio_and_a_word() {
    let audio = [1u8, 2, 3, 250];
    let (events, last, decoder) = run(vec![
        text("turn.start", "{}"),
        binary("audio", &audio),
        text("audio.metadata", &boundary("WordBoundary", 0, 5_000_000, "hi")),
        text("turn.end", "{}"),
    ]);
    assert_eq!(events.len(), 2);
    assert!(matches!(&events[0], UtteranceEvent::AudioChunk(bytes) if bytes[..] == audio));
    match &events[1] {
        UtteranceEvent::WordBoundary { offset_ticks, duration_ticks, text } => {
            assert_eq!(boundary_start(*offset_ticks), Milliseconds { whole: 0, ticks: 0 });
            assert_eq!(boundary_end(*offset_ticks, *duration_ticks), Milliseconds { whole: 500, ticks: 0 });
            assert_eq!(text, "hi");
        }
        other => panic!("unexpected event {other:?}"),
    }
    assert!(matches!(last, Some(Step::TurnEnd)));
    assert!(decoder.is_finished());
}

#[test]
fn a_run_is_collected_in_the_order_of_its_frames() {
    let mut decoder = stream(ID);
    let transcript = decoder.accept_all(vec![
        text("turn.start", "{}"),
        response("s"),
        binary("audio", &[1]),
        text("audio.metadata", &boundary("WordBoundary", 0, 5_000_000, "hi")),
        binary("audio", &[2, 3]),
        text("turn.end", "{}"),
        binary("audio", &[4]),
    ]);
    assert_eq!(transcript.events.len(), 3);
    assert!(matches!(&transcript.events[0], UtteranceEvent::AudioChunk(bytes) if bytes[..] == [1]));
    assert!(matches!(
        &transcript.events[1],
        UtteranceEvent::WordBoundary { offset_ticks: 0, duration_ticks: 5_000_000, text } if text == "hi"
    ));
    assert!(matches!(&transcript.events[2], UtteranceEvent::AudioChunk(bytes) if bytes[..] == [2, 3]));
    assert!(matches!(transcript.ending, Some(Step::TurnEnd)));
    assert!(decoder.is_finished());
    let more = decoder.accept_all(vec![binary("audio", &[5])]);
    assert!(more.events.is_empty());
    assert!(matches!(more.ending, Some(Step::Finished)));
}

#[test]
fn a_run_stops_at_the_second_stream() {
    let mut decoder = stream(ID);
    let transcript = decoder.accept_all(vec![
        binary("audio", &[1]),
        response("first"),
        response("second"),
        binary("audio", &[2]),
        text("turn.end", ""),
    ]);
    assert_eq!(transcript.events.len(), 1);
    assert!(matches!(transcript.ending, Some(Step::Failed(SynthesisError::UnexpectedMultipleStreams))));
}

#[test]
fn a_run_that_does_not_end_leaves_the_decoder_open() {
    let mut decoder = stream(ID);
    let transcript = decoder.accept_all(vec![text("turn.start", ""), InboundFrame::Other]);
    assert!(transcript.events.is_empty());
    assert!(transcript.ending.is_none());
    assert!(!decoder.is_finished());
    assert!(decoder.accept_all(Vec::new()).ending.is_none());
}

#[test]
fn nothing_follows_the_end_of_the_turn() {
    let mut decoder = stream(ID);
    assert!(matches!(decoder.accept(text("turn.end", "")), Step::TurnEnd));
    assert!(matches!(decoder.accept(binary("audio", &[1])), Step::Finished));
    assert!(matches!(decoder.accept(InboundFrame::Close), Step::Finished));
    assert!(matches!(decoder.accept(InboundFrame::Text("junk".to_string())), Step::Finished));
}

#[test]
fn second_stream_is_fatal() {
    let mut decoder = stream(ID);
    assert!(matches!(decoder.accept(response("aaaa")), Step::Skip));
    assert!(!decoder.is_finished());
    assert!(matches!(
        decoder.accept(response("bbbb")),
        Step::Failed(SynthesisError::UnexpectedMultipleStreams)
    ));
    assert!(decoder.is_finished());
    assert!(matches!(decoder.accept(binary("audio", &[1])), Step::Finished));
    assert!(matches!(decoder.accept(text("turn.end", "")), Step::Finished));
}

#[test]
fn same_stream_twice_is_fine() {
    let (events, last, decoder) = run(vec![response("aaaa"), response("aaaa"), binary("audio", &[5])]);
    assert_eq!(events.len(), 1);
    assert!(last.is_none());
    assert!(!decoder.is_finished());
}

#[test]
fn ticks_become_milliseconds() {
    assert_eq!(TICKS_PER_MILLISECOND, 10_000);
    assert_eq!(boundary_start(50_000), Milliseconds { whole: 5, ticks: 0 });
    assert_eq!(boundary_end(50_000, 20_000), Milliseconds { whole: 7, ticks: 0 });
    assert_eq!(boundary_start(12_345), Milliseconds { whole: 1, ticks: 2_345 });
    assert_eq!(boundary_end(9_999, 2), Milliseconds { whole: 1, ticks: 1 });
    assert_eq!(boundary_end(u64::MAX, u64::MAX), Milliseconds { whole: 3_689_348_814_741_910, ticks: 3_230 });
    let event = metadata_event(&json(&boundary("SentenceBoundary", 50_000, 20_000, "so"))).unwrap();
    match event {
        UtteranceEvent::SentenceBoundary { offset_ticks, duration_ticks, text } => {
            assert_eq!((offset_ticks, duration_ticks), (50_000, 20_000));
            assert_eq!(text, "so");
            assert_eq!(boundary_start(offset_ticks), Milliseconds { whole: 5, ticks: 0 });
            assert_eq!(boundary_end(offset_ticks, duration_ticks), Milliseconds { whole: 7, ticks: 0 });
        }
        other => panic!("unexpected event {other:?}"),
    }
}

#[test]
fn animation_chunk_becomes_frames() {
    let chunk = json("{\"FrameIndex\":3,\"BlendShapes\":[[0.25,0.5,0.0],[1.0,0.75]]}");
    let event = viseme_event(&chunk).unwrap();
    match event {
        UtteranceEvent::BlendShapeVisemesChunk { frame_index, frames } => {
            assert_eq!(frame_index, 3);
            assert_eq!(frames.len(), 2);
            let numbers: Vec<u128> = (0..frames.len()).map(|i| frame_number(frame_index, i)).collect();
            assert_eq!(numbers, vec![3, 4]);
            let first: Vec<(&str, f64)> =
                frames[0].iter().map(|shape| (shape.key(), shape.weight().cast_f64().unwrap())).collect();
            assert_eq!(first, vec![("eyeBlinkLeft", 0.25), ("eyeLookDownLeft", 0.5), ("eyeLookInLeft", 0.0)]);
            let second: Vec<(&str, f64)> =
                frames[1].iter().map(|shape| (shape.key(), shape.weight().cast_f64().unwrap())).collect();
            assert_eq!(second, vec![("eyeBlinkLeft", 1.0), ("eyeLookDownLeft", 0.75)]);
        }
        other => panic!("unexpected event {other:?}"),
    }
}

#[test]
fn full_rows_use_the_whole_key_table() {
    let row = vec!["0.5"; 55].join(",");
    let chunk = json(&format!("{{\"FrameIndex\":0,\"BlendShapes\":[[{row}]]}}"));
    match viseme_event(&chunk).unwrap() {
        UtteranceEvent::BlendShapeVisemesChunk { frames, .. } => {
            assert_eq!(frames[0].len(), 55);
            for (i, shape) in frames[0].iter().enumerate() {
                assert_eq!(Some(shape.key()), blendshape_key(i));
            }
            assert_eq!(frames[0][54].key(), "rightEyeRoll");
        }
        other => panic!("unexpected event {other:?}"),
    }
}

#[test]
fn malformed_animation_chunks() {
    let row = vec!["0.5"; 56].join(",");
    for text in [
        format!("{{\"FrameIndex\":0,\"BlendShapes\":[[{row}]]}}"),
        "{\"BlendShapes\":[]}".to_string(),
        "{\"FrameIndex\":-1,\"BlendShapes\":[]}".to_string(),
        "{\"FrameIndex\":1}".to_string(),
        "{\"FrameIndex\":1,\"BlendShapes\":{}}".to_string(),
        "{\"FrameIndex\":1,\"BlendShapes\":[[0.1],7]}".to_string(),
        "{\"FrameIndex\":1,\"BlendShapes\":[[0.1,\"0.2\"]]}".to_string(),
        "{\"FrameIndex\":1,\"BlendShapes\":[[0.1],[null]]}".to_string(),
        "{\"FrameIndex\":1,\"BlendShapes\":[[true]]}".to_string(),
        "{\"FrameIndex\":1,\"BlendShapes\":[[[0.5]]]}".to_string(),
        "[]".to_string(),
    ] {
        assert!(matches!(viseme_event(&json(&text)), Err(SynthesisError::MalformedAnimationChunk)));
    }
}

#[test]
fn empty_animation_chunk() {
    let event = viseme_event(&json("{\"FrameIndex\":9,\"BlendShapes\":[]}")).unwrap();
    assert!(matches!(event, UtteranceEvent::BlendShapeVisemesChunk { frame_index: 9, frames } if frames.is_empty()));
}

#[test]
fn viseme_metadata_is_read_through_its_nested_document() {
    let body = "{\"Metadata\":[{\"Type\":\"Viseme\",\"Data\":{\"Offset\":1,\"AnimationChunk\":\"{\\\"FrameIndex\\\":60,\\\"BlendShapes\\\":[[0.5]]}\"}}]}";
    let (events, last, _) = run(vec![text("audio.metadata", body)]);
    assert!(last.is_none());
    assert!(matches!(&events[0], UtteranceEvent::BlendShapeVisemesChunk { frame_index: 60, frames }
        if frames.len() == 1 && frames[0][0].key() == "eyeBlinkLeft"));
    let broken = "{\"Metadata\":[{\"Type\":\"Viseme\",\"Data\":{\"AnimationChunk\":\"{\\\"FrameIndex\\\":\"}}]}";
    assert!(matches!(metadata_event(&json(broken)), Err(SynthesisError::Deserialize(_))));
    let absent = "{\"Metadata\":[{\"Type\":\"Viseme\",\"Data\":{}}]}";
    assert!(matches!(
        metadata_event(&json(absent)),
        Err(SynthesisError::MissingField("AnimationChunk", "`audio.metadata` event"))
    ));
}

#[test]
fn blendshape_keys() {
    assert_eq!(BLENDSHAPE_KEY_COUNT, 55);
    assert_eq!(blendshape_key(0), Some("eyeBlinkLeft"));
    assert_eq!(blendshape_key(13), Some("eyeWideRight"));
    assert_eq!(blendshape_key(17), Some("jawOpen"));
    assert_eq!(blendshape_key(43), Some("browInnerUp"));
    assert_eq!(blendshape_key(51), Some("tongueOut"));
    assert_eq!(blendshape_key(54), Some("rightEyeRoll"));
    assert_eq!(blendshape_key(55), None);
    assert_eq!(blendshape_key(usize::MAX), None);
}

#[test]
fn missing_metadata_fields_are_named() {
    let lacks = |text: &str, field: &str| match metadata_event(&json(text)) {
        Err(SynthesisError::MissingField(found, place)) => {
            assert_eq!((found, place), (field, "`audio.metadata` event"))
        }
        other => panic!("unexpected outcome {other:?}"),
    };
    lacks("{}", "Metadata");
    lacks("{\"Metadata\":[]}", "Metadata");
    lacks("{\"Metadata\":7}", "Metadata");
    lacks("{\"Metadata\":[{\"Data\":{}}]}", "Type");
    lacks("{\"Metadata\":[{\"Type\":\"WordBoundary\"}]}", "Data");
    lacks("{\"Metadata\":[{\"Type\":\"WordBoundary\",\"Data\":{\"Duration\":1}}]}", "Offset");
    lacks("{\"Metadata\":[{\"Type\":\"WordBoundary\",\"Data\":{\"Offset\":1}}]}", "Duration");
    lacks("{\"Metadata\":[{\"Type\":\"WordBoundary\",\"Data\":{\"Offset\":1,\"Duration\":1}}]}", "Text");
    lacks(
        "{\"Metadata\":[{\"Type\":\"SentenceBoundary\",\"Data\":{\"Offset\":1,\"Duration\":1,\"text\":{}}}]}",
        "Text",
    );
}

#[test]
fn only_the_first_metadata_entry_counts() {
    let body = "{\"Metadata\":[{\"Type\":\"WordBoundary\",\"Data\":{\"Offset\":10000,\"Duration\":1,\"text\":{\"Text\":\"a\"}}},{\"Type\":\"Nonsense\"}]}";
    assert!(matches!(
        metadata_event(&json(body)),
        Ok(UtteranceEvent::WordBoundary { offset_ticks: 10_000, duration_ticks: 1, text }) if text == "a"
    ));
}

#[test]
fn other_metadata_is_not_implemented() {
    let body = "{\"Metadata\":[{\"Type\":\"SessionEnd\",\"Data\":{\"Offset\":1}}]}";
    let mut decoder = stream(ID);
    assert!(matches!(
        decoder.accept(text("audio.metadata", body)),
        Step::Failed(SynthesisError::UnimplementedMetadata(kind)) if kind == "SessionEnd"
    ));
    assert!(decoder.is_finished());
}

#[test]
fn response_fields() {
    assert!(matches!(response_stream(&json("{\"audio\":{\"type\":\"inline\",\"streamId\":\"S1\"}}")), Ok(id) if id == "S1"));
    assert!(matches!(response_stream(&json("{\"audio\":{\"type\":\"other\",\"streamId\":\"S1\"}}")), Ok(id) if id == "S1"));
    assert!(matches!(response_stream(&json("{}")), Err(SynthesisError::MissingField("audio", "`response` event"))));
    assert!(matches!(
        response_stream(&json("{\"audio\":{\"streamId\":\"S1\"}}")),
        Err(SynthesisError::MissingField("type", "`response` event audio metadata"))
    ));
    assert!(matches!(
        response_stream(&json("{\"audio\":{\"type\":\"inline\",\"streamId\":5}}")),
        Err(SynthesisError::MissingField("streamId", "`response` event audio metadata"))
    ));
}

#[test]
fn audio_must_be_binary() {
    let mut decoder = stream(ID);
    assert!(matches!(
        decoder.accept(text("audio", "not bytes")),
        Step::Failed(SynthesisError::ExpectedBinary("audio"))
    ));
    assert!(decoder.is_finished());
}

#[test]
fn metadata_must_be_text_and_json() {
    let mut decoder = stream(ID);
    assert!(matches!(
        decoder.accept(binary("audio.metadata", b"{}")),
        Step::Failed(SynthesisError::Message(AzureCognitiveSpeechServicesMessageError::ParseBinary))
    ));
    let mut decoder = stream(ID);
    assert!(matches!(
        decoder.accept(text("response", "{\"audio\":")),
        Step::Failed(SynthesisError::Message(AzureCognitiveSpeechServicesMessageError::ParseJson(_)))
    ));
}

#[test]
fn unreadable_frames_are_fatal() {
    let mut decoder = stream(ID);
    assert!(matches!(
        decoder.accept(InboundFrame::Text("no separator".to_string())),
        Step::Failed(SynthesisError::Message(AzureCognitiveSpeechServicesMessageError::MalformedHeaderSection))
    ));
    assert!(matches!(decoder.accept(text("turn.start", "")), Step::Finished));
    let mut decoder = stream(ID);
    assert!(matches!(
        decoder.accept(InboundFrame::Binary(vec![0, 4, b'n', b'o', b'n', b'e'])),
        Step::Failed(SynthesisError::Message(AzureCognitiveSpeechServicesMessageError::BadHeader(line))) if line == "none"
    ));
}

#[test]
fn unknown_paths_and_other_frames_are_skipped() {
    let (events, last, decoder) = run(vec![
        text("something.new", "{}"),
        InboundFrame::Other,
        binary("telemetry", &[1, 2]),
        text("Turn.Start", ""),
    ]);
    assert!(events.is_empty());
    assert!(last.is_none());
    assert!(!decoder.is_finished());
}

#[test]
fn close_ends_the_stream_early() {
    let (events, last, decoder) = run(vec![binary("audio", &[1]), InboundFrame::Close, binary("audio", &[2])]);
    assert_eq!(events.len(), 1);
    assert!(matches!(last, Some(Step::Closed)));
    assert!(decoder.is_finished());
}

#[test]
fn frames_of_another_request_are_refused() {
    let mut decoder = stream("ffff");
    assert_eq!(decoder.request_id(), "ffff");
    assert!(matches!(
        decoder.accept(text("turn.start", "")),
        Step::Failed(SynthesisError::UnexpectedRequestId(id)) if id == ID
    ));
    assert!(decoder.is_finished());
}

#[test]
fn boundaries_from_their_parts() {
    assert!(matches!(
        boundary_from(false, Some(50_000), Some(20_000), Some("hi".to_string())),
        Ok(UtteranceEvent::WordBoundary { offset_ticks: 50_000, duration_ticks: 20_000, text }) if text == "hi"
    ));
    assert!(matches!(
        boundary_from(true, Some(0), Some(u64::MAX), Some(String::new())),
        Ok(UtteranceEvent::SentenceBoundary { offset_ticks: 0, duration_ticks: u64::MAX, text }) if text.is_empty()
    ));
    let place = "`audio.metadata` event";
    assert!(matches!(boundary_from(false, None, None, None), Err(SynthesisError::MissingField("Offset", p)) if p == place));
    assert!(matches!(boundary_from(false, Some(1), None, None), Err(SynthesisError::MissingField("Duration", p)) if p == place));
    assert!(matches!(boundary_from(true, Some(1), Some(1), None), Err(SynthesisError::MissingField("Text", p)) if p == place));
}

#[test]
fn frames_from_their_parts() {
    let weight = |text: &str| json(text);
    let event = frames_from(Some(3), Some(vec![Some(vec![weight("0.5"), weight("1")]), Some(vec![])])).unwrap();
    match event {
        UtteranceEvent::BlendShapeVisemesChunk { frame_index, frames } => {
            assert_eq!(frame_index, 3);
            assert_eq!(frames.len(), 2);
            assert_eq!(frames[0].len(), 2);
            assert_eq!(frames[0][1].key(), "eyeLookDownLeft");
            assert_eq!(frames[0][1].weight().cast_f64(), Some(1.0));
            assert!(frames[1].is_empty());
        }
        other => panic!("unexpected event {other:?}"),
    }
    assert!(matches!(frames_from(None, Some(vec![])), Err(SynthesisError::MalformedAnimationChunk)));
    assert!(matches!(frames_from(Some(1), None), Err(SynthesisError::MalformedAnimationChunk)));
    assert!(matches!(
        frames_from(Some(1), Some(vec![Some(vec![]), None])),
        Err(SynthesisError::MalformedAnimationChunk)
    ));
    assert!(matches!(
        frames_from(Some(1), Some(vec![Some(vec![weight("0.5"), weight("\"0.5\"")])])),
        Err(SynthesisError::MalformedAnimationChunk)
    ));
    let wide = (0..56).map(|_| weight("0")).collect::<Vec<_>>();
    assert!(matches!(frames_from(Some(1), Some(vec![Some(wide)])), Err(SynthesisError::MalformedAnimationChunk)));
    let full = (0..55).map(|_| weight("0")).collect::<Vec<_>>();
    assert!(frames_from(Some(1), Some(vec![Some(full)])).is_ok());
}

#[test]
fn metadata_kinds() {
    assert_eq!(metadata_kind("WordBoundary"), MetadataKind::WordBoundary);
    assert_eq!(metadata_kind("SentenceBoundary"), MetadataKind::SentenceBoundary);
    assert_eq!(metadata_kind("Viseme"), MetadataKind::Viseme);
    assert_eq!(metadata_kind("viseme"), MetadataKind::Other);
    assert_eq!(metadata_kind("Bookmark"), MetadataKind::Other);
    assert_eq!(metadata_kind(""), MetadataKind::Other);
}

#[test]
fn weights_that_are_no_numbers_break_the_stream() {
    let body = "{\"Metadata\":[{\"Type\":\"Viseme\",\"Data\":{\"AnimationChunk\":\"{\\\"FrameIndex\\\":1,\\\"BlendShapes\\\":[[0.5,\\\"high\\\"]]}\"}}]}";
    let mut decoder = stream(ID);
    assert!(matches!(
        decoder.accept(text("audio.metadata", body)),
        Step::Failed(SynthesisError::MalformedAnimationChunk)
    ));
    assert!(decoder.is_finished());
    assert!(matches!(decoder.accept(binary("audio", &[1])), Step::Finished));
}

#[test]
fn blend_shapes_hold_a_key_of_the_table_and_a_number() {
    let shape = BlendShape::at(17, json("0.5")).unwrap();
    assert_eq!(shape.key(), "jawOpen");
    assert_eq!(shape.weight().cast_f64(), Some(0.5));
    let copy = shape.clone();
    assert_eq!(copy.key(), "jawOpen");
    assert_eq!(copy.weight(), shape.weight());
    assert!(BlendShape::at(0, json("1")).is_some());
    assert!(BlendShape::at(54, json("-2")).is_some());
    assert!(BlendShape::at(55, json("0.5")).is_none());
    for text in ["\"0.5\"", "null", "true", "[1]", "{}"] {
        assert!(BlendShape::at(0, json(text)).is_none());
    }
}

#[test]
fn frames_are_numbered_from_the_index_of_the_chunk() {
    assert_eq!(frame_number(3, 0), 3);
    assert_eq!(frame_number(3, 1), 4);
    assert_eq!(frame_number(0, 0), 0);
    assert_eq!(frame_number(u64::MAX, 2), u64::MAX as u128 + 2);
}
