use simd_json::prelude::{ValueAsScalar, ValueObjectAccess};
use azure_cognitive_speech_services::message::{
    parse_headers, AzureCognitiveSpeechServicesMessage, AzureCognitiveSpeechServicesMessageBody,
    AzureCognitiveSpeechServicesMessageBuilder, AzureCognitiveSpeechServicesMessageError,
    WebsocketFrame,
};

fn text_body(text: &str) -> AzureCognitiveSpeechServicesMessageBody {
    AzureCognitiveSpeechServicesMessageBody::Text(text.to_string())
}

fn binary_body(bytes: &[u8]) -> AzureCognitiveSpeechServicesMessageBody {
    AzureCognitiveSpeechServicesMessageBody::Binary(bytes.to_vec())
}

fn binary_frame(headers: &[u8], body: &[u8]) -> Vec<u8> {
    let mut frame = (headers.len() as u16).to_be_bytes().to_vec();
    frame.extend_from_slice(headers);
    frame.extend_from_slice(body);
    frame
}

#[test]
fn text_frame_is_written_with_mixed_case_names() {
    let message = AzureCognitiveSpeechServicesMessage::builder("ssml", "abc123")
        .with_content_type("application/ssml+xml")
        .with_body(text_body("<speak/>"))
        .build()
        .unwrap();
    assert_eq!(
        message.serialize_text(),
        "X-RequestId: abc123\r\nContent-Type: application/ssml+xml\r\nPath: ssml\r\n\r\n<speak/>"
    );
}

#[test]
fn text_frame_with_all_headers() {
    let message = AzureCognitiveSpeechServicesMessage::builder("audio", "id")
        .with_content_type("a/b")
        .with_stream_id("s1")
        .with_body(text_body(""))
        .build()
        .unwrap();
    assert_eq!(
        message.serialize_text(),
        "X-RequestId: id\r\nContent-Type: a/b\r\nX-StreamId: s1\r\nPath: audio\r\n\r\n"
    );
}

#[test]
fn binary_frame_starts_with_the_header_length() {
    let message = AzureCognitiveSpeechServicesMessage::builder("audio", "id")
        .with_stream_id("s1")
        .with_body(binary_body(&[0, 255, 13, 10]))
        .build()
        .unwrap();
    let headers = b"X-RequestId: id\r\nX-StreamId: s1\r\nPath: audio";
    assert_eq!(headers.len(), 44);
    let mut expected = vec![0u8, 44];
    expected.extend_from_slice(headers);
    expected.extend_from_slice(&[0, 255, 13, 10]);
    assert_eq!(message.serialize_binary(), expected);
}

#[test]
fn binary_frame_length_is_big_endian() {
    let long = "v".repeat(300);
    let message = AzureCognitiveSpeechServicesMessage::builder(&long, "id")
        .with_body(binary_body(&[1]))
        .build()
        .unwrap();
    let frame = message.serialize_binary();
    let length = "X-RequestId: id\r\nPath: ".len() + 300;
    assert_eq!(frame[0] as usize, length / 256);
    assert_eq!(frame[1] as usize, length % 256);
    assert_eq!(frame.len(), 2 + length + 1);
}

#[test]
fn serialize_inner_gives_headers_and_body() {
    let message = AzureCognitiveSpeechServicesMessage::builder("p", "r")
        .with_body(text_body("b"))
        .build()
        .unwrap();
    let (headers, body) = message.serialize_inner();
    assert_eq!(headers, "X-RequestId: r\r\nPath: p");
    assert_eq!(body.as_text().map(String::as_str), Some("b"));
}

#[test]
fn websocket_frame_follows_the_body() {
    let text = AzureCognitiveSpeechServicesMessage::builder("p", "r").with_body(text_body("b")).build().unwrap();
    assert!(matches!(text.into_websocket_message(), WebsocketFrame::Text(t) if t == "X-RequestId: r\r\nPath: p\r\n\r\nb"));
    let binary = AzureCognitiveSpeechServicesMessage::builder("p", "r").with_body(binary_body(&[7])).build().unwrap();
    let expected = binary_frame(b"X-RequestId: r\r\nPath: p", &[7]);
    assert!(matches!(binary.into_websocket_message(), WebsocketFrame::Binary(b) if b == expected));
}

#[test]
fn text_round_trip() {
    let message = AzureCognitiveSpeechServicesMessage::builder("audio.metadata", "0123456789abcdef")
        .with_content_type("application/json; charset=utf-8")
        .with_stream_id("f00d")
        .with_body(text_body("{\"A\": \"B\"}\r\n\r\nmore"))
        .build()
        .unwrap();
    let read = AzureCognitiveSpeechServicesMessage::from_str(&message.clone().serialize_text()).unwrap();
    assert_eq!(read.request_id(), "0123456789abcdef");
    assert_eq!(read.path(), "audio.metadata");
    assert_eq!(read.content_type().map(String::as_str), Some("application/json; charset=utf-8"));
    assert_eq!(read.stream_id().map(String::as_str), Some("f00d"));
    assert_eq!(read.body().as_text().map(String::as_str), Some("{\"A\": \"B\"}\r\n\r\nmore"));
    assert_eq!(read.serialize_text(), message.serialize_text());
}

#[test]
fn binary_round_trip() {
    let message = AzureCognitiveSpeechServicesMessage::builder("audio", "0123456789abcdef")
        .with_body(binary_body(&[13, 10, 13, 10, 0, 200]))
        .build()
        .unwrap();
    let read = AzureCognitiveSpeechServicesMessage::try_from(message.clone().serialize_binary()).unwrap();
    assert_eq!(read.request_id(), "0123456789abcdef");
    assert_eq!(read.path(), "audio");
    assert!(read.content_type().is_none());
    assert!(read.stream_id().is_none());
    assert_eq!(read.body().as_binary(), Some(&[13u8, 10, 13, 10, 0, 200][..]));
    assert_eq!(read.into_body().into_binary(), message.into_body().into_binary());
}

#[test]
fn round_trip_with_empty_values_and_empty_body() {
    let message = AzureCognitiveSpeechServicesMessage::builder("", "").with_body(text_body("")).build().unwrap();
    let frame = message.serialize_text();
    assert_eq!(frame, "X-RequestId: \r\nPath: \r\n\r\n");
    let read = AzureCognitiveSpeechServicesMessage::from_str(&frame).unwrap();
    assert_eq!(read.request_id(), "");
    assert_eq!(read.path(), "");
    assert_eq!(read.into_body().into_text(), Some(String::new()));
}

#[test]
fn names_and_values_are_lower_cased_and_trimmed_on_reading() {
    let read = AzureCognitiveSpeechServicesMessage::from_str(
        "  PATH :\t Turn.Start \r\nx-requestid:ABC\r\nCONTENT-TYPE: Application/JSON\r\n\r\nBody Stays",
    )
    .unwrap();
    assert_eq!(read.path(), "turn.start");
    assert_eq!(read.request_id(), "abc");
    assert_eq!(read.content_type().map(String::as_str), Some("application/json"));
    assert_eq!(read.body().as_text().map(String::as_str), Some("Body Stays"));
}

#[test]
fn lower_casing_and_trimming_follow_unicode() {
    let read = AzureCognitiveSpeechServicesMessage::from_str(
        "Path:\u{a0}\u{2003}ÄÖ Ü\u{3000}\r\nX-RequestId: 1\r\n\r\n",
    )
    .unwrap();
    assert_eq!(read.path(), "äö ü");
}

#[test]
fn value_may_hold_colons() {
    let builder = parse_headers("Path: a:b: c\r\nX-RequestId: 1").unwrap();
    let message = builder.with_body(text_body("")).build().unwrap();
    assert_eq!(message.path(), "a:b: c");
}

#[test]
fn blank_lines_and_unknown_headers_are_passed_over() {
    let builder = parse_headers("\r\n   \r\nX-Other: 1\r\nPath: p\r\n\t\r\nX-RequestId: r\r\n").unwrap();
    let message = builder.with_body(text_body("")).build().unwrap();
    assert_eq!(message.path(), "p");
    assert_eq!(message.request_id(), "r");
    assert!(message.content_type().is_none());
}

#[test]
fn later_header_replaces_earlier_one() {
    let builder = parse_headers("Path: first\r\nX-RequestId: r\r\npath: second").unwrap();
    assert_eq!(builder.with_body(text_body("")).build().unwrap().path(), "second");
}

#[test]
fn lone_line_feed_does_not_end_a_line() {
    let builder = parse_headers("Path: a\nX-RequestId: b\r\nX-RequestId: r").unwrap();
    let message = builder.with_body(text_body("")).build().unwrap();
    assert_eq!(message.path(), "a\nx-requestid: b");
    assert_eq!(message.request_id(), "r");
}

#[test]
fn text_without_empty_line_is_malformed() {
    let result = AzureCognitiveSpeechServicesMessage::from_str("Path: p\r\nX-RequestId: r\r\n");
    assert!(matches!(result, Err(AzureCognitiveSpeechServicesMessageError::MalformedHeaderSection)));
    let result = AzureCognitiveSpeechServicesMessage::from_str("");
    assert!(matches!(result, Err(AzureCognitiveSpeechServicesMessageError::MalformedHeaderSection)));
}

#[test]
fn body_starts_after_the_first_empty_line() {
    let read = AzureCognitiveSpeechServicesMessage::from_str("Path: p\r\nX-RequestId: r\r\n\r\n\r\n\r\nx").unwrap();
    assert_eq!(read.into_body().into_text().unwrap(), "\r\n\r\nx");
}

#[test]
fn line_without_colon_is_a_bad_header() {
    let result = parse_headers("Path: p\r\n no colon here \r\nalso none");
    assert!(matches!(result, Err(AzureCognitiveSpeechServicesMessageError::BadHeader(line)) if line == " no colon here "));
}

#[test]
fn missing_headers_are_named() {
    let result = parse_headers("X-RequestId: r");
    assert!(matches!(result, Err(AzureCognitiveSpeechServicesMessageError::MissingHeader("Path"))));
    let result = parse_headers("Path: p");
    assert!(matches!(result, Err(AzureCognitiveSpeechServicesMessageError::MissingHeader("X-RequestId"))));
    let result = parse_headers("");
    assert!(matches!(result, Err(AzureCognitiveSpeechServicesMessageError::MissingHeader("Path"))));
}

#[test]
fn binary_header_must_be_utf8() {
    let result = AzureCognitiveSpeechServicesMessage::try_from(binary_frame(&[b'P', 0xff, 0xfe], &[1, 2]));
    match result {
        Err(AzureCognitiveSpeechServicesMessageError::HeaderUtf8(error)) => {
            assert_eq!(error, std::str::from_utf8(&[b'P', 0xff, 0xfe]).unwrap_err());
            assert_eq!(error.valid_up_to(), 1);
        }
        other => panic!("unexpected outcome {other:?}"),
    }
}

#[test]
fn binary_header_may_hold_any_utf8() {
    let headers = "Path: Grüße\r\nX-RequestId: r".as_bytes();
    let read = AzureCognitiveSpeechServicesMessage::try_from(binary_frame(headers, &[9])).unwrap();
    assert_eq!(read.path(), "grüße");
    assert_eq!(read.into_body().into_binary(), Some(vec![9]));
}

#[test]
fn binary_frame_needs_no_line_end_after_the_headers() {
    let read = AzureCognitiveSpeechServicesMessage::try_from(binary_frame(b"Path:audio\r\nX-RequestId:r\r\n", &[])).unwrap();
    assert_eq!(read.path(), "audio");
    assert_eq!(read.into_body().into_binary(), Some(vec![]));
}

#[test]
fn short_binary_frames_are_malformed() {
    for frame in [vec![], vec![0u8], vec![0, 5, b'P', b'a'], vec![255, 255]] {
        let result = AzureCognitiveSpeechServicesMessage::try_from(frame);
        assert!(matches!(result, Err(AzureCognitiveSpeechServicesMessageError::MalformedHeaderSection)));
    }
}

#[test]
fn binary_frame_without_headers_lacks_the_path() {
    let result = AzureCognitiveSpeechServicesMessage::try_from(vec![0, 0, 1, 2, 3]);
    assert!(matches!(result, Err(AzureCognitiveSpeechServicesMessageError::MissingHeader("Path"))));
}

#[test]
fn builder_names_the_first_missing_part() {
    let result = AzureCognitiveSpeechServicesMessageBuilder::default().build();
    assert!(matches!(result, Err(AzureCognitiveSpeechServicesMessageError::Builder("missing request ID"))));
    let result = AzureCognitiveSpeechServicesMessageBuilder::new("p", "r").build();
    assert!(matches!(result, Err(AzureCognitiveSpeechServicesMessageError::Builder("missing message body"))));
    let result = AzureCognitiveSpeechServicesMessageBuilder::default().with_body(text_body("b")).build();
    assert!(matches!(result, Err(AzureCognitiveSpeechServicesMessageError::Builder("missing request ID"))));
}

#[test]
fn builder_keeps_what_it_was_given() {
    let message = AzureCognitiveSpeechServicesMessageBuilder::new("The.Path", "The-Id")
        .with_content_type("first")
        .with_content_type("Second")
        .with_stream_id("S")
        .with_body(binary_body(&[1, 2]))
        .build()
        .unwrap();
    assert_eq!(message.path(), "The.Path");
    assert_eq!(message.request_id(), "The-Id");
    assert_eq!(message.content_type().map(String::as_str), Some("Second"));
    assert_eq!(message.stream_id().map(String::as_str), Some("S"));
    assert_eq!(message.body().as_binary(), Some(&[1u8, 2][..]));
    assert!(message.body().as_text().is_none());
    assert!(message.into_body().into_text().is_none());
}

#[test]
fn content_type_constants() {
    assert_eq!(AzureCognitiveSpeechServicesMessage::CONTENT_TYPE_JSON, "application/json");
    assert_eq!(AzureCognitiveSpeechServicesMessage::CONTENT_TYPE_SSML, "application/ssml+xml");
}

#[test]
fn json_body_is_parsed() {
    let message = AzureCognitiveSpeechServicesMessage::builder("p", "r")
        .with_body(text_body("{\"a\": {\"b\": 7}}"))
        .build()
        .unwrap();
    let value = message.into_json_abstract().unwrap();
    assert_eq!(value.get("a").and_then(|a| a.get("b")).and_then(|b| b.as_u64()), Some(7));
}

#[test]
fn json_errors() {
    let binary = AzureCognitiveSpeechServicesMessage::builder("p", "r").with_body(binary_body(b"{}")).build().unwrap();
    assert!(matches!(binary.into_json_abstract(), Err(AzureCognitiveSpeechServicesMessageError::ParseBinary)));
    let broken = AzureCognitiveSpeechServicesMessage::builder("p", "r").with_body(text_body("{\"a\": ")).build().unwrap();
    assert!(matches!(broken.into_json_abstract(), Err(AzureCognitiveSpeechServicesMessageError::ParseJson(_))));
}

#[test]
fn bodies_compare_by_their_content() {
    assert!(binary_body(&[1, 2]) == binary_body(&[1, 2]));
    assert!(binary_body(&[1, 2]) != binary_body(&[1, 3]));
    assert!(binary_body(&[1, 2]) != binary_body(&[1]));
    assert!(text_body("a") == text_body("a"));
    assert!(text_body("a") != text_body("b"));
    assert!(text_body("") != binary_body(&[]));
    assert!(binary_body(b"a") != text_body("a"));
}

#[test]
fn bodies_from_bytes_and_strings() {
    let binary: AzureCognitiveSpeechServicesMessageBody = vec![1u8, 2].into();
    assert!(binary == binary_body(&[1, 2]));
    let text: AzureCognitiveSpeechServicesMessageBody = String::from("hello").into();
    assert!(text == text_body("hello"));
    let borrowed: AzureCognitiveSpeechServicesMessageBody = "grüß dich".into();
    assert!(borrowed == text_body("grüß dich"));
    assert!(AzureCognitiveSpeechServicesMessageBody::from("") == text_body(""));
    let sent = AzureCognitiveSpeechServicesMessage::builder("p", "r").with_body("{}".into()).build().unwrap();
    assert_eq!(sent.serialize_text(), "X-RequestId: r\r\nPath: p\r\n\r\n{}");
    let message = AzureCognitiveSpeechServicesMessage::builder("p", "r").with_body("x".to_string().into()).build().unwrap();
    assert_eq!(message.into_body().into_text().as_deref(), Some("x"));
}
