use azure_cognitive_speech_services::audio::{
    AudioChannels, AudioContainer, AudioEncoding, AudioFormat, AudioFormatPreference,
};
use azure_cognitive_speech_services::error::SynthesisError;
use azure_cognitive_speech_services::message::{AzureCognitiveSpeechServicesMessage, WebsocketFrame};
use azure_cognitive_speech_services::synthesiser::stream::{InboundFrame, Step};
use azure_cognitive_speech_services::synthesiser::{
    AzureCognitiveSpeechServicesSynthesiser, SessionOpening, UtteranceConfig,
};
use ssml::Serialize;

const CLIENT: &str = "{\"context\":{\"system\":{\"version\":\"1.30.0\",\"name\":\"SpeechSDK\",\"build\":\"Windows-x64\"},\"os\":{\"platform\":\"Windows\",\"name\":\"Client\",\"version\":\"10\"}}}";

fn pcm(rate: u32) -> AudioFormat {
    AudioFormat::new(rate, AudioChannels::Mono, None, AudioContainer::Raw(AudioEncoding::PcmI16))
}

fn text_of(frame: &WebsocketFrame) -> &str {
    match frame {
        WebsocketFrame::Text(text) => text,
        WebsocketFrame::Binary(_) => panic!("expected a text frame"),
    }
}

#[test]
fn endpoint_and_key() {
    let synthesiser = AzureCognitiveSpeechServicesSynthesiser::new("westeurope", "secret key\t1").unwrap();
    assert_eq!(
        synthesiser.endpoint(),
        "wss://westeurope.tts.speech.microsoft.com/cognitiveservices/websocket/v1"
    );
    assert_eq!(synthesiser.key().as_bytes(), b"secret key\t1");
    let copy = synthesiser.clone();
    assert_eq!(copy.endpoint(), synthesiser.endpoint());
    assert_eq!(copy.key(), synthesiser.key());
}

#[test]
fn keys_with_control_characters_are_refused() {
    for key in ["line\nbreak", "\r", "del\u{7f}", "nul\0"] {
        assert!(matches!(
            AzureCognitiveSpeechServicesSynthesiser::new("r", key),
            Err(SynthesisError::InvalidKey)
        ));
    }
    assert!(AzureCognitiveSpeechServicesSynthesiser::new("r", "").is_ok());
    assert!(AzureCognitiveSpeechServicesSynthesiser::new("r", "schlüssel").is_ok());
}

#[test]
fn request_ids_are_32_hex_digits() {
    let first = AzureCognitiveSpeechServicesMessage::gen_request_id();
    let second = AzureCognitiveSpeechServicesMessage::gen_request_id();
    for id in [&first, &second] {
        assert_eq!(id.len(), 32);
        assert!(id.chars().all(|c| matches!(c, '0'..='9' | 'a'..='f')));
        assert_eq!(id.as_bytes()[12], b'4');
        assert!(matches!(id.as_bytes()[16], b'8' | b'9' | b'a' | b'b'));
    }
    assert_ne!(first, second);
}

#[test]
fn the_three_opening_messages() {
    let config = UtteranceConfig { emit_word_boundary_events: true, emit_sentence_boundary_events: false, voice: None };
    let opening = AzureCognitiveSpeechServicesSynthesiser::open_with_ids(
        "c0ffee",
        "abcdef",
        "<speak>Hello</speak>".to_string(),
        &pcm(24_000),
        &config,
    )
    .unwrap();
    assert_eq!(opening.frames.len(), 3);
    assert_eq!(
        text_of(&opening.frames[0]),
        format!("X-RequestId: c0ffee\r\nContent-Type: application/json\r\nPath: speech.config\r\n\r\n{CLIENT}")
    );
    assert_eq!(
        text_of(&opening.frames[1]),
        "X-RequestId: abcdef\r\nContent-Type: application/json\r\nPath: synthesis.context\r\n\r\n{\"synthesis\":{\"audio\":{\"metadataOptions\":{\"sentenceBoundaryEnabled\":false,\"wordBoundaryEnabled\":true,\"bookmarkEnabled\":true,\"sessionEndEnabled\":false},\"outputFormat\":\"raw-24khz-16bit-mono-pcm\"}}}"
    );
    assert_eq!(
        text_of(&opening.frames[2]),
        "X-RequestId: abcdef\r\nContent-Type: application/ssml+xml\r\nPath: ssml\r\n\r\n<speak>Hello</speak>"
    );
    assert_eq!(opening.decoder.request_id(), "abcdef");
    assert!(!opening.decoder.is_finished());
}

#[test]
fn boundary_flags_are_written_as_json_booleans() {
    let config = UtteranceConfig { emit_word_boundary_events: false, emit_sentence_boundary_events: true, voice: None };
    let message = AzureCognitiveSpeechServicesSynthesiser::synthesis_context_message("id", "the-format", &config);
    assert_eq!(message.path(), "synthesis.context");
    assert_eq!(
        message.into_body().into_text().unwrap(),
        "{\"synthesis\":{\"audio\":{\"metadataOptions\":{\"sentenceBoundaryEnabled\":true,\"wordBoundaryEnabled\":false,\"bookmarkEnabled\":true,\"sessionEndEnabled\":false},\"outputFormat\":\"the-format\"}}}"
    );
}

#[test]
fn default_config_asks_for_nothing() {
    let config = UtteranceConfig::default();
    assert!(!config.emit_word_boundary_events);
    assert!(!config.emit_sentence_boundary_events);
    assert!(config.voice.is_none());
}

#[test]
fn single_messages() {
    let message = AzureCognitiveSpeechServicesSynthesiser::speech_config_message("id");
    assert_eq!(message.request_id(), "id");
    assert_eq!(message.path(), "speech.config");
    assert_eq!(message.content_type().map(String::as_str), Some(AzureCognitiveSpeechServicesMessage::CONTENT_TYPE_JSON));
    assert_eq!(message.into_body().into_text().unwrap(), CLIENT);
    let message = AzureCognitiveSpeechServicesSynthesiser::ssml_message("id", "<speak/>".to_string());
    assert_eq!(message.path(), "ssml");
    assert_eq!(message.content_type().map(String::as_str), Some(AzureCognitiveSpeechServicesMessage::CONTENT_TYPE_SSML));
    assert!(message.stream_id().is_none());
}

#[test]
fn format_without_a_name_is_unsupported() {
    let config = UtteranceConfig { emit_word_boundary_events: false, emit_sentence_boundary_events: false, voice: None };
    let synthesiser = AzureCognitiveSpeechServicesSynthesiser::new("r", "k").unwrap();
    let result = synthesiser.speak_inner("<speak/>".to_string(), &pcm(11_025), &config);
    assert!(matches!(result, Err(SynthesisError::UnsupportedAudioFormat)));
}

#[test]
fn a_session_draws_two_ids_and_its_decoder_reads_the_second() {
    let config = UtteranceConfig { emit_word_boundary_events: true, emit_sentence_boundary_events: true, voice: None };
    let synthesiser = AzureCognitiveSpeechServicesSynthesiser::new("r", "k").unwrap();
    let format = synthesiser.negotiate_audio_format(&AudioFormatPreference::default()).unwrap();
    let mut opening = synthesiser.speak_inner("<speak/>".to_string(), &format, &config).unwrap();
    let sent: Vec<AzureCognitiveSpeechServicesMessage> = opening
        .frames
        .iter()
        .map(|frame| AzureCognitiveSpeechServicesMessage::from_str(text_of(frame)).unwrap())
        .collect();
    assert_eq!(sent.len(), 3);
    assert_eq!(sent[0].path(), "speech.config");
    assert_eq!(sent[1].path(), "synthesis.context");
    assert_eq!(sent[2].path(), "ssml");
    assert_ne!(sent[0].request_id(), sent[1].request_id());
    assert_eq!(sent[1].request_id(), sent[2].request_id());
    assert_eq!(opening.decoder.request_id(), sent[1].request_id());
    assert!(sent[1].body().as_text().unwrap().contains("\"outputFormat\":\"raw-48khz-16bit-mono-pcm\""));
    let answer = format!("X-RequestId: {}\r\nPath: turn.end\r\n\r\n", sent[1].request_id());
    assert!(matches!(opening.decoder.accept(InboundFrame::Text(answer)), Step::TurnEnd));
}

fn acss(document: &ssml::Speak<'_>) -> String {
    let options = ssml::SerializeOptions::default().flavor(ssml::Flavor::MicrosoftAzureCognitiveSpeechServices);
    document.serialize_to_string(&options).unwrap()
}

fn spoken(opening: &SessionOpening) -> String {
    let message = AzureCognitiveSpeechServicesMessage::from_str(text_of(&opening.frames[2])).unwrap();
    assert_eq!(message.path(), "ssml");
    assert_eq!(message.content_type().map(String::as_str), Some("application/ssml+xml"));
    message.into_body().into_text().unwrap()
}

#[test]
fn ssml_documents_are_written_in_the_flavour_of_the_service() {
    let config = UtteranceConfig { emit_word_boundary_events: false, emit_sentence_boundary_events: false, voice: None };
    let synthesiser = AzureCognitiveSpeechServicesSynthesiser::new("r", "k").unwrap();
    let document = ssml::speak(Some("en-US"), [ssml::voice("en-US-JaneNeural", ["This is <an> example."])]);
    let opening = synthesiser.synthesise_ssml_stream(&document, &pcm(48_000), &config).unwrap();
    let body = spoken(&opening);
    assert_eq!(body, acss(&document));
    assert!(body.starts_with("<speak"));
    assert!(body.contains("xmlns:mstts=\"http://www.w3.org/2001/mstts\""));
    assert!(body.contains("xml:lang=\"en-US\""));
    assert!(body.contains("en-US-JaneNeural"));
    assert!(body.contains("This is &lt;an&gt; example."));
    let refused = synthesiser.synthesise_ssml_stream(&document, &pcm(12), &config);
    assert!(matches!(refused, Err(SynthesisError::UnsupportedAudioFormat)));
}

#[test]
fn plain_text_is_wrapped_in_a_document() {
    let synthesiser = AzureCognitiveSpeechServicesSynthesiser::new("r", "k").unwrap();
    let plain = UtteranceConfig { emit_word_boundary_events: false, emit_sentence_boundary_events: false, voice: None };
    let opening = synthesiser.synthesise_text_stream("Hello & goodbye", &pcm(16_000), &plain).unwrap();
    let body = spoken(&opening);
    assert_eq!(body, acss(&ssml::Speak::new::<ssml::Element, _>(None, ["Hello & goodbye".to_string().into()])));
    assert!(body.contains("Hello &amp; goodbye"));
    assert!(!body.contains("<voice"));
    let voiced = UtteranceConfig { voice: Some("en-US-JaneNeural".to_string()), ..plain };
    let opening = synthesiser.synthesise_text_stream("Hello", &pcm(16_000), &voiced).unwrap();
    let body = spoken(&opening);
    let expected = ssml::Speak::new::<ssml::Element, _>(
        Some("en-US-JaneNeural"),
        [ssml::voice("en-US-JaneNeural", ["Hello".to_string()]).into()],
    );
    assert_eq!(body, acss(&expected));
    assert!(body.contains("<voice name=\"en-US-JaneNeural\">Hello</voice>"));
}
