//! The synthesis session: where to connect, which format to ask for, and the three messages
//! that open a request.

use vstd::prelude::*;
use vstd::string::*;
use vstd::utf8::encode_utf8;
use crate::audio::{
    AudioChannels, AudioCodec, AudioContainer, AudioEncoding, AudioFormat, AudioFormatPreference,
};
use crate::error::{SynthesisError, SynthesisErrorView};
use crate::message::{
    spec_frame, spec_is_request_id, AzureCognitiveSpeechServicesMessage, AzureCognitiveSpeechServicesMessageBody,
    MessageBodyView, MessageView, WebsocketFrame,
};
use crate::negotiation::{spec_has_preset, spec_names_no_container, spec_negotiate};
use crate::synthesiser::stream::{DecoderView, EventStreamDecoder};

pub mod stream;

verus! {

/// `http::HeaderValue`, the subscription key as it goes into the request.
#[verifier::external_type_specification]
#[verifier::external_body]
pub struct ExHeaderValue(http::HeaderValue);

/// `http::header::InvalidHeaderValue`, which tells no more than that a value was refused.
#[verifier::external_type_specification]
#[verifier::external_body]
pub struct ExInvalidHeaderValue(http::header::InvalidHeaderValue);

/// The bytes that a header value holds.
pub uninterp spec fn header_value_bytes(value: http::HeaderValue) -> Seq<u8>;

/// Whether a byte can stand in a header value: the tab and everything from the space on but
/// the delete character.
pub open spec fn spec_is_header_byte(byte: u8) -> bool {
    (byte >= 32 && byte != 127) || byte == 9
}

/// Whether a text can stand in a header value.
pub open spec fn spec_is_header_text(text: Seq<char>) -> bool {
    forall|i: int| 0 <= i < encode_utf8(text).len() ==> spec_is_header_byte(
        #[trigger] encode_utf8(text)[i],
    )
}

/// Calls `http::HeaderValue::from_str`, which accepts a text exactly where each of its bytes
/// is a tab or at least 32 and not 127, and then holds a copy of the bytes.
#[verifier::external_body]
fn header_value(text: &str) -> (value: Result<http::HeaderValue, http::header::InvalidHeaderValue>)
    ensures
        value is Ok <==> spec_is_header_text(text@),
        value matches Ok(held) ==> header_value_bytes(held) == encode_utf8(text@),
{
    http::HeaderValue::from_str(text)
}

/// A copy of a header value is the same value.
pub assume_specification[ <http::HeaderValue as Clone>::clone ](value: &http::HeaderValue) -> (copy:
    http::HeaderValue)
    ensures
        copy == *value,
;

/// `ssml::Element`, one element of an SSML document.
#[verifier::external_type_specification]
#[verifier::external_body]
pub struct ExElement<'s>(ssml::Element<'s>);

/// `ssml::Speak`, an SSML document.
#[verifier::external_type_specification]
#[verifier::external_body]
pub struct ExSpeak<'s>(ssml::Speak<'s>);

/// `ssml::Error`, carried as it comes.
#[verifier::external_type_specification]
#[verifier::external_body]
pub struct ExSsmlError(ssml::Error);

/// The dialects of SSML that a document can be written in.
#[derive(Clone, Copy, Debug, PartialEq, Eq, Structural)]
pub enum SsmlFlavor {
    Generic,
    MicrosoftAzureCognitiveSpeechServices,
    GoogleCloudTextToSpeech,
    AmazonPolly,
    PykeSongbird,
}

/// The text of an SSML document in a flavour, or why it cannot be written.
pub uninterp spec fn ssml_document(input: ssml::Speak<'_>, flavor: SsmlFlavor) -> Result<
    Seq<char>,
    ssml::Error,
>;

/// The SSML element that holds a plain text.
pub uninterp spec fn ssml_text_element(input: Seq<char>) -> ssml::Element<'static>;

/// The SSML element that has a plain text spoken in a voice.
pub uninterp spec fn ssml_voice_element(voice: Seq<char>, input: Seq<char>) -> ssml::Element<
    'static,
>;

/// The SSML document of a language, where one is given, and one element.
pub uninterp spec fn ssml_speak(lang: Option<Seq<char>>, element: ssml::Element<'static>) -> ssml::Speak<
    'static,
>;

/// Calls `serialize_to_string` of `ssml` with its default options and the flavour asked for.
#[verifier::external_body]
fn write_ssml(input: &ssml::Speak<'_>, flavor: SsmlFlavor) -> (written: Result<String, ssml::Error>)
    ensures
        match written {
            Ok(text) => ssml_document(*input, flavor) == Ok::<Seq<char>, ssml::Error>(text@),
            Err(error) => ssml_document(*input, flavor) == Err::<Seq<char>, ssml::Error>(error),
        },
{
    let flavor = match flavor {
        SsmlFlavor::Generic => ssml::Flavor::Generic,
        SsmlFlavor::MicrosoftAzureCognitiveSpeechServices => ssml::Flavor::MicrosoftAzureCognitiveSpeechServices,
        SsmlFlavor::GoogleCloudTextToSpeech => ssml::Flavor::GoogleCloudTextToSpeech,
        SsmlFlavor::AmazonPolly => ssml::Flavor::AmazonPolly,
        SsmlFlavor::PykeSongbird => ssml::Flavor::PykeSongbird,
    };
    ssml::Serialize::serialize_to_string(input, &ssml::SerializeOptions::default().flavor(flavor))
}

/// Calls `ssml::Element::from` on a copy of the text, which makes a text element of it.
#[verifier::external_body]
fn text_element(input: &str) -> (element: ssml::Element<'static>)
    ensures
        element == ssml_text_element(input@),
{
    ssml::Element::from(input.to_string())
}

/// Calls `ssml::voice` with the voice's name and a copy of the text as its one element, and
/// hands the voice section on as an element.
#[verifier::external_body]
fn voice_element<'a>(voice: &'a str, input: &str) -> (element: ssml::Element<'a>)
    ensures
        element == ssml_voice_element(voice@, input@),
{
    ssml::voice(voice, [input.to_string()]).into()
}

/// Calls `ssml::Speak::new` with a language, where one is given, and one element.
#[verifier::external_body]
fn speak<'a>(lang: Option<&'a str>, element: ssml::Element<'a>) -> (document: ssml::Speak<'a>)
    ensures
        document == ssml_speak(
            match lang {
                Some(name) => Some(name@),
                None => None,
            },
            element,
        ),
{
    ssml::Speak::new(lang, [element])
}

/// The name under which the service knows an audio format, where it has one.
pub open spec fn spec_name_for_format(format: AudioFormat) -> Option<Seq<char>> {
    if format.channels != AudioChannels::Mono {
        None
    } else {
        match (format.container, format.sample_rate) {
            (AudioContainer::Raw(AudioEncoding::ALaw), 8000) => Some("raw-8khz-8bit-mono-alaw"@),
            (AudioContainer::Raw(AudioEncoding::MuLaw), 8000) => Some("raw-8khz-8bit-mono-mulaw"@),
            (AudioContainer::Raw(AudioEncoding::PcmI16), 8000) => Some("raw-8khz-16bit-mono-pcm"@),
            (AudioContainer::Raw(AudioEncoding::PcmI16), 16000) => Some(
                "raw-16khz-16bit-mono-pcm"@,
            ),
            (AudioContainer::Raw(AudioEncoding::PcmI16), 22050) => Some(
                "raw-22050khz-16bit-mono-pcm"@,
            ),
            (AudioContainer::Raw(AudioEncoding::PcmI16), 24000) => Some(
                "raw-24khz-16bit-mono-pcm"@,
            ),
            (AudioContainer::Raw(AudioEncoding::PcmI16), 44100) => Some(
                "raw-44100khz-16bit-mono-pcm"@,
            ),
            (AudioContainer::Raw(AudioEncoding::PcmI16), 48000) => Some(
                "raw-48khz-16bit-mono-pcm"@,
            ),
            (AudioContainer::Ogg(AudioCodec::Opus), 16000) => Some("ogg-16khz-16bit-mono-opus"@),
            (AudioContainer::Ogg(AudioCodec::Opus), 24000) => Some("ogg-24khz-16bit-mono-opus"@),
            (AudioContainer::Ogg(AudioCodec::Opus), 48000) => Some("ogg-48khz-16bit-mono-opus"@),
            _ => None,
        }
    }
}

/// The service has a name for exactly the mono formats that it has a preset for.
pub proof fn lemma_named_formats_are_presets(format: AudioFormat)
    ensures
        spec_name_for_format(format) is Some <==> format.channels == AudioChannels::Mono
            && spec_has_preset(format.container, format.sample_rate),
{
}

/// Every negotiated format has a name: the session that asks for it is not refused for its
/// format.
pub proof fn lemma_negotiated_has_name(
    pref: crate::audio::AudioFormatPreferenceView,
    format: AudioFormat,
)
    requires
        spec_negotiate(pref) == Some(format),
    ensures
        spec_name_for_format(format) is Some,
{
    crate::negotiation::lemma_negotiated_is_preset(pref, format);
}

/// The characters of an optional text.
pub open spec fn spec_name_view(name: Option<&'static str>) -> Option<Seq<char>> {
    match name {
        Some(text) => Some(text@),
        None => None,
    }
}

/// What the caller wants to hear about besides the audio, and the voice for plain text.
#[derive(Clone, Debug)]
pub struct UtteranceConfig {
    pub emit_word_boundary_events: bool,
    pub emit_sentence_boundary_events: bool,
    pub voice: Option<String>,
}

impl Default for UtteranceConfig {
    /// No boundary events and no voice.
    fn default() -> (config: Self)
        ensures
            !config.emit_word_boundary_events,
            !config.emit_sentence_boundary_events,
            config.voice is None,
    {
        UtteranceConfig {
            emit_word_boundary_events: false,
            emit_sentence_boundary_events: false,
            voice: None,
        }
    }
}

/// The text of an SSML document as this service reads it, or why it cannot be written.
pub open spec fn spec_service_document(input: ssml::Speak<'_>) -> Result<Seq<char>, ssml::Error> {
    ssml_document(input, SsmlFlavor::MicrosoftAzureCognitiveSpeechServices)
}

/// The SSML document that speaks a plain text. Where a voice is given, the text stands in a
/// section of that voice, and the voice's name is the document's language.
pub open spec fn spec_text_document(voice: Option<String>, input: Seq<char>) -> ssml::Speak<
    'static,
> {
    match voice {
        Some(name) => ssml_speak(Some(name@), ssml_voice_element(name@, input)),
        None => ssml_speak(None, ssml_text_element(input)),
    }
}

/// The text of a JSON boolean.
pub open spec fn spec_bool_text(value: bool) -> Seq<char> {
    if value {
        "true"@
    } else {
        "false"@
    }
}

/// The message that describes the client. Its request id is used for nothing else.
pub open spec fn spec_speech_config(request_id: Seq<char>) -> MessageView {
    MessageView {
        request_id,
        path: "speech.config"@,
        content_type: Some("application/json"@),
        stream_id: None,
        body: MessageBodyView::Text(
            "{\"context\":{\"system\":{\"version\":\"1.30.0\",\"name\":\"SpeechSDK\",\"build\":\"Windows-x64\"},\"os\":{\"platform\":\"Windows\",\"name\":\"Client\",\"version\":\"10\"}}}"@,
        ),
    }
}

/// The body of the message that asks for boundaries and names the output format.
pub open spec fn spec_synthesis_context_body(
    format_name: Seq<char>,
    config: UtteranceConfig,
) -> Seq<char> {
    "{\"synthesis\":{\"audio\":{\"metadataOptions\":{\"sentenceBoundaryEnabled\":"@
        + spec_bool_text(config.emit_sentence_boundary_events) + ",\"wordBoundaryEnabled\":"@
        + spec_bool_text(config.emit_word_boundary_events)
        + ",\"bookmarkEnabled\":true,\"sessionEndEnabled\":false},\"outputFormat\":\""@
        + format_name + "\"}}}"@
}

/// The message that asks for boundaries and names the output format.
pub open spec fn spec_synthesis_context(
    request_id: Seq<char>,
    format_name: Seq<char>,
    config: UtteranceConfig,
) -> MessageView {
    MessageView {
        request_id,
        path: "synthesis.context"@,
        content_type: Some("application/json"@),
        stream_id: None,
        body: MessageBodyView::Text(spec_synthesis_context_body(format_name, config)),
    }
}

/// The message that carries the document to speak.
pub open spec fn spec_ssml(request_id: Seq<char>, document: Seq<char>) -> MessageView {
    MessageView {
        request_id,
        path: "ssml"@,
        content_type: Some("application/ssml+xml"@),
        stream_id: None,
        body: MessageBodyView::Text(document),
    }
}

/// What opens a request: the frames to send, in order, and the decoder for the answer.
#[derive(Debug)]
pub struct SessionOpening {
    pub frames: Vec<WebsocketFrame>,
    pub decoder: EventStreamDecoder,
}

/// Whether `opening` opens a request for `document` with the given ids: the client's
/// description under `config_id`, then the context and the document under `request_id`, and a
/// fresh decoder for `request_id`.
pub open spec fn spec_opens(
    opening: SessionOpening,
    config_id: Seq<char>,
    request_id: Seq<char>,
    document: Seq<char>,
    format_name: Seq<char>,
    config: UtteranceConfig,
) -> bool {
    &&& opening.frames@.len() == 3
    &&& opening.frames@[0]@ == spec_frame(spec_speech_config(config_id))
    &&& opening.frames@[1]@ == spec_frame(spec_synthesis_context(request_id, format_name, config))
    &&& opening.frames@[2]@ == spec_frame(spec_ssml(request_id, document))
    &&& opening.decoder@ == (DecoderView { request_id, stream_id: None, finished: false })
}

/// Whether `opened` is what opening a request for `document` gives: an opening under two
/// request ids, or the refusal of a format that the service has no name for.
pub open spec fn spec_opens_fresh(
    opened: Result<SessionOpening, SynthesisError>,
    document: Seq<char>,
    audio_format: AudioFormat,
    config: UtteranceConfig,
) -> bool {
    match opened {
        Ok(opening) => spec_name_for_format(audio_format) matches Some(name) && exists|
            config_id: Seq<char>,
            request_id: Seq<char>,
        |
            spec_is_request_id(config_id) && spec_is_request_id(request_id) && #[trigger] spec_opens(
                opening,
                config_id,
                request_id,
                document,
                name,
                config,
            ),
        Err(error) => spec_name_for_format(audio_format) is None && error@
            == SynthesisErrorView::UnsupportedAudioFormat,
    }
}

/// The endpoint of a region.
pub open spec fn spec_endpoint(region: Seq<char>) -> Seq<char> {
    "wss://"@ + region + ".tts.speech.microsoft.com/cognitiveservices/websocket/v1"@
}

/// A client of the speech service in one region.
#[derive(Clone)]
pub struct AzureCognitiveSpeechServicesSynthesiser {
    endpoint: String,
    key: http::HeaderValue,
}

pub struct SynthesiserView {
    pub endpoint: Seq<char>,
    /// The bytes of the subscription key.
    pub key: Seq<u8>,
}

impl View for AzureCognitiveSpeechServicesSynthesiser {
    type V = SynthesiserView;

    closed spec fn view(&self) -> SynthesiserView {
        SynthesiserView { endpoint: self.endpoint@, key: header_value_bytes(self.key) }
    }
}

fn text_message(path: &str, request_id: &str, content_type: &str, body: String) -> (message:
    AzureCognitiveSpeechServicesMessage)
    ensures
        message@ == (MessageView {
            request_id: request_id@,
            path: path@,
            content_type: Some(content_type@),
            stream_id: None,
            body: MessageBodyView::Text(body@),
        }),
{
    let built = AzureCognitiveSpeechServicesMessage::builder(path, request_id).with_content_type(
        content_type,
    ).with_body(AzureCognitiveSpeechServicesMessageBody::Text(body)).build();
    match built {
        Ok(message) => message,
        Err(_) => vstd::pervasive::unreached(),
    }
}

impl AzureCognitiveSpeechServicesSynthesiser {
    /// A client for `region` that authenticates with `key`. The key is refused where it cannot
    /// stand in a request header.
    pub fn new(region: &str, key: &str) -> (created: Result<Self, SynthesisError>)
        ensures
            match created {
                Ok(synthesiser) => spec_is_header_text(key@) && synthesiser@ == (SynthesiserView {
                    endpoint: spec_endpoint(region@),
                    key: encode_utf8(key@),
                }),
                Err(error) => !spec_is_header_text(key@) && error@ == SynthesisErrorView::InvalidKey,
            },
    {
        let mut endpoint = String::from_str("wss://");
        endpoint.append(region);
        endpoint.append(".tts.speech.microsoft.com/cognitiveservices/websocket/v1");
        match header_value(key) {
            Ok(key) => Ok(AzureCognitiveSpeechServicesSynthesiser { endpoint, key }),
            Err(_) => Err(SynthesisError::InvalidKey),
        }
    }

    /// The address to connect to.
    pub fn endpoint(&self) -> (endpoint: &str)
        ensures
            endpoint@ == self@.endpoint,
    {
        self.endpoint.as_str()
    }

    /// The value of the `Ocp-Apim-Subscription-Key` header to connect with.
    pub fn key(&self) -> (key: &http::HeaderValue)
        ensures
            header_value_bytes(*key) == self@.key,
    {
        &self.key
    }

    /// The name under which the service knows `format`, or `None` where it does not offer it.
    pub fn name_for_format(format: &AudioFormat) -> (name: Option<&'static str>)
        ensures
            spec_name_view(name) == spec_name_for_format(*format),
    {
        match format.channels {
            AudioChannels::Mono => {},
            AudioChannels::Stereo => {
                return None;
            },
        }
        match (format.container, format.sample_rate) {
            (AudioContainer::Raw(AudioEncoding::ALaw), 8000) => Some("raw-8khz-8bit-mono-alaw"),
            (AudioContainer::Raw(AudioEncoding::MuLaw), 8000) => Some("raw-8khz-8bit-mono-mulaw"),
            (AudioContainer::Raw(AudioEncoding::PcmI16), 8000) => Some("raw-8khz-16bit-mono-pcm"),
            (AudioContainer::Raw(AudioEncoding::PcmI16), 16000) => Some("raw-16khz-16bit-mono-pcm"),
            (AudioContainer::Raw(AudioEncoding::PcmI16), 22050) => Some(
                "raw-22050khz-16bit-mono-pcm",
            ),
            (AudioContainer::Raw(AudioEncoding::PcmI16), 24000) => Some("raw-24khz-16bit-mono-pcm"),
            (AudioContainer::Raw(AudioEncoding::PcmI16), 44100) => Some(
                "raw-44100khz-16bit-mono-pcm",
            ),
            (AudioContainer::Raw(AudioEncoding::PcmI16), 48000) => Some("raw-48khz-16bit-mono-pcm"),
            (AudioContainer::Ogg(AudioCodec::Opus), 16000) => Some("ogg-16khz-16bit-mono-opus"),
            (AudioContainer::Ogg(AudioCodec::Opus), 24000) => Some("ogg-24khz-16bit-mono-opus"),
            (AudioContainer::Ogg(AudioCodec::Opus), 48000) => Some("ogg-48khz-16bit-mono-opus"),
            _ => None,
        }
    }

    /// Picks the format to ask the service for, or `None` when nothing the caller accepts is
    /// on offer. A caller who names no container gets the default format. The service has a
    /// name for the format that is picked.
    pub fn negotiate_audio_format(&self, pref: &AudioFormatPreference) -> (format: Option<
        AudioFormat,
    >)
        ensures
            format == spec_negotiate(pref@),
            spec_names_no_container(pref@) ==> format == Some(
                crate::negotiation::spec_default_format(),
            ),
            format matches Some(chosen) ==> spec_name_for_format(chosen) is Some,
    {
        crate::negotiation::negotiate_audio_format(pref)
    }

    /// The message that describes the client.
    pub fn speech_config_message(request_id: &str) -> (message: AzureCognitiveSpeechServicesMessage)
        ensures
            message@ == spec_speech_config(request_id@),
    {
        text_message(
            "speech.config",
            request_id,
            AzureCognitiveSpeechServicesMessage::CONTENT_TYPE_JSON,
            String::from_str(
                "{\"context\":{\"system\":{\"version\":\"1.30.0\",\"name\":\"SpeechSDK\",\"build\":\"Windows-x64\"},\"os\":{\"platform\":\"Windows\",\"name\":\"Client\",\"version\":\"10\"}}}",
            ),
        )
    }

    /// The message that asks for boundaries and names the output format.
    pub fn synthesis_context_message(
        request_id: &str,
        format_name: &str,
        config: &UtteranceConfig,
    ) -> (message: AzureCognitiveSpeechServicesMessage)
        ensures
            message@ == spec_synthesis_context(request_id@, format_name@, *config),
    {
        let mut body = String::from_str(
            "{\"synthesis\":{\"audio\":{\"metadataOptions\":{\"sentenceBoundaryEnabled\":",
        );
        body.append(if config.emit_sentence_boundary_events { "true" } else { "false" });
        body.append(",\"wordBoundaryEnabled\":");
        body.append(if config.emit_word_boundary_events { "true" } else { "false" });
        body.append(",\"bookmarkEnabled\":true,\"sessionEndEnabled\":false},\"outputFormat\":\"");
        body.append(format_name);
        body.append("\"}}}");
        text_message(
            "synthesis.context",
            request_id,
            AzureCognitiveSpeechServicesMessage::CONTENT_TYPE_JSON,
            body,
        )
    }

    /// The message that carries the document to speak.
    pub fn ssml_message(request_id: &str, document: String) -> (message:
        AzureCognitiveSpeechServicesMessage)
        ensures
            message@ == spec_ssml(request_id@, document@),
    {
        text_message(
            "ssml",
            request_id,
            AzureCognitiveSpeechServicesMessage::CONTENT_TYPE_SSML,
            document,
        )
    }

    /// What opens a request under given ids. Fails where the service has no name for the
    /// format, and only there.
    pub fn open_with_ids(
        config_id: &str,
        request_id: &str,
        ssml_string: String,
        audio_format: &AudioFormat,
        config: &UtteranceConfig,
    ) -> (opened: Result<SessionOpening, SynthesisError>)
        ensures
            match opened {
                Ok(opening) => spec_name_for_format(*audio_format) matches Some(name) && spec_opens(
                    opening,
                    config_id@,
                    request_id@,
                    ssml_string@,
                    name,
                    *config,
                ),
                Err(error) => spec_name_for_format(*audio_format) is None && error@
                    == SynthesisErrorView::UnsupportedAudioFormat,
            },
    {
        let name = match Self::name_for_format(audio_format) {
            Some(name) => name,
            None => {
                return Err(SynthesisError::UnsupportedAudioFormat);
            },
        };
        let mut frames: Vec<WebsocketFrame> = Vec::new();
        frames.push(Self::speech_config_message(config_id).into_websocket_message());
        frames.push(
            Self::synthesis_context_message(request_id, name, config).into_websocket_message(),
        );
        frames.push(Self::ssml_message(request_id, ssml_string).into_websocket_message());
        Ok(SessionOpening { frames, decoder: crate::synthesiser::stream::stream(request_id) })
    }

    /// What opens a request to speak `ssml_string`: fresh ids are drawn, one for the client's
    /// description and one for the request.
    pub fn speak_inner(
        &self,
        ssml_string: String,
        audio_format: &AudioFormat,
        config: &UtteranceConfig,
    ) -> (opened: Result<SessionOpening, SynthesisError>)
        ensures
            spec_opens_fresh(opened, ssml_string@, *audio_format, *config),
    {
        let config_id = AzureCognitiveSpeechServicesMessage::gen_request_id();
        let request_id = AzureCognitiveSpeechServicesMessage::gen_request_id();
        Self::open_with_ids(
            config_id.as_str(),
            request_id.as_str(),
            ssml_string,
            audio_format,
            config,
        )
    }

    /// What opens a request to speak an SSML document. Fails where the document cannot be
    /// written, or the service has no name for the format.
    pub fn synthesise_ssml_stream(
        &self,
        input: &ssml::Speak<'_>,
        audio_format: &AudioFormat,
        config: &UtteranceConfig,
    ) -> (opened: Result<SessionOpening, SynthesisError>)
        ensures
            match spec_service_document(*input) {
                Ok(document) => spec_opens_fresh(opened, document, *audio_format, *config),
                Err(reason) => opened matches Err(error) && error@ == SynthesisErrorView::Ssml(
                    reason,
                ),
            },
    {
        match write_ssml(input, SsmlFlavor::MicrosoftAzureCognitiveSpeechServices) {
            Ok(ssml_string) => self.speak_inner(ssml_string, audio_format, config),
            Err(reason) => Err(SynthesisError::Ssml(reason)),
        }
    }

    /// What opens a request to speak a plain text, in the voice of `config` where it names one.
    pub fn synthesise_text_stream(
        &self,
        input: &str,
        audio_format: &AudioFormat,
        config: &UtteranceConfig,
    ) -> (opened: Result<SessionOpening, SynthesisError>)
        ensures
            match spec_service_document(spec_text_document(config.voice, input@)) {
                Ok(document) => spec_opens_fresh(opened, document, *audio_format, *config),
                Err(reason) => opened matches Err(error) && error@ == SynthesisErrorView::Ssml(
                    reason,
                ),
            },
    {
        let document = match &config.voice {
            Some(voice) => speak(Some(voice.as_str()), voice_element(voice.as_str(), input)),
            None => speak(None, text_element(input)),
        };
        self.synthesise_ssml_stream(&document, audio_format, config)
    }
}

} // verus!
