//! The messages of the protocol and their two wire forms.
//!
//! A text frame is a header section, an empty line and the body as text. A binary frame is the
//! length of the header section in bytes as a big-endian `u16`, the header section, and the body
//! as bytes. The header section is made of lines `Name: value` joined by CRLF.

use vstd::prelude::*;
use vstd::slice::{slice_subrange, slice_to_vec};
use vstd::string::*;
use vstd::utf8::{decode_utf8, encode_utf8, valid_utf8};
use crate::text::{
    chars_of, is_blank, spec_is_blank, spec_lowercase, spec_trim, str_from_utf8, string_of,
    to_lowercase, trim_bounds, utf8_error,
};

verus! {

/// Why a message could not be built or read.
#[derive(Debug)]
pub enum AzureCognitiveSpeechServicesMessageError {
    /// A binary body was asked for as JSON.
    ParseBinary,
    /// The body is not JSON.
    ParseJson(simd_json::Error),
    /// A mandatory part is missing from a builder.
    Builder(&'static str),
    /// A header line has no colon.
    BadHeader(String),
    /// A mandatory header is absent.
    MissingHeader(&'static str),
    /// The header section is not set off from the body.
    MalformedHeaderSection,
    /// The header section of a binary frame is not UTF-8.
    HeaderUtf8(std::str::Utf8Error),
}

/// The mathematical content of an error.
pub enum MessageErrorView {
    ParseBinary,
    ParseJson(simd_json::Error),
    Builder(Seq<char>),
    BadHeader(Seq<char>),
    MissingHeader(Seq<char>),
    MalformedHeaderSection,
    HeaderUtf8(std::str::Utf8Error),
}

impl View for AzureCognitiveSpeechServicesMessageError {
    type V = MessageErrorView;

    open spec fn view(&self) -> MessageErrorView {
        match *self {
            AzureCognitiveSpeechServicesMessageError::ParseBinary => MessageErrorView::ParseBinary,
            AzureCognitiveSpeechServicesMessageError::ParseJson(e) => MessageErrorView::ParseJson(e),
            AzureCognitiveSpeechServicesMessageError::Builder(what) => MessageErrorView::Builder(
                what@,
            ),
            AzureCognitiveSpeechServicesMessageError::BadHeader(line) => MessageErrorView::BadHeader(
                line@,
            ),
            AzureCognitiveSpeechServicesMessageError::MissingHeader(name) =>
                MessageErrorView::MissingHeader(name@),
            AzureCognitiveSpeechServicesMessageError::MalformedHeaderSection =>
                MessageErrorView::MalformedHeaderSection,
            AzureCognitiveSpeechServicesMessageError::HeaderUtf8(e) => MessageErrorView::HeaderUtf8(e),
        }
    }
}

/// The body of a message: bytes in a binary frame, text in a text frame.
#[derive(Clone, Debug)]
pub enum AzureCognitiveSpeechServicesMessageBody {
    Binary(Vec<u8>),
    Text(String),
}

pub enum MessageBodyView {
    Binary(Seq<u8>),
    Text(Seq<char>),
}

impl View for AzureCognitiveSpeechServicesMessageBody {
    type V = MessageBodyView;

    open spec fn view(&self) -> MessageBodyView {
        match *self {
            AzureCognitiveSpeechServicesMessageBody::Binary(bytes) => MessageBodyView::Binary(
                bytes@,
            ),
            AzureCognitiveSpeechServicesMessageBody::Text(text) => MessageBodyView::Text(text@),
        }
    }
}

impl AzureCognitiveSpeechServicesMessageBody {
    pub fn as_binary(&self) -> (bytes: Option<&[u8]>)
        ensures
            match bytes {
                Some(b) => self@ == MessageBodyView::Binary(b@),
                None => self@ is Text,
            },
    {
        match self {
            AzureCognitiveSpeechServicesMessageBody::Binary(b) => Some(b.as_slice()),
            AzureCognitiveSpeechServicesMessageBody::Text(_) => None,
        }
    }

    pub fn as_text(&self) -> (text: Option<&String>)
        ensures
            match text {
                Some(t) => self@ == MessageBodyView::Text(t@),
                None => self@ is Binary,
            },
    {
        match self {
            AzureCognitiveSpeechServicesMessageBody::Binary(_) => None,
            AzureCognitiveSpeechServicesMessageBody::Text(t) => Some(t),
        }
    }

    pub fn into_binary(self) -> (bytes: Option<Vec<u8>>)
        ensures
            match bytes {
                Some(b) => self@ == MessageBodyView::Binary(b@),
                None => self@ is Text,
            },
    {
        match self {
            AzureCognitiveSpeechServicesMessageBody::Binary(b) => Some(b),
            AzureCognitiveSpeechServicesMessageBody::Text(_) => None,
        }
    }

    pub fn into_text(self) -> (text: Option<String>)
        ensures
            match text {
                Some(t) => self@ == MessageBodyView::Text(t@),
                None => self@ is Binary,
            },
    {
        match self {
            AzureCognitiveSpeechServicesMessageBody::Binary(_) => None,
            AzureCognitiveSpeechServicesMessageBody::Text(t) => Some(t),
        }
    }
}

impl PartialEq for AzureCognitiveSpeechServicesMessageBody {
    fn eq(&self, other: &Self) -> (same: bool) {
        match (self, other) {
            (
                AzureCognitiveSpeechServicesMessageBody::Binary(mine),
                AzureCognitiveSpeechServicesMessageBody::Binary(theirs),
            ) => {
                let same = *mine == *theirs;
                proof {
                    assert(same == (mine@ =~= theirs@));
                }
                same
            },
            (
                AzureCognitiveSpeechServicesMessageBody::Text(mine),
                AzureCognitiveSpeechServicesMessageBody::Text(theirs),
            ) => *mine == *theirs,
            _ => false,
        }
    }
}

impl vstd::std_specs::cmp::PartialEqSpecImpl for AzureCognitiveSpeechServicesMessageBody {
    open spec fn obeys_eq_spec() -> bool {
        true
    }

    open spec fn eq_spec(&self, other: &Self) -> bool {
        self@ == other@
    }
}

impl Eq for AzureCognitiveSpeechServicesMessageBody {

}

impl From<Vec<u8>> for AzureCognitiveSpeechServicesMessageBody {
    fn from(value: Vec<u8>) -> (body: Self) {
        AzureCognitiveSpeechServicesMessageBody::Binary(value)
    }
}

impl vstd::std_specs::convert::FromSpecImpl<Vec<u8>> for AzureCognitiveSpeechServicesMessageBody {
    open spec fn obeys_from_spec() -> bool {
        true
    }

    open spec fn from_spec(value: Vec<u8>) -> Self {
        AzureCognitiveSpeechServicesMessageBody::Binary(value)
    }
}

impl From<String> for AzureCognitiveSpeechServicesMessageBody {
    fn from(value: String) -> (body: Self) {
        AzureCognitiveSpeechServicesMessageBody::Text(value)
    }
}

impl vstd::std_specs::convert::FromSpecImpl<String> for AzureCognitiveSpeechServicesMessageBody {
    open spec fn obeys_from_spec() -> bool {
        true
    }

    open spec fn from_spec(value: String) -> Self {
        AzureCognitiveSpeechServicesMessageBody::Text(value)
    }
}

/// A text body that holds the characters of `value`.
impl<'s> From<&'s str> for AzureCognitiveSpeechServicesMessageBody {
    fn from(value: &'s str) -> (body: Self)
        ensures
            body@ == MessageBodyView::Text(value@),
    {
        AzureCognitiveSpeechServicesMessageBody::Text(String::from_str(value))
    }
}

/// The body made from a borrowed text is known by its content, which `from` states itself: the
/// string that it holds is a fresh one, and no specification can name it.
impl<'s> vstd::std_specs::convert::FromSpecImpl<&'s str> for AzureCognitiveSpeechServicesMessageBody {
    open spec fn obeys_from_spec() -> bool {
        false
    }

    open spec fn from_spec(value: &'s str) -> Self {
        choose|body: Self| body@ == MessageBodyView::Text(value@)
    }
}

/// The characters of an optional string.
pub open spec fn spec_text_of(s: Option<String>) -> Option<Seq<char>> {
    match s {
        Some(text) => Some(text@),
        None => None,
    }
}

/// A frame as it travels over the websocket.
#[derive(Clone, Debug)]
pub enum WebsocketFrame {
    Binary(Vec<u8>),
    Text(String),
}

pub enum WebsocketFrameView {
    Binary(Seq<u8>),
    Text(Seq<char>),
}

impl View for WebsocketFrame {
    type V = WebsocketFrameView;

    open spec fn view(&self) -> WebsocketFrameView {
        match *self {
            WebsocketFrame::Binary(bytes) => WebsocketFrameView::Binary(bytes@),
            WebsocketFrame::Text(text) => WebsocketFrameView::Text(text@),
        }
    }
}

/// The frame that carries a message.
pub open spec fn spec_frame(message: MessageView) -> WebsocketFrameView {
    match message.body {
        MessageBodyView::Binary(_) => WebsocketFrameView::Binary(spec_binary_frame(message)),
        MessageBodyView::Text(_) => WebsocketFrameView::Text(spec_text_frame(message)),
    }
}

/// One message of the protocol.
#[derive(Clone, Debug)]
pub struct AzureCognitiveSpeechServicesMessage {
    request_id: String,
    path: String,
    content_type: Option<String>,
    stream_id: Option<String>,
    body: AzureCognitiveSpeechServicesMessageBody,
}

pub struct MessageView {
    pub request_id: Seq<char>,
    pub path: Seq<char>,
    pub content_type: Option<Seq<char>>,
    pub stream_id: Option<Seq<char>>,
    pub body: MessageBodyView,
}

impl View for AzureCognitiveSpeechServicesMessage {
    type V = MessageView;

    closed spec fn view(&self) -> MessageView {
        MessageView {
            request_id: self.request_id@,
            path: self.path@,
            content_type: spec_text_of(self.content_type),
            stream_id: spec_text_of(self.stream_id),
            body: self.body@,
        }
    }
}

/// Collects the parts of a message.
#[derive(Clone)]
pub struct AzureCognitiveSpeechServicesMessageBuilder {
    request_id: Option<String>,
    path: Option<String>,
    content_type: Option<String>,
    stream_id: Option<String>,
    body: Option<AzureCognitiveSpeechServicesMessageBody>,
}

pub struct MessageBuilderView {
    pub request_id: Option<Seq<char>>,
    pub path: Option<Seq<char>>,
    pub content_type: Option<Seq<char>>,
    pub stream_id: Option<Seq<char>>,
    pub body: Option<MessageBodyView>,
}

impl View for AzureCognitiveSpeechServicesMessageBuilder {
    type V = MessageBuilderView;

    closed spec fn view(&self) -> MessageBuilderView {
        MessageBuilderView {
            request_id: spec_text_of(self.request_id),
            path: spec_text_of(self.path),
            content_type: spec_text_of(self.content_type),
            stream_id: spec_text_of(self.stream_id),
            body: match self.body {
                Some(body) => Some(body@),
                None => None,
            },
        }
    }
}

/// What building gives: the message, or the first part that is missing, asked for in the order
/// request id, path, body.
pub open spec fn spec_build(builder: MessageBuilderView) -> Result<MessageView, MessageErrorView> {
    if builder.request_id is None {
        Err(MessageErrorView::Builder("missing request ID"@))
    } else if builder.path is None {
        Err(MessageErrorView::Builder("missing request path"@))
    } else if builder.body is None {
        Err(MessageErrorView::Builder("missing message body"@))
    } else {
        Ok(
            MessageView {
                request_id: builder.request_id.unwrap(),
                path: builder.path.unwrap(),
                content_type: builder.content_type,
                stream_id: builder.stream_id,
                body: builder.body.unwrap(),
            },
        )
    }
}

/// The views of a result's two sides.
pub open spec fn spec_outcome(
    result: Result<AzureCognitiveSpeechServicesMessage, AzureCognitiveSpeechServicesMessageError>,
) -> Result<MessageView, MessageErrorView> {
    match result {
        Ok(message) => Ok(message@),
        Err(error) => Err(error@),
    }
}

impl Default for AzureCognitiveSpeechServicesMessageBuilder {
    fn default() -> (builder: Self)
        ensures
            builder@ == (MessageBuilderView {
                request_id: None,
                path: None,
                content_type: None,
                stream_id: None,
                body: None,
            }),
    {
        AzureCognitiveSpeechServicesMessageBuilder {
            request_id: None,
            path: None,
            content_type: None,
            stream_id: None,
            body: None,
        }
    }
}

impl AzureCognitiveSpeechServicesMessageBuilder {
    pub fn new(path: &str, request_id: &str) -> (builder: Self)
        ensures
            builder@ == (MessageBuilderView {
                request_id: Some(request_id@),
                path: Some(path@),
                content_type: None,
                stream_id: None,
                body: None,
            }),
    {
        AzureCognitiveSpeechServicesMessageBuilder {
            request_id: Some(String::from_str(request_id)),
            path: Some(String::from_str(path)),
            content_type: None,
            stream_id: None,
            body: None,
        }
    }

    pub fn with_content_type(self, content_type: &str) -> (builder: Self)
        ensures
            builder@ == (MessageBuilderView { content_type: Some(content_type@), ..self@ }),
    {
        let mut builder = self;
        builder.content_type = Some(String::from_str(content_type));
        builder
    }

    pub fn with_stream_id(self, stream_id: &str) -> (builder: Self)
        ensures
            builder@ == (MessageBuilderView { stream_id: Some(stream_id@), ..self@ }),
    {
        let mut builder = self;
        builder.stream_id = Some(String::from_str(stream_id));
        builder
    }

    pub fn with_body(self, body: AzureCognitiveSpeechServicesMessageBody) -> (builder: Self)
        ensures
            builder@ == (MessageBuilderView { body: Some(body@), ..self@ }),
    {
        let mut builder = self;
        builder.body = Some(body);
        builder
    }

    pub fn build(self) -> (built: Result<
        AzureCognitiveSpeechServicesMessage,
        AzureCognitiveSpeechServicesMessageError,
    >)
        ensures
            spec_outcome(built) == spec_build(self@),
    {
        let request_id = match self.request_id {
            Some(id) => id,
            None => {
                return Err(AzureCognitiveSpeechServicesMessageError::Builder("missing request ID"));
            },
        };
        let path = match self.path {
            Some(path) => path,
            None => {
                return Err(
                    AzureCognitiveSpeechServicesMessageError::Builder("missing request path"),
                );
            },
        };
        let body = match self.body {
            Some(body) => body,
            None => {
                return Err(
                    AzureCognitiveSpeechServicesMessageError::Builder("missing message body"),
                );
            },
        };
        Ok(
            AzureCognitiveSpeechServicesMessage {
                request_id,
                path,
                content_type: self.content_type,
                stream_id: self.stream_id,
                body,
            },
        )
    }
}

/// Whether a text is a request id: 32 lower-case hexadecimal digits.
pub open spec fn spec_is_request_id(id: Seq<char>) -> bool {
    &&& id.len() == 32
    &&& forall|i: int|
        0 <= i < id.len() ==> ('0' <= #[trigger] id[i] <= '9') || ('a' <= id[i] <= 'f')
}

/// Whether a request id has the marks of a random UUID: version 4 and the variant of RFC 9562.
pub open spec fn spec_is_random_uuid(id: Seq<char>) -> bool {
    &&& spec_is_request_id(id)
    &&& id[12] == '4'
    &&& id[16] == '8' || id[16] == '9' || id[16] == 'a' || id[16] == 'b'
}

/// Calls `uuid::Uuid::new_v4` and writes the result in the simple format: a random UUID as 32
/// lower-case hexadecimal digits without separators, with the version and variant bits set.
#[verifier::external_body]
fn random_uuid_simple() -> (id: String)
    ensures
        spec_is_random_uuid(id@),
{
    uuid::Uuid::new_v4().simple().to_string()
}

/// One header line: the name, a colon, a space, the value.
pub open spec fn spec_header_line(name: Seq<char>, value: Seq<char>) -> Seq<char> {
    name + ": "@ + value
}

/// A header line that follows another one, or nothing where the header is absent.
pub open spec fn spec_optional_line(name: Seq<char>, value: Option<Seq<char>>) -> Seq<char> {
    match value {
        Some(v) => "\r\n"@ + spec_header_line(name, v),
        None => Seq::empty(),
    }
}

/// The header section of a message: the request id, the content type and the stream id where
/// the message has them, and the path, in that order.
pub open spec fn spec_header_section(message: MessageView) -> Seq<char> {
    spec_header_line("X-RequestId"@, message.request_id) + spec_optional_line(
        "Content-Type"@,
        message.content_type,
    ) + spec_optional_line("X-StreamId"@, message.stream_id) + "\r\n"@ + spec_header_line(
        "Path"@,
        message.path,
    )
}

/// The text frame of a message with a text body.
pub open spec fn spec_text_frame(message: MessageView) -> Seq<char>
    recommends
        message.body is Text,
{
    spec_header_section(message) + "\r\n\r\n"@ + message.body->Text_0
}

/// The two bytes that a binary frame starts with: the low 16 bits of the header section's
/// length, high byte first.
pub open spec fn spec_length_prefix(length: nat) -> Seq<u8> {
    seq![((length % 65536) / 256) as u8, (length % 256) as u8]
}

/// The binary frame of a message with a binary body.
pub open spec fn spec_binary_frame(message: MessageView) -> Seq<u8>
    recommends
        message.body is Binary,
{
    let header = encode_utf8(spec_header_section(message));
    spec_length_prefix(header.len()) + header + message.body->Binary_0
}

impl AzureCognitiveSpeechServicesMessage {
    pub const CONTENT_TYPE_JSON: &'static str = "application/json";

    pub const CONTENT_TYPE_SSML: &'static str = "application/ssml+xml";

    pub fn builder(path: &str, request_id: &str) -> (builder:
        AzureCognitiveSpeechServicesMessageBuilder)
        ensures
            builder@ == (MessageBuilderView {
                request_id: Some(request_id@),
                path: Some(path@),
                content_type: None,
                stream_id: None,
                body: None,
            }),
    {
        AzureCognitiveSpeechServicesMessageBuilder::new(path, request_id)
    }

    /// A fresh request id: a random UUID without separators.
    pub fn gen_request_id() -> (id: String)
        ensures
            spec_is_random_uuid(id@),
    {
        random_uuid_simple()
    }

    pub fn path(&self) -> (path: &str)
        ensures
            path@ == self@.path,
    {
        self.path.as_str()
    }

    pub fn request_id(&self) -> (request_id: &str)
        ensures
            request_id@ == self@.request_id,
    {
        self.request_id.as_str()
    }

    pub fn content_type(&self) -> (content_type: Option<&String>)
        ensures
            match content_type {
                Some(value) => self@.content_type == Some(value@),
                None => self@.content_type is None,
            },
    {
        self.content_type.as_ref()
    }

    pub fn stream_id(&self) -> (stream_id: Option<&String>)
        ensures
            match stream_id {
                Some(value) => self@.stream_id == Some(value@),
                None => self@.stream_id is None,
            },
    {
        self.stream_id.as_ref()
    }

    pub fn body(&self) -> (body: &AzureCognitiveSpeechServicesMessageBody)
        ensures
            body@ == self@.body,
    {
        &self.body
    }

    pub fn into_body(self) -> (body: AzureCognitiveSpeechServicesMessageBody)
        ensures
            body@ == self@.body,
    {
        self.body
    }

    /// The text frame of the message.
    pub fn serialize_text(self) -> (frame: String)
        requires
            self@.body is Text,
        ensures
            frame@ == spec_text_frame(self@),
    {
        let (headers, body) = self.serialize_inner();
        let mut frame = headers;
        frame.append("\r\n\r\n");
        match body {
            AzureCognitiveSpeechServicesMessageBody::Text(text) => {
                frame.append(text.as_str());
            },
            AzureCognitiveSpeechServicesMessageBody::Binary(_) => {},
        }
        frame
    }

    /// The binary frame of the message.
    pub fn serialize_binary(self) -> (frame: Vec<u8>)
        requires
            self@.body is Binary,
        ensures
            frame@ == spec_binary_frame(self@),
    {
        let (headers, body) = self.serialize_inner();
        let header_bytes = headers.as_str().as_bytes();
        let length: usize = header_bytes.len();
        let mut frame: Vec<u8> = Vec::new();
        frame.push(((length % 65536) / 256) as u8);
        frame.push((length % 256) as u8);
        frame.extend_from_slice(header_bytes);
        match body {
            AzureCognitiveSpeechServicesMessageBody::Binary(bytes) => {
                frame.extend_from_slice(bytes.as_slice());
            },
            AzureCognitiveSpeechServicesMessageBody::Text(_) => {},
        }
        frame
    }

    /// The header section of the message, and its body.
    pub fn serialize_inner(self) -> (parts: (String, AzureCognitiveSpeechServicesMessageBody))
        ensures
            parts.0@ == spec_header_section(self@),
            parts.1@ == self@.body,
    {
        let mut headers = String::from_str("X-RequestId");
        headers.append(": ");
        headers.append(self.request_id.as_str());
        match &self.content_type {
            Some(content_type) => {
                headers.append("\r\n");
                headers.append("Content-Type");
                headers.append(": ");
                headers.append(content_type.as_str());
            },
            None => {},
        }
        match &self.stream_id {
            Some(stream_id) => {
                headers.append("\r\n");
                headers.append("X-StreamId");
                headers.append(": ");
                headers.append(stream_id.as_str());
            },
            None => {},
        }
        headers.append("\r\n");
        headers.append("Path");
        headers.append(": ");
        headers.append(self.path.as_str());
        (headers, self.body)
    }

    /// The frame to send: a binary frame for a binary body, a text frame for a text body.
    pub fn into_websocket_message(self) -> (frame: WebsocketFrame)
        ensures
            frame@ == spec_frame(self@),
    {
        let binary = match &self.body {
            AzureCognitiveSpeechServicesMessageBody::Binary(_) => true,
            AzureCognitiveSpeechServicesMessageBody::Text(_) => false,
        };
        if binary {
            WebsocketFrame::Binary(self.serialize_binary())
        } else {
            WebsocketFrame::Text(self.serialize_text())
        }
    }

    /// The body read as JSON.
    pub fn into_json_abstract(self) -> (parsed: Result<
        simd_json::OwnedValue,
        AzureCognitiveSpeechServicesMessageError,
    >)
        ensures
            match self@.body {
                MessageBodyView::Binary(_) => parsed matches Err(e) && e@
                    == MessageErrorView::ParseBinary,
                MessageBodyView::Text(text) => match crate::json::json_parse(text) {
                    Ok(value) => parsed == Ok::<
                        simd_json::OwnedValue,
                        AzureCognitiveSpeechServicesMessageError,
                    >(value),
                    Err(error) => parsed matches Err(e) && e@ == MessageErrorView::ParseJson(error),
                },
            },
    {
        match self.body {
            AzureCognitiveSpeechServicesMessageBody::Binary(_) => Err(
                AzureCognitiveSpeechServicesMessageError::ParseBinary,
            ),
            AzureCognitiveSpeechServicesMessageBody::Text(text) => match crate::json::parse(text) {
                Ok(value) => Ok(value),
                Err(error) => Err(AzureCognitiveSpeechServicesMessageError::ParseJson(error)),
            },
        }
    }
}

/// Whether a CRLF stands at position `i`.
pub open spec fn spec_crlf_at(s: Seq<char>, i: int) -> bool {
    0 <= i && i + 1 < s.len() && s[i] == '\r' && s[i + 1] == '\n'
}

/// Whether `end` is where the first line of `s` ends: at the first CRLF, or at the end of `s`
/// where it holds none.
pub open spec fn spec_is_line_end(s: Seq<char>, end: int) -> bool {
    &&& 0 <= end <= s.len()
    &&& forall|i: int| 0 <= i < end ==> !spec_crlf_at(s, i)
    &&& end == s.len() || spec_crlf_at(s, end)
}

/// Where the first line of `s` ends.
pub open spec fn spec_line_end(s: Seq<char>) -> int {
    choose|end: int| spec_is_line_end(s, end)
}

/// Whether `at` is the position of the first colon of `line`, or its length where it holds none.
pub open spec fn spec_is_colon(line: Seq<char>, at: int) -> bool {
    &&& 0 <= at <= line.len()
    &&& forall|i: int| 0 <= i < at ==> line[i] != ':'
    &&& at == line.len() || line[at] == ':'
}

/// The position of the first colon of `line`, or its length where it holds none.
pub open spec fn spec_colon(line: Seq<char>) -> int {
    choose|at: int| spec_is_colon(line, at)
}

/// Whether the empty line that ends a header section stands at position `i`.
pub open spec fn spec_separator_at(s: Seq<char>, i: int) -> bool {
    spec_crlf_at(s, i) && spec_crlf_at(s, i + 2)
}

/// Whether `at` is the position of the first empty line of `s`, or its length where it holds
/// none.
pub open spec fn spec_is_separator(s: Seq<char>, at: int) -> bool {
    &&& 0 <= at <= s.len()
    &&& forall|i: int| 0 <= i < at ==> !spec_separator_at(s, i)
    &&& at == s.len() || spec_separator_at(s, at)
}

/// The position of the first empty line of `s`, or its length where it holds none.
pub open spec fn spec_separator(s: Seq<char>) -> int {
    choose|at: int| spec_is_separator(s, at)
}

/// There is one place where the first line ends.
pub proof fn lemma_line_end_unique(s: Seq<char>, end: int)
    requires
        spec_is_line_end(s, end),
    ensures
        spec_line_end(s) == end,
{
    let other = spec_line_end(s);
    assert(spec_is_line_end(s, other));
    if other < end {
        assert(!spec_crlf_at(s, other));
    }
    if end < other {
        assert(!spec_crlf_at(s, end));
    }
}

/// There is one first colon.
pub proof fn lemma_colon_unique(line: Seq<char>, at: int)
    requires
        spec_is_colon(line, at),
    ensures
        spec_colon(line) == at,
{
    let other = spec_colon(line);
    assert(spec_is_colon(line, other));
    if other < at {
        assert(line[other] != ':');
    }
    if at < other {
        assert(line[at] != ':');
    }
}

/// There is one first empty line.
pub proof fn lemma_separator_unique(s: Seq<char>, at: int)
    requires
        spec_is_separator(s, at),
    ensures
        spec_separator(s) == at,
{
    let other = spec_separator(s);
    assert(spec_is_separator(s, other));
    if other < at {
        assert(!spec_separator_at(s, other));
    }
    if at < other {
        assert(!spec_separator_at(s, at));
    }
}

/// The four headers that a message can carry, as read so far.
pub struct HeaderFieldsView {
    pub path: Option<Seq<char>>,
    pub request_id: Option<Seq<char>>,
    pub content_type: Option<Seq<char>>,
    pub stream_id: Option<Seq<char>>,
}

/// No header read yet.
pub open spec fn spec_no_fields() -> HeaderFieldsView {
    HeaderFieldsView { path: None, request_id: None, content_type: None, stream_id: None }
}

/// The fields after a header `name` with `value` was read: a known header replaces what was
/// read for it before, an unknown one is passed over.
pub open spec fn spec_set_field(
    fields: HeaderFieldsView,
    name: Seq<char>,
    value: Seq<char>,
) -> HeaderFieldsView {
    if name == "path"@ {
        HeaderFieldsView { path: Some(value), ..fields }
    } else if name == "x-requestid"@ {
        HeaderFieldsView { request_id: Some(value), ..fields }
    } else if name == "content-type"@ {
        HeaderFieldsView { content_type: Some(value), ..fields }
    } else if name == "x-streamid"@ {
        HeaderFieldsView { stream_id: Some(value), ..fields }
    } else {
        fields
    }
}

/// The fields after one line was read. A blank line changes nothing; a line without a colon is
/// an error; otherwise the name stands before the first colon and the value after it, both
/// trimmed and in lower case.
pub open spec fn spec_absorb_line(line: Seq<char>, fields: HeaderFieldsView) -> Result<
    HeaderFieldsView,
    MessageErrorView,
> {
    if spec_is_blank(line) {
        Ok(fields)
    } else {
        let colon = spec_colon(line);
        if colon >= line.len() {
            Err(MessageErrorView::BadHeader(line))
        } else {
            Ok(
                spec_set_field(
                    fields,
                    spec_lowercase(spec_trim(line.take(colon))),
                    spec_lowercase(spec_trim(line.skip(colon + 1))),
                ),
            )
        }
    }
}

/// The fields after all lines of `s` were read in order, or the error of the first line that
/// has one. Lines are set apart by CRLF.
pub open spec fn spec_parse_lines(s: Seq<char>, fields: HeaderFieldsView) -> Result<
    HeaderFieldsView,
    MessageErrorView,
>
    decreases s.len(),
{
    let end = spec_line_end(s);
    match spec_absorb_line(s.take(end), fields) {
        Err(error) => Err(error),
        Ok(next) => if 0 <= end && end + 2 <= s.len() {
            spec_parse_lines(s.skip(end + 2), next)
        } else {
            Ok(next)
        },
    }
}

/// The builder that a header section gives, without a body yet. The path and the request id
/// are mandatory and are asked for in this order.
pub open spec fn spec_parse_headers(s: Seq<char>) -> Result<MessageBuilderView, MessageErrorView> {
    match spec_parse_lines(s, spec_no_fields()) {
        Err(error) => Err(error),
        Ok(fields) => if fields.path is None {
            Err(MessageErrorView::MissingHeader("Path"@))
        } else if fields.request_id is None {
            Err(MessageErrorView::MissingHeader("X-RequestId"@))
        } else {
            Ok(
                MessageBuilderView {
                    request_id: fields.request_id,
                    path: fields.path,
                    content_type: fields.content_type,
                    stream_id: fields.stream_id,
                    body: None,
                },
            )
        },
    }
}

/// The message after the headers were read and the body was added.
pub open spec fn spec_with_body(
    headers: Result<MessageBuilderView, MessageErrorView>,
    body: MessageBodyView,
) -> Result<MessageView, MessageErrorView> {
    match headers {
        Err(error) => Err(error),
        Ok(builder) => spec_build(MessageBuilderView { body: Some(body), ..builder }),
    }
}

/// The message that a text frame holds: the header section ends at the first empty line, and
/// the body is what follows it.
pub open spec fn spec_parse_text(s: Seq<char>) -> Result<MessageView, MessageErrorView> {
    let at = spec_separator(s);
    if 0 <= at && at + 4 <= s.len() {
        spec_with_body(spec_parse_headers(s.take(at)), MessageBodyView::Text(s.skip(at + 4)))
    } else {
        Err(MessageErrorView::MalformedHeaderSection)
    }
}

/// The length that a binary frame announces for its header section.
pub open spec fn spec_announced_length(bytes: Seq<u8>) -> int
    recommends
        bytes.len() >= 2,
{
    bytes[0] as int * 256 + bytes[1] as int
}

/// The message that a binary frame holds. A frame shorter than its length prefix, or than the
/// header section that the prefix announces, is malformed.
pub open spec fn spec_parse_binary(bytes: Seq<u8>) -> Result<MessageView, MessageErrorView> {
    if bytes.len() < 2 || bytes.len() < 2 + spec_announced_length(bytes) {
        Err(MessageErrorView::MalformedHeaderSection)
    } else {
        let length = spec_announced_length(bytes);
        let header = bytes.subrange(2, 2 + length);
        if !valid_utf8(header) {
            Err(MessageErrorView::HeaderUtf8(utf8_error(header)))
        } else {
            spec_with_body(
                spec_parse_headers(decode_utf8(header)),
                MessageBodyView::Binary(bytes.skip(2 + length)),
            )
        }
    }
}

struct HeaderFields {
    path: Option<String>,
    request_id: Option<String>,
    content_type: Option<String>,
    stream_id: Option<String>,
}

impl View for HeaderFields {
    type V = HeaderFieldsView;

    closed spec fn view(&self) -> HeaderFieldsView {
        HeaderFieldsView {
            path: spec_text_of(self.path),
            request_id: spec_text_of(self.request_id),
            content_type: spec_text_of(self.content_type),
            stream_id: spec_text_of(self.stream_id),
        }
    }
}

fn find_line_end(chars: &Vec<char>, from: usize, to: usize) -> (end: usize)
    requires
        from <= to <= chars.len(),
    ensures
        from <= end <= to,
        spec_is_line_end(chars@.subrange(from as int, to as int), end - from),
{
    let ghost s = chars@.subrange(from as int, to as int);
    let mut i: usize = from;
    while i < to
        invariant
            from <= i <= to <= chars.len(),
            s == chars@.subrange(from as int, to as int),
            forall|k: int| 0 <= k < i - from ==> !spec_crlf_at(s, k),
        decreases to - i,
    {
        if to - i >= 2 && chars[i] == '\r' && chars[i + 1] == '\n' {
            return i;
        }
        i += 1;
    }
    to
}

fn find_colon(chars: &Vec<char>, from: usize, to: usize) -> (at: usize)
    requires
        from <= to <= chars.len(),
    ensures
        from <= at <= to,
        spec_is_colon(chars@.subrange(from as int, to as int), at - from),
{
    let ghost s = chars@.subrange(from as int, to as int);
    let mut i: usize = from;
    while i < to
        invariant
            from <= i <= to <= chars.len(),
            s == chars@.subrange(from as int, to as int),
            forall|k: int| 0 <= k < i - from ==> s[k] != ':',
        decreases to - i,
    {
        if chars[i] == ':' {
            return i;
        }
        i += 1;
    }
    to
}

fn find_separator(chars: &Vec<char>) -> (at: usize)
    ensures
        at <= chars.len(),
        spec_is_separator(chars@, at as int),
{
    let mut i: usize = 0;
    while i < chars.len()
        invariant
            i <= chars.len(),
            forall|k: int| 0 <= k < i ==> !spec_separator_at(chars@, k),
        decreases chars.len() - i,
    {
        if chars.len() - i >= 4 && chars[i] == '\r' && chars[i + 1] == '\n' && chars[i + 2] == '\r'
            && chars[i + 3] == '\n' {
            return i;
        }
        i += 1;
    }
    chars.len()
}

fn set_field(fields: HeaderFields, name: String, value: String) -> (next: HeaderFields)
    ensures
        next@ == spec_set_field(fields@, name@, value@),
{
    let mut next = fields;
    if name == String::from_str("path") {
        next.path = Some(value);
    } else if name == String::from_str("x-requestid") {
        next.request_id = Some(value);
    } else if name == String::from_str("content-type") {
        next.content_type = Some(value);
    } else if name == String::from_str("x-streamid") {
        next.stream_id = Some(value);
    }
    next
}

fn absorb_line(chars: &Vec<char>, from: usize, to: usize, fields: HeaderFields) -> (next: Result<
    HeaderFields,
    AzureCognitiveSpeechServicesMessageError,
>)
    requires
        from <= to <= chars.len(),
    ensures
        match next {
            Ok(f) => spec_absorb_line(chars@.subrange(from as int, to as int), fields@) == Ok::<
                HeaderFieldsView,
                MessageErrorView,
            >(f@),
            Err(e) => spec_absorb_line(chars@.subrange(from as int, to as int), fields@) == Err::<
                HeaderFieldsView,
                MessageErrorView,
            >(e@),
        },
{
    let ghost line = chars@.subrange(from as int, to as int);
    if is_blank(chars, from, to) {
        return Ok(fields);
    }
    let colon = find_colon(chars, from, to);
    proof {
        lemma_colon_unique(line, colon - from);
    }
    if colon >= to {
        return Err(AzureCognitiveSpeechServicesMessageError::BadHeader(string_of(chars, from, to)));
    }
    let name_bounds = trim_bounds(chars, from, colon);
    let value_bounds = trim_bounds(chars, colon + 1, to);
    proof {
        assert(line.take(colon - from) =~= chars@.subrange(from as int, colon as int));
        assert(line.skip(colon - from + 1) =~= chars@.subrange(colon + 1, to as int));
    }
    let name = to_lowercase(string_of(chars, name_bounds.0, name_bounds.1).as_str());
    let value = to_lowercase(string_of(chars, value_bounds.0, value_bounds.1).as_str());
    Ok(set_field(fields, name, value))
}

fn parse_header_chars(chars: &Vec<char>, from: usize, to: usize) -> (parsed: Result<
    AzureCognitiveSpeechServicesMessageBuilder,
    AzureCognitiveSpeechServicesMessageError,
>)
    requires
        from <= to <= chars.len(),
    ensures
        match parsed {
            Ok(b) => spec_parse_headers(chars@.subrange(from as int, to as int)) == Ok::<
                MessageBuilderView,
                MessageErrorView,
            >(b@),
            Err(e) => spec_parse_headers(chars@.subrange(from as int, to as int)) == Err::<
                MessageBuilderView,
                MessageErrorView,
            >(e@),
        },
{
    let ghost section = chars@.subrange(from as int, to as int);
    let mut fields = HeaderFields { path: None, request_id: None, content_type: None, stream_id: None };
    let mut start: usize = from;
    let mut done = false;
    while !done
        invariant
            from <= start <= to <= chars.len(),
            section == chars@.subrange(from as int, to as int),
            !done ==> spec_parse_lines(section, spec_no_fields()) == spec_parse_lines(
                chars@.subrange(start as int, to as int),
                fields@,
            ),
            done ==> spec_parse_lines(section, spec_no_fields()) == Ok::<
                HeaderFieldsView,
                MessageErrorView,
            >(fields@),
        decreases to - start + (if done { 0int } else { 1int }),
    {
        let ghost rest = chars@.subrange(start as int, to as int);
        let end = find_line_end(chars, start, to);
        proof {
            lemma_line_end_unique(rest, end - start);
            assert(rest.take(end - start) =~= chars@.subrange(start as int, end as int));
        }
        match absorb_line(chars, start, end, fields) {
            Err(error) => {
                return Err(error);
            },
            Ok(next) => {
                fields = next;
            },
        }
        if to - end >= 2 {
            proof {
                assert(rest.skip(end - start + 2) =~= chars@.subrange(end + 2, to as int));
            }
            start = end + 2;
        } else {
            done = true;
        }
    }
    let path = match fields.path {
        Some(path) => path,
        None => {
            return Err(AzureCognitiveSpeechServicesMessageError::MissingHeader("Path"));
        },
    };
    let request_id = match fields.request_id {
        Some(request_id) => request_id,
        None => {
            return Err(AzureCognitiveSpeechServicesMessageError::MissingHeader("X-RequestId"));
        },
    };
    let mut builder = AzureCognitiveSpeechServicesMessageBuilder::new(
        path.as_str(),
        request_id.as_str(),
    );
    match fields.content_type {
        Some(content_type) => {
            builder = builder.with_content_type(content_type.as_str());
        },
        None => {},
    }
    match fields.stream_id {
        Some(stream_id) => {
            builder = builder.with_stream_id(stream_id.as_str());
        },
        None => {},
    }
    Ok(builder)
}

/// Reads a header section into a builder that lacks only the body.
pub fn parse_headers(headers: &str) -> (parsed: Result<
    AzureCognitiveSpeechServicesMessageBuilder,
    AzureCognitiveSpeechServicesMessageError,
>)
    ensures
        match parsed {
            Ok(b) => spec_parse_headers(headers@) == Ok::<MessageBuilderView, MessageErrorView>(b@),
            Err(e) => spec_parse_headers(headers@) == Err::<MessageBuilderView, MessageErrorView>(
                e@,
            ),
        },
{
    let chars = chars_of(headers);
    proof {
        assert(chars@.subrange(0, chars@.len() as int) =~= chars@);
    }
    parse_header_chars(&chars, 0, chars.len())
}

impl AzureCognitiveSpeechServicesMessage {
    /// Reads a text frame.
    pub fn from_str(s: &str) -> (parsed: Result<
        AzureCognitiveSpeechServicesMessage,
        AzureCognitiveSpeechServicesMessageError,
    >)
        ensures
            spec_outcome(parsed) == spec_parse_text(s@),
    {
        let chars = chars_of(s);
        let at = find_separator(&chars);
        proof {
            lemma_separator_unique(chars@, at as int);
        }
        if chars.len() - at < 4 {
            return Err(AzureCognitiveSpeechServicesMessageError::MalformedHeaderSection);
        }
        match parse_header_chars(&chars, 0, at) {
            Err(error) => Err(error),
            Ok(builder) => {
                let body = string_of(&chars, at + 4, chars.len());
                builder.with_body(AzureCognitiveSpeechServicesMessageBody::Text(body)).build()
            },
        }
    }

    /// Reads a binary frame.
    pub fn try_from(value: Vec<u8>) -> (parsed: Result<
        AzureCognitiveSpeechServicesMessage,
        AzureCognitiveSpeechServicesMessageError,
    >)
        ensures
            spec_outcome(parsed) == spec_parse_binary(value@),
    {
        let bytes = value.as_slice();
        if bytes.len() < 2 {
            return Err(AzureCognitiveSpeechServicesMessageError::MalformedHeaderSection);
        }
        let length: usize = (bytes[0] as usize) * 256 + (bytes[1] as usize);
        if bytes.len() - 2 < length {
            return Err(AzureCognitiveSpeechServicesMessageError::MalformedHeaderSection);
        }
        let header = match str_from_utf8(slice_subrange(bytes, 2, 2 + length)) {
            Ok(header) => header,
            Err(error) => {
                return Err(AzureCognitiveSpeechServicesMessageError::HeaderUtf8(error));
            },
        };
        match parse_headers(header) {
            Err(error) => Err(error),
            Ok(builder) => {
                let body = slice_to_vec(slice_subrange(bytes, 2 + length, bytes.len()));
                builder.with_body(AzureCognitiveSpeechServicesMessageBody::Binary(body)).build()
            },
        }
    }
}

} // verus!
