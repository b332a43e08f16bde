//! Reading a frame gives back the message that was written into it.
//!
//! Header values are trimmed and put in lower case when a frame is read, and lines end at CRLF.
//! So the statement is about messages whose header values are already in that form.

use vstd::prelude::*;
use vstd::utf8::{encode_utf8, encode_utf8_decode_utf8, encode_utf8_valid_utf8, is_ascii_chars};
use crate::message::{
    lemma_colon_unique, lemma_line_end_unique, lemma_separator_unique, spec_absorb_line,
    spec_binary_frame, spec_crlf_at, spec_header_line, spec_header_section, spec_is_colon,
    spec_is_line_end, spec_is_request_id, spec_is_separator, spec_no_fields, spec_parse_binary,
    MessageBodyView,
    spec_parse_headers, spec_parse_lines, spec_parse_text, spec_separator, spec_separator_at,
    spec_set_field, spec_text_frame, HeaderFieldsView, MessageBuilderView,
    MessageErrorView, MessageView,
};
use crate::event::UtteranceEventView;
use crate::synthesiser::stream::{
    spec_finish, spec_step, DecoderView, InboundFrameView, StepView,
};
use crate::synthesiser::{
    spec_speech_config, spec_ssml, spec_synthesis_context, UtteranceConfig,
};
use crate::text::{
    spec_ascii_lowercase, spec_is_blank, spec_is_whitespace, spec_lowercase, spec_trim,
    spec_trim_end, spec_trim_start,
};

verus! {

/// Whether a header value comes back from a frame as it went in: without whitespace at its
/// ends, equal to its lower-case form, and without a CRLF.
pub open spec fn spec_is_canonical_value(value: Seq<char>) -> bool {
    &&& spec_trim(value) == value
    &&& spec_lowercase(value) == value
    &&& forall|i: int| !spec_crlf_at(value, i)
}

/// Whether all header values of a message are canonical.
pub open spec fn spec_is_canonical(message: MessageView) -> bool {
    &&& spec_is_canonical_value(message.request_id)
    &&& spec_is_canonical_value(message.path)
    &&& message.content_type matches Some(value) ==> spec_is_canonical_value(value)
    &&& message.stream_id matches Some(value) ==> spec_is_canonical_value(value)
}

/// Whether a header name can be written and read back as the lower-case name `lower`.
pub open spec fn spec_is_header_name(name: Seq<char>, lower: Seq<char>) -> bool {
    &&& name.len() > 0
    &&& is_ascii_chars(name)
    &&& forall|i: int| 0 <= i < name.len() ==> 'A' <= #[trigger] name[i] <= 'z' || name[i] == '-'
    &&& spec_ascii_lowercase(name) == lower
}

/// A line that holds no CRLF and neither starts nor ends with a carriage return.
pub open spec fn spec_is_plain_line(line: Seq<char>) -> bool {
    &&& line.len() > 0
    &&& line[0] != '\r'
    &&& line.last() != '\r'
    &&& forall|i: int| !spec_crlf_at(line, i)
}

/// A run of lines in which no line is empty: after each CRLF comes a character that is no
/// carriage return, and the run neither starts nor ends with one.
pub open spec fn spec_is_plain_section(section: Seq<char>) -> bool {
    &&& section.len() > 0
    &&& section[0] != '\r'
    &&& section.last() != '\r'
    &&& forall|i: int| #[trigger]
        spec_crlf_at(section, i) ==> i + 2 < section.len() && section[i + 2] != '\r'
}

proof fn lemma_trim_start_shorter(s: Seq<char>)
    ensures
        spec_trim_start(s).len() <= s.len(),
    decreases s.len(),
{
    if s.len() > 0 && spec_is_whitespace(s[0]) {
        lemma_trim_start_shorter(s.drop_first());
    }
}

proof fn lemma_trim_end_shorter(s: Seq<char>)
    ensures
        spec_trim_end(s).len() <= s.len(),
    decreases s.len(),
{
    if s.len() > 0 && spec_is_whitespace(s.last()) {
        lemma_trim_end_shorter(s.drop_last());
    }
}

/// A string that trimming leaves alone has no whitespace at its ends.
pub proof fn lemma_trimmed_ends(s: Seq<char>)
    requires
        spec_trim(s) == s,
        s.len() > 0,
    ensures
        !spec_is_whitespace(s[0]),
        !spec_is_whitespace(s.last()),
{
    lemma_trim_start_shorter(s);
    lemma_trim_start_shorter(s.drop_first());
    lemma_trim_end_shorter(spec_trim_start(s));
    if spec_is_whitespace(s[0]) {
        assert(false);
    }
    assert(spec_trim_start(s) == s);
    lemma_trim_end_shorter(s.drop_last());
}

/// Trimming leaves a string alone that has no whitespace at its ends.
pub proof fn lemma_trim_keeps(s: Seq<char>)
    requires
        s.len() > 0 ==> !spec_is_whitespace(s[0]) && !spec_is_whitespace(s.last()),
    ensures
        spec_trim(s) == s,
{
}

/// A header line is read back as its name in lower case and its value.
pub proof fn lemma_absorb_header_line(
    name: Seq<char>,
    lower: Seq<char>,
    value: Seq<char>,
    fields: HeaderFieldsView,
)
    requires
        spec_is_header_name(name, lower),
        spec_is_canonical_value(value),
    ensures
        spec_absorb_line(spec_header_line(name, value), fields) == Ok::<
            HeaderFieldsView,
            MessageErrorView,
        >(spec_set_field(fields, lower, value)),
        spec_is_plain_line(spec_header_line(name, value)),
{
    reveal_strlit(": ");
    let line = spec_header_line(name, value);
    let n = name.len() as int;
    assert(line.len() == n + 2 + value.len());
    assert(forall|i: int| 0 <= i < n ==> line[i] == name[i]);
    assert(line[n] == ':');
    assert(line[n + 1] == ' ');
    assert(forall|i: int| 0 <= i < value.len() ==> line[n + 2 + i] == value[i]);
    assert(!spec_is_whitespace(name[0]));
    assert(!spec_is_whitespace(name.last()));
    assert(line[0] == name[0]);
    assert(!spec_is_blank(line));
    assert(spec_is_colon(line, n)) by {
        assert forall|i: int| 0 <= i < n implies line[i] != ':' by {
            assert(line[i] == name[i]);
        }
    }
    lemma_colon_unique(line, n);
    assert(line.take(n) =~= name);
    lemma_trim_keeps(name);
    let after = line.skip(n + 1);
    assert(after[0] == ' ');
    assert(after.drop_first() =~= value);
    if value.len() > 0 {
        lemma_trimmed_ends(value);
    }
    lemma_trim_keeps(value);
    assert(spec_trim_start(after) == spec_trim_start(value));
    assert(spec_trim(after) == value);
    if value.len() > 0 {
        assert(value.last() != '\r');
        assert(line.last() == value.last());
    } else {
        assert(line.last() == ' ');
    }
    assert forall|i: int| !spec_crlf_at(line, i) by {
        if spec_crlf_at(line, i) {
            if i < n {
                assert(line[i] == name[i]);
            } else if i < n + 2 {
            } else {
                assert(line[i] == value[i - n - 2]);
                assert(line[i + 1] == value[i + 1 - n - 2]);
                assert(spec_crlf_at(value, i - n - 2));
            }
        }
    }
}

/// The first line of a section ends where its first CRLF stands.
pub proof fn lemma_parse_first_line(line: Seq<char>, rest: Seq<char>, fields: HeaderFieldsView)
    requires
        spec_is_plain_line(line),
    ensures
        spec_parse_lines(line + "\r\n"@ + rest, fields) == match spec_absorb_line(line, fields) {
            Err(error) => Err(error),
            Ok(next) => spec_parse_lines(rest, next),
        },
{
    reveal_strlit("\r\n");
    let s = line + "\r\n"@ + rest;
    let n = line.len() as int;
    assert(s[n] == '\r');
    assert(s[n + 1] == '\n');
    assert(spec_is_line_end(s, n)) by {
        assert forall|i: int| 0 <= i < n implies !spec_crlf_at(s, i) by {
            if spec_crlf_at(s, i) {
                assert(s[i] == line[i]);
                if i + 1 < n {
                    assert(s[i + 1] == line[i + 1]);
                    assert(spec_crlf_at(line, i));
                }
            }
        }
    }
    lemma_line_end_unique(s, n);
    assert(s.take(n) =~= line);
    assert(s.skip(n + 2) =~= rest);
}

/// A section of one line is read as that line.
pub proof fn lemma_parse_last_line(line: Seq<char>, fields: HeaderFieldsView)
    requires
        spec_is_plain_line(line),
    ensures
        spec_parse_lines(line, fields) == spec_absorb_line(line, fields),
        spec_is_plain_section(line),
{
    assert(spec_is_line_end(line, line.len() as int));
    lemma_line_end_unique(line, line.len() as int);
    assert(line.take(line.len() as int) =~= line);
}

/// A plain line before a plain section makes a plain section.
pub proof fn lemma_join_plain(line: Seq<char>, rest: Seq<char>)
    requires
        spec_is_plain_line(line),
        spec_is_plain_section(rest),
    ensures
        spec_is_plain_section(line + "\r\n"@ + rest),
{
    reveal_strlit("\r\n");
    let s = line + "\r\n"@ + rest;
    let n = line.len() as int;
    assert(s[0] == line[0]);
    assert(s.last() == rest.last());
    assert(s[n] == '\r');
    assert(s[n + 1] == '\n');
    assert forall|i: int| #[trigger] spec_crlf_at(s, i) implies i + 2 < s.len() && s[i + 2]
        != '\r' by {
        if i + 1 < n {
            assert(s[i] == line[i]);
            assert(s[i + 1] == line[i + 1]);
            assert(spec_crlf_at(line, i));
        } else if i + 1 == n {
            assert(s[i] == line.last());
        } else if i == n {
            assert(s[n + 2] == rest[0]);
        } else if i == n + 1 {
        } else {
            assert(s[i] == rest[i - n - 2]);
            assert(s[i + 1] == rest[i + 1 - n - 2]);
            assert(spec_crlf_at(rest, i - n - 2));
            assert(s[i + 2] == rest[i - n]);
        }
    }
}

/// The empty line after a plain section is the first one of the frame.
pub proof fn lemma_separator_after_section(section: Seq<char>, body: Seq<char>)
    requires
        spec_is_plain_section(section),
    ensures
        spec_separator(section + "\r\n\r\n"@ + body) == section.len(),
{
    reveal_strlit("\r\n\r\n");
    let s = section + "\r\n\r\n"@ + body;
    let n = section.len() as int;
    assert(s[n] == '\r' && s[n + 1] == '\n' && s[n + 2] == '\r' && s[n + 3] == '\n');
    assert(spec_is_separator(s, n)) by {
        assert forall|i: int| 0 <= i < n implies !spec_separator_at(s, i) by {
            if spec_separator_at(s, i) {
                assert(s[i] == section[i]);
                if i + 1 < n {
                    assert(s[i + 1] == section[i + 1]);
                    assert(spec_crlf_at(section, i));
                    assert(s[i + 2] == section[i + 2]);
                }
            }
        }
    }
    lemma_separator_unique(s, n);
}

/// The four header names are read back as their lower-case forms, which differ from each other.
pub proof fn lemma_header_names()
    ensures
        spec_is_header_name("X-RequestId"@, "x-requestid"@),
        spec_is_header_name("Content-Type"@, "content-type"@),
        spec_is_header_name("X-StreamId"@, "x-streamid"@),
        spec_is_header_name("Path"@, "path"@),
        "path"@.len() == 4,
        "x-requestid"@.len() == 11,
        "content-type"@.len() == 12,
        "x-streamid"@.len() == 10,
{
    reveal_strlit("X-RequestId");
    reveal_strlit("x-requestid");
    reveal_strlit("Content-Type");
    reveal_strlit("content-type");
    reveal_strlit("X-StreamId");
    reveal_strlit("x-streamid");
    reveal_strlit("Path");
    reveal_strlit("path");
    assert(spec_ascii_lowercase("X-RequestId"@) =~= "x-requestid"@);
    assert(spec_ascii_lowercase("Content-Type"@) =~= "content-type"@);
    assert(spec_ascii_lowercase("X-StreamId"@) =~= "x-streamid"@);
    assert(spec_ascii_lowercase("Path"@) =~= "path"@);
}

/// The header section of a message with canonical header values is read back as the headers
/// of that message, and none of its lines is empty.
pub proof fn lemma_header_round_trip(message: MessageView)
    requires
        spec_is_canonical(message),
    ensures
        spec_parse_headers(spec_header_section(message)) == Ok::<
            MessageBuilderView,
            MessageErrorView,
        >(
            MessageBuilderView {
                request_id: Some(message.request_id),
                path: Some(message.path),
                content_type: message.content_type,
                stream_id: message.stream_id,
                body: None,
            },
        ),
        spec_is_plain_section(spec_header_section(message)),
{
    lemma_header_names();
    let crlf = "\r\n"@;
    let first = spec_header_line("X-RequestId"@, message.request_id);
    let last = spec_header_line("Path"@, message.path);
    let f0 = spec_no_fields();
    let f1 = spec_set_field(f0, "x-requestid"@, message.request_id);
    lemma_absorb_header_line("X-RequestId"@, "x-requestid"@, message.request_id, f0);
    // What follows the stream id, and what the fields are before it.
    let f2 = match message.content_type {
        Some(value) => spec_set_field(f1, "content-type"@, value),
        None => f1,
    };
    let f3 = match message.stream_id {
        Some(value) => spec_set_field(f2, "x-streamid"@, value),
        None => f2,
    };
    let f4 = spec_set_field(f3, "path"@, message.path);
    lemma_absorb_header_line("Path"@, "path"@, message.path, f3);
    lemma_parse_last_line(last, f3);
    let tail3 = match message.stream_id {
        Some(value) => spec_header_line("X-StreamId"@, value) + crlf + last,
        None => last,
    };
    assert(spec_parse_lines(tail3, f2) == Ok::<HeaderFieldsView, MessageErrorView>(f4)
        && spec_is_plain_section(tail3)) by {
        match message.stream_id {
            Some(value) => {
                let line = spec_header_line("X-StreamId"@, value);
                lemma_absorb_header_line("X-StreamId"@, "x-streamid"@, value, f2);
                lemma_parse_first_line(line, last, f2);
                lemma_join_plain(line, last);
            },
            None => {},
        }
    }
    let tail2 = match message.content_type {
        Some(value) => spec_header_line("Content-Type"@, value) + crlf + tail3,
        None => tail3,
    };
    assert(spec_parse_lines(tail2, f1) == Ok::<HeaderFieldsView, MessageErrorView>(f4)
        && spec_is_plain_section(tail2)) by {
        match message.content_type {
            Some(value) => {
                let line = spec_header_line("Content-Type"@, value);
                lemma_absorb_header_line("Content-Type"@, "content-type"@, value, f1);
                lemma_parse_first_line(line, tail3, f1);
                lemma_join_plain(line, tail3);
            },
            None => {},
        }
    }
    let section = spec_header_section(message);
    assert(section =~= first + crlf + tail2);
    lemma_parse_first_line(first, tail2, f0);
    lemma_join_plain(first, tail2);
    assert(f4.path == Some(message.path));
    assert(f4.request_id == Some(message.request_id));
    assert(f4.content_type == message.content_type);
    assert(f4.stream_id == message.stream_id);
}

/// Reading the text frame of a message gives the message back, provided its header values are
/// canonical.
pub proof fn lemma_text_round_trip(message: MessageView)
    requires
        message.body is Text,
        spec_is_canonical(message),
    ensures
        spec_parse_text(spec_text_frame(message)) == Ok::<MessageView, MessageErrorView>(message),
{
    reveal_strlit("\r\n\r\n");
    let section = spec_header_section(message);
    let body = message.body->Text_0;
    let frame = spec_text_frame(message);
    lemma_header_round_trip(message);
    lemma_separator_after_section(section, body);
    let at = section.len() as int;
    assert(frame.take(at) =~= section);
    assert(frame.skip(at + 4) =~= body);
}

/// Reading the binary frame of a message gives the message back, provided its header values
/// are canonical and its header section is short enough for the length prefix.
pub proof fn lemma_binary_round_trip(message: MessageView)
    requires
        message.body is Binary,
        spec_is_canonical(message),
        encode_utf8(spec_header_section(message)).len() < 65536,
    ensures
        spec_parse_binary(spec_binary_frame(message)) == Ok::<MessageView, MessageErrorView>(
            message,
        ),
{
    let section = spec_header_section(message);
    let header = encode_utf8(section);
    let body = message.body->Binary_0;
    let frame = spec_binary_frame(message);
    let length = header.len() as int;
    lemma_header_round_trip(message);
    encode_utf8_valid_utf8(section);
    encode_utf8_decode_utf8(section);
    assert(frame[0] == (length / 256) as u8);
    assert(frame[1] == (length % 256) as u8);
    assert(frame.subrange(2, 2 + length) =~= header);
    assert(frame.skip(2 + length) =~= body);
}

/// A text of printable ASCII characters without capitals and without a space at its ends is a
/// canonical header value.
pub proof fn lemma_plain_value_is_canonical(value: Seq<char>)
    requires
        forall|i: int|
            0 <= i < value.len() ==> ' ' <= #[trigger] value[i] <= '~' && !('A' <= value[i] <= 'Z'),
        value.len() > 0 ==> value[0] != ' ' && value.last() != ' ',
    ensures
        spec_is_canonical_value(value),
{
    lemma_trim_keeps(value);
    assert(is_ascii_chars(value));
    assert(spec_ascii_lowercase(value) =~= value);
}

/// A request id is a canonical header value.
pub proof fn lemma_request_id_is_canonical(id: Seq<char>)
    requires
        spec_is_request_id(id),
    ensures
        spec_is_canonical_value(id),
{
    lemma_plain_value_is_canonical(id);
}

/// The three messages that open a request are read back from their frames as they were
/// written, whatever the document and the name of the format.
pub proof fn lemma_opening_round_trip(
    config_id: Seq<char>,
    request_id: Seq<char>,
    document: Seq<char>,
    format_name: Seq<char>,
    config: UtteranceConfig,
)
    requires
        spec_is_request_id(config_id),
        spec_is_request_id(request_id),
    ensures
        spec_parse_text(spec_text_frame(spec_speech_config(config_id))) == Ok::<
            MessageView,
            MessageErrorView,
        >(spec_speech_config(config_id)),
        spec_parse_text(spec_text_frame(spec_synthesis_context(request_id, format_name, config)))
            == Ok::<MessageView, MessageErrorView>(
            spec_synthesis_context(request_id, format_name, config),
        ),
        spec_parse_text(spec_text_frame(spec_ssml(request_id, document))) == Ok::<
            MessageView,
            MessageErrorView,
        >(spec_ssml(request_id, document)),
{
    reveal_strlit("speech.config");
    reveal_strlit("synthesis.context");
    reveal_strlit("ssml");
    reveal_strlit("application/json");
    reveal_strlit("application/ssml+xml");
    lemma_request_id_is_canonical(config_id);
    lemma_request_id_is_canonical(request_id);
    lemma_plain_value_is_canonical("speech.config"@);
    lemma_plain_value_is_canonical("synthesis.context"@);
    lemma_plain_value_is_canonical("ssml"@);
    lemma_plain_value_is_canonical("application/json"@);
    lemma_plain_value_is_canonical("application/ssml+xml"@);
    lemma_text_round_trip(spec_speech_config(config_id));
    lemma_text_round_trip(spec_synthesis_context(request_id, format_name, config));
    lemma_text_round_trip(spec_ssml(request_id, document));
}

/// The message of a turn under the request id of a decoder.
pub open spec fn spec_turn_message(
    state: DecoderView,
    path: Seq<char>,
    body: MessageBodyView,
) -> MessageView {
    MessageView { request_id: state.request_id, path, content_type: None, stream_id: None, body }
}

/// What a decoder makes of the frames of a turn that carry its own request id: the start of
/// the turn brings nothing, audio brings its bytes as one event, and the end of the turn ends
/// the stream.
pub proof fn lemma_turn_frames_decode(state: DecoderView, text: Seq<char>, audio: Seq<u8>)
    requires
        !state.finished,
        spec_is_canonical_value(state.request_id),
        encode_utf8(
            spec_header_section(
                spec_turn_message(state, "audio"@, MessageBodyView::Binary(audio)),
            ),
        ).len() < 65536,
    ensures
        spec_step(
            state,
            InboundFrameView::Text(
                spec_text_frame(spec_turn_message(state, "turn.start"@, MessageBodyView::Text(text))),
            ),
        ) == (state, StepView::Skip),
        spec_step(
            state,
            InboundFrameView::Binary(
                spec_binary_frame(
                    spec_turn_message(state, "audio"@, MessageBodyView::Binary(audio)),
                ),
            ),
        ) == (state, StepView::Event(UtteranceEventView::AudioChunk(audio))),
        spec_step(
            state,
            InboundFrameView::Text(
                spec_text_frame(spec_turn_message(state, "turn.end"@, MessageBodyView::Text(text))),
            ),
        ) == (spec_finish(state), StepView::TurnEnd),
{
    reveal_strlit("turn.start");
    reveal_strlit("turn.end");
    reveal_strlit("audio");
    lemma_plain_value_is_canonical("turn.start"@);
    lemma_plain_value_is_canonical("turn.end"@);
    lemma_plain_value_is_canonical("audio"@);
    lemma_text_round_trip(spec_turn_message(state, "turn.start"@, MessageBodyView::Text(text)));
    lemma_text_round_trip(spec_turn_message(state, "turn.end"@, MessageBodyView::Text(text)));
    lemma_binary_round_trip(spec_turn_message(state, "audio"@, MessageBodyView::Binary(audio)));
    assert("turn.end"@.len() != "turn.start"@.len());
    assert("audio"@.len() != "turn.start"@.len());
    assert("audio"@.len() != "turn.end"@.len());
}

} // verus!
