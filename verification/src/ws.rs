//! The WebSocket side of the protocol: the canonical string of a message, the
//! header object that carries its signature, and the single text frame,
//! `<header length>,<header JSON><payload JSON>`, that goes on the wire.

use crate::auth::{line, push_line};
use crate::clock::Timestamp;
use crate::config::Config;
use crate::crypto::{
    content_md5, content_md5_text, decode_secret_key, secret_key_bytes, sign, signature_text,
    SigningError,
};
use crate::text::{
    all_digits, contains, contains_text, decimal_text, decimal_value, is_digit,
    lemma_decimal_text, lemma_digits_are_ascii, lemma_encode_utf8_concat, push_char,
    push_decimal, utf8_len,
};
use vstd::prelude::*;
use vstd::string::*;
use vstd::utf8::*;

verus! {

#[verifier::external_type_specification]
#[verifier::external_body]
pub struct ExJsonError(serde_json::Error);

/// The JSON string literal for `s`: `s` between double quotes, with the
/// characters that JSON does not take as they are written as escapes.
pub uninterp spec fn json_string_text(s: Seq<char>) -> Seq<char>;

/// Calls `serde_json::to_string` on a string slice. The contract claims that
/// the literal is a function of the text, known as `json_string_text`, and
/// that the call succeeds: serialising fails only where a value's own
/// `Serialize` fails or a map has keys that are no strings, and a string
/// slice is neither.
#[verifier::external_body]
fn json_string(s: &str) -> (r: Result<String, serde_json::Error>)
    ensures
        r is Ok,
        r matches Ok(text) ==> text@ == json_string_text(s@),
{
    serde_json::to_string(s)
}

/// The items of a JSON array of strings: the literals, with a comma between
/// one and the next.
pub open spec fn json_items_text(items: Seq<Seq<char>>) -> Seq<char>
    decreases items.len(),
{
    if items.len() == 0 {
        Seq::empty()
    } else if items.len() == 1 {
        json_string_text(items[0])
    } else {
        json_items_text(items.drop_last()) + seq![','] + json_string_text(items.last())
    }
}

/// A JSON array of strings, without white space.
pub open spec fn json_array_text(items: Seq<Seq<char>>) -> Seq<char> {
    seq!['['] + json_items_text(items) + seq![']']
}

/// The header object of a message as JSON: the key `headers` first, then
/// `extraKeys`, without white space.
pub open spec fn header_json_text(headers: Seq<Seq<char>>, extra_keys: Seq<Seq<char>>) -> Seq<
    char,
> {
    "{\"headers\":"@ + json_array_text(headers) + ",\"extraKeys\":"@ + json_array_text(extra_keys)
        + "}"@
}

/// The frame that goes on the wire: the number of bytes of the header JSON in
/// decimal, a comma, the header JSON, and the payload JSON right behind it.
pub open spec fn wire_frame_text(header_json: Seq<char>, payload_json: Seq<char>) -> Seq<char> {
    decimal_text(utf8_len(header_json)) + seq![','] + header_json + payload_json
}

/// The lines of a list of fields, in order.
pub open spec fn lines(fields: Seq<Seq<char>>) -> Seq<char>
    decreases fields.len(),
{
    if fields.len() == 0 {
        Seq::empty()
    } else {
        lines(fields.drop_last()) + line(fields.last())
    }
}

/// The string that is signed for a WebSocket message: six fields in this
/// order, payload MD5, secret key, timestamp, customer, the payload itself and
/// the destination URL, and then the extra keys in their order, every field
/// on a line of its own.
pub open spec fn ws_canonical_text(
    payload_md5: Seq<char>,
    secret_key: Seq<char>,
    timestamp: Seq<char>,
    customer_id: Seq<char>,
    payload_json: Seq<char>,
    destination_url: Seq<char>,
    extra_keys: Seq<Seq<char>>,
) -> Seq<char> {
    line(payload_md5) + line(secret_key) + line(timestamp) + line(customer_id) + line(
        payload_json,
    ) + line(destination_url) + lines(extra_keys)
}

/// The header object of one WebSocket message. `headers` holds, in this
/// order, timestamp, payload MD5, authorization and customer; `extra_keys`
/// names what the operation is about. The service reads both by position.
#[derive(Clone, Debug)]
pub struct WsHeaderFrame {
    pub headers: Vec<String>,
    pub extra_keys: Vec<String>,
}

impl WsHeaderFrame {
    /// Four headers, and at least one extra key.
    pub open spec fn wf(self) -> bool {
        self.headers@.len() == 4 && self.extra_keys@.len() >= 1
    }

    /// The JSON of this header object.
    pub open spec fn json_text(self) -> Seq<char> {
        header_json_text(self.headers.deep_view(), self.extra_keys.deep_view())
    }
}

fn push_json_array(out: &mut String, items: &Vec<String>)
    ensures
        final(out)@ == old(out)@ + json_array_text(items.deep_view()),
{
    let ghost texts = items.deep_view();
    let ghost head = old(out)@.push('[');
    push_char(out, '[');
    let n: usize = items.len();
    let mut i: usize = 0;
    while i < n
        invariant
            i <= n == items@.len(),
            texts == items.deep_view(),
            out@ == head + json_items_text(texts.take(i as int)),
        decreases n - i,
    {
        assert(texts.take(i + 1).drop_last() =~= texts.take(i as int));
        if i > 0 {
            push_char(out, ',');
        }
        let literal = json_string(items[i].as_str()).unwrap();
        out.append(literal.as_str());
        i += 1;
    }
    push_char(out, ']');
    assert(texts.take(n as int) =~= texts);
}

/// Builds the header object of a message.
pub fn build_header_frame(
    timestamp: &str,
    payload_md5: &str,
    authorization: &str,
    customer_id: &str,
    extra_keys: &Vec<String>,
) -> (r: WsHeaderFrame)
    ensures
        r.headers.deep_view() == seq![timestamp@, payload_md5@, authorization@, customer_id@],
        r.extra_keys.deep_view() == extra_keys.deep_view(),
        r.wf() <==> extra_keys@.len() >= 1,
{
    let mut headers: Vec<String> = Vec::new();
    headers.push(timestamp.to_owned());
    headers.push(payload_md5.to_owned());
    headers.push(authorization.to_owned());
    headers.push(customer_id.to_owned());
    let keys = extra_keys.clone();
    WsHeaderFrame { headers, extra_keys: keys }
}

impl WsHeaderFrame {
    /// Serialises the header object: compact JSON, `headers` before
    /// `extraKeys`.
    pub fn to_json(&self) -> (r: String)
        ensures
            r@ == self.json_text(),
    {
        let mut out = String::new();
        out.append("{\"headers\":");
        push_json_array(&mut out, &self.headers);
        out.append(",\"extraKeys\":");
        push_json_array(&mut out, &self.extra_keys);
        out.append("}");
        assert(out@ =~= self.json_text());
        out
    }
}

/// Puts a header JSON and a payload JSON into one frame. The length that
/// leads the frame is measured on the very bytes that follow the comma.
pub fn frame_message(header_json: &str, payload_json: &str) -> (r: String)
    ensures
        r@ == wire_frame_text(header_json@, payload_json@),
{
    let length: usize = header_json.as_bytes().len();
    let mut out = String::new();
    push_decimal(&mut out, length as u64);
    push_char(&mut out, ',');
    out.append(header_json);
    out.append(payload_json);
    out
}

/// Serialises a header object and frames it with the payload.
pub fn serialize_frame(header: &WsHeaderFrame, payload_json: &str) -> (r: String)
    ensures
        r@ == wire_frame_text(header.json_text(), payload_json@),
{
    let header_json = header.to_json();
    frame_message(header_json.as_str(), payload_json)
}

/// Assembles the string to sign for a WebSocket message.
pub fn ws_canonical_message(
    payload_md5: &str,
    secret_key: &str,
    timestamp: &str,
    customer_id: &str,
    payload_json: &str,
    destination_url: &str,
    extra_keys: &Vec<String>,
) -> (r: String)
    ensures
        r@ == ws_canonical_text(
            payload_md5@,
            secret_key@,
            timestamp@,
            customer_id@,
            payload_json@,
            destination_url@,
            extra_keys.deep_view(),
        ),
{
    let mut out = String::new();
    push_line(&mut out, payload_md5);
    push_line(&mut out, secret_key);
    push_line(&mut out, timestamp);
    push_line(&mut out, customer_id);
    push_line(&mut out, payload_json);
    push_line(&mut out, destination_url);
    let ghost head = out@;
    let ghost keys = extra_keys.deep_view();
    let n: usize = extra_keys.len();
    let mut i: usize = 0;
    while i < n
        invariant
            i <= n == extra_keys@.len(),
            keys == extra_keys.deep_view(),
            out@ == head + lines(keys.take(i as int)),
        decreases n - i,
    {
        assert(keys.take(i + 1).drop_last() =~= keys.take(i as int));
        push_line(&mut out, extra_keys[i].as_str());
        i += 1;
    }
    assert(keys.take(n as int) =~= keys);
    out
}

/// The signature of a WebSocket message under the decoded key.
pub open spec fn ws_authorization_text(
    key: Seq<u8>,
    customer_id: Seq<char>,
    secret_key: Seq<char>,
    destination_url: Seq<char>,
    payload_json: Seq<char>,
    extra_keys: Seq<Seq<char>>,
    timestamp: Seq<char>,
) -> Seq<char> {
    signature_text(
        key,
        ws_canonical_text(
            content_md5_text(payload_json),
            secret_key,
            timestamp,
            customer_id,
            payload_json,
            destination_url,
            extra_keys,
        ),
    )
}

/// The frame of a signed WebSocket message, or the reason why the secret key
/// cannot sign anything.
pub open spec fn signed_frame_text(
    customer_id: Seq<char>,
    secret_key: Seq<char>,
    destination_url: Seq<char>,
    payload_json: Seq<char>,
    extra_keys: Seq<Seq<char>>,
    timestamp: Seq<char>,
) -> Result<Seq<char>, SigningError> {
    match secret_key_bytes(secret_key) {
        Err(e) => Err(e),
        Ok(key) => Ok(
            wire_frame_text(
                header_json_text(
                    seq![
                        timestamp,
                        content_md5_text(payload_json),
                        ws_authorization_text(
                            key,
                            customer_id,
                            secret_key,
                            destination_url,
                            payload_json,
                            extra_keys,
                            timestamp,
                        ),
                        customer_id,
                    ],
                    extra_keys,
                ),
                payload_json,
            ),
        ),
    }
}

/// Signs a payload for a destination and frames it, with the timestamp
/// given. The secret key is decoded first, so a bad key fails before anything
/// is hashed.
pub fn sign_frame_at(
    customer_id: &str,
    secret_key: &str,
    destination_url: &str,
    payload_json: &str,
    extra_keys: &Vec<String>,
    timestamp: &Timestamp,
) -> (r: Result<String, SigningError>)
    ensures
        match r {
            Ok(frame) => Ok::<Seq<char>, SigningError>(frame@),
            Err(e) => Err::<Seq<char>, SigningError>(e),
        } == signed_frame_text(
            customer_id@,
            secret_key@,
            destination_url@,
            payload_json@,
            extra_keys.deep_view(),
            timestamp.wire_text(),
        ),
{
    let key = match decode_secret_key(secret_key) {
        Ok(key) => key,
        Err(e) => {
            return Err(e);
        },
    };
    let payload_md5 = content_md5(payload_json);
    let full_date = timestamp.to_wire();
    let string_to_sign = ws_canonical_message(
        payload_md5.as_str(),
        secret_key,
        full_date.as_str(),
        customer_id,
        payload_json,
        destination_url,
        extra_keys,
    );
    let authorization = sign(key.as_slice(), string_to_sign.as_str());
    let header = build_header_frame(
        full_date.as_str(),
        payload_md5.as_str(),
        authorization.as_str(),
        customer_id,
        extra_keys,
    );
    Ok(serialize_frame(&header, payload_json))
}

/// An operation that goes over the WebSocket.
#[derive(Clone, Debug)]
pub enum WsOperation {
    /// Push data to a project.
    Learn { project: String },
    /// Ask a model of a project for predictions.
    Predict { project: String, model: String },
}

impl WsOperation {
    /// The path of the operation's endpoint.
    pub open spec fn path_text(self) -> Seq<char> {
        match self {
            WsOperation::Learn { .. } => "/symetry/ws/learn"@,
            WsOperation::Predict { .. } => "/symetry/ws/predict"@,
        }
    }

    /// The operation's extra keys: the project for a learn; the project and
    /// then the model, in this order, for a predict.
    pub open spec fn extra_key_texts(self) -> Seq<Seq<char>> {
        match self {
            WsOperation::Learn { project } => seq![project@],
            WsOperation::Predict { project, model } => seq![project@, model@],
        }
    }

    /// The URL of the operation's endpoint on a host.
    pub open spec fn url_text(self, host: Seq<char>, port: u16) -> Seq<char> {
        "ws://"@ + host + seq![':'] + decimal_text(port as nat) + self.path_text()
    }

    /// The extra keys of the operation, in the order in which they are signed
    /// and sent.
    pub fn extra_keys(&self) -> (r: Vec<String>)
        ensures
            r.deep_view() == self.extra_key_texts(),
    {
        let mut keys: Vec<String> = Vec::new();
        match self {
            WsOperation::Learn { project } => {
                keys.push(project.clone());
            },
            WsOperation::Predict { project, model } => {
                keys.push(project.clone());
                keys.push(model.clone());
            },
        }
        keys
    }

    /// The URL to connect to.
    pub fn url(&self, host: &str, port: u16) -> (r: String)
        ensures
            r@ == self.url_text(host@, port),
    {
        let mut out = String::new();
        out.append("ws://");
        out.append(host);
        push_char(&mut out, ':');
        push_decimal(&mut out, port as u64);
        match self {
            WsOperation::Learn { .. } => out.append("/symetry/ws/learn"),
            WsOperation::Predict { .. } => out.append("/symetry/ws/predict"),
        }
        out
    }
}

/// What is needed to carry out one WebSocket operation: where to connect, and
/// the one text frame to send.
#[derive(Clone, Debug)]
pub struct WsMessage {
    pub url: String,
    pub frame: String,
}

/// Prepares the message of an operation, with the timestamp given. The
/// customer is the configuration's user; the destination that is signed is
/// the URL that is connected to.
pub fn ws_message_at(
    config: &Config,
    secret_key: &str,
    operation: &WsOperation,
    payload_json: &str,
    timestamp: &Timestamp,
) -> (r: Result<WsMessage, SigningError>)
    ensures
        match r {
            Ok(message) => message.url@ == operation.url_text(config.host@, config.port)
                && Ok::<Seq<char>, SigningError>(message.frame@) == signed_frame_text(
                config.user@,
                secret_key@,
                operation.url_text(config.host@, config.port),
                payload_json@,
                operation.extra_key_texts(),
                timestamp.wire_text(),
            ),
            Err(e) => secret_key_bytes(secret_key@) == Err::<Seq<u8>, SigningError>(e),
        },
{
    let url = operation.url(config.host(), config.port());
    let keys = operation.extra_keys();
    match sign_frame_at(config.user(), secret_key, url.as_str(), payload_json, &keys, timestamp) {
        Ok(frame) => Ok(WsMessage { url, frame }),
        Err(e) => Err(e),
    }
}

/// Prepares the message of an operation, signed at the present time.
/// Whatever the clock says, the frame is the one that `ws_message_at` gives
/// for some instant.
pub fn ws_message(
    config: &Config,
    secret_key: &str,
    operation: &WsOperation,
    payload_json: &str,
) -> (r: Result<WsMessage, SigningError>)
    ensures
        match r {
            Ok(message) => message.url@ == operation.url_text(config.host@, config.port)
                && exists|t: Timestamp| #[trigger]
                t.is_instant() && Ok::<Seq<char>, SigningError>(message.frame@)
                    == signed_frame_text(
                    config.user@,
                    secret_key@,
                    operation.url_text(config.host@, config.port),
                    payload_json@,
                    operation.extra_key_texts(),
                    t.wire_text(),
                ),
            Err(e) => secret_key_bytes(secret_key@) == Err::<Seq<u8>, SigningError>(e),
        },
{
    let timestamp = Timestamp::now();
    ws_message_at(config, secret_key, operation, payload_json, &timestamp)
}

/// Whether a text frame from the service ends the exchange: it does where it
/// holds `"statusCode"` in quotes, `DONE` or `FINISHED`.
pub open spec fn is_terminal_text(text: Seq<char>) -> bool {
    contains_text(text, "\"statusCode\""@) || contains_text(text, "DONE"@) || contains_text(
        text,
        "FINISHED"@,
    )
}

/// Tells whether a text frame from the service ends the exchange.
pub fn is_terminal_frame(text: &str) -> (r: bool)
    ensures
        r == is_terminal_text(text@),
{
    contains(text, "\"statusCode\"") || contains(text, "DONE") || contains(text, "FINISHED")
}

/// What came in on the socket.
#[derive(Clone, Debug)]
pub enum WsEvent {
    /// A text frame.
    Text(String),
    /// A binary frame of so many bytes.
    Binary(usize),
    /// A ping.
    Ping,
    /// A pong.
    Pong,
    /// The service closed the connection.
    Close,
    /// A frame of another kind.
    Other,
    /// The frame could not be read, or the transport failed.
    Failed(String),
    /// The stream came to its end.
    End,
}

/// How an exchange came to its end.
#[derive(Clone, Debug)]
pub enum WsOutcome {
    /// The service said that it was done.
    Completed,
    /// The connection was closed, or its stream ended.
    Closed,
    /// A frame could not be read, or the transport failed.
    Failed(String),
}

/// What to do after an event: go on reading, or stop.
#[derive(Clone, Debug)]
pub enum WsStep {
    Continue,
    Stop(WsOutcome),
}

/// The step that follows an event. A terminal text frame completes the
/// exchange; a close or the end of the stream closes it; a failure fails it,
/// with its cause. Anything else only goes by.
pub open spec fn step_after(event: WsEvent) -> WsStep {
    match event {
        WsEvent::Text(text) => if is_terminal_text(text@) {
            WsStep::Stop(WsOutcome::Completed)
        } else {
            WsStep::Continue
        },
        WsEvent::Binary(_) => WsStep::Continue,
        WsEvent::Ping => WsStep::Continue,
        WsEvent::Pong => WsStep::Continue,
        WsEvent::Other => WsStep::Continue,
        WsEvent::Close => WsStep::Stop(WsOutcome::Closed),
        WsEvent::End => WsStep::Stop(WsOutcome::Closed),
        WsEvent::Failed(cause) => WsStep::Stop(WsOutcome::Failed(cause)),
    }
}

/// Decides what follows an event of the read loop.
pub fn next_step(event: WsEvent) -> (r: WsStep)
    ensures
        r == step_after(event),
{
    match event {
        WsEvent::Text(text) => {
            if is_terminal_frame(text.as_str()) {
                WsStep::Stop(WsOutcome::Completed)
            } else {
                WsStep::Continue
            }
        },
        WsEvent::Binary(_) => WsStep::Continue,
        WsEvent::Ping => WsStep::Continue,
        WsEvent::Pong => WsStep::Continue,
        WsEvent::Other => WsStep::Continue,
        WsEvent::Close => WsStep::Stop(WsOutcome::Closed),
        WsEvent::End => WsStep::Stop(WsOutcome::Closed),
        WsEvent::Failed(cause) => WsStep::Stop(WsOutcome::Failed(cause)),
    }
}

/// A frame can be taken apart again, byte for byte. Its bytes start with the
/// decimal digits of the header's length in bytes; the first comma comes
/// right after them; the header's bytes follow, exactly as many as the prefix
/// says; and what is left is the payload's bytes.
pub proof fn lemma_frame_splits(header_json: Seq<char>, payload_json: Seq<char>)
    ensures
        ({
            let wire = encode_utf8(wire_frame_text(header_json, payload_json));
            let header = encode_utf8(header_json);
            let payload = encode_utf8(payload_json);
            let prefix = decimal_text(header.len());
            let start: int = prefix.len() as int + 1;
            &&& all_digits(prefix)
            &&& decimal_value(prefix) == header.len()
            &&& wire.len() == start + header.len() + payload.len()
            &&& forall|i: int| 0 <= i < prefix.len() ==> #[trigger] wire[i] == prefix[i] as u8
            &&& wire[prefix.len() as int] == ',' as u8
            &&& wire.subrange(start, start + header.len()) == header
            &&& wire.subrange(start + header.len(), wire.len() as int) == payload
        }),
{
    let header = encode_utf8(header_json);
    let payload = encode_utf8(payload_json);
    let prefix = decimal_text(header.len());
    let comma = seq![','];
    lemma_decimal_text(header.len());
    lemma_digits_are_ascii(prefix);
    is_ascii_chars_encode_utf8(comma);
    lemma_encode_utf8_concat(prefix + comma + header_json, payload_json);
    lemma_encode_utf8_concat(prefix + comma, header_json);
    lemma_encode_utf8_concat(prefix, comma);
    let wire = encode_utf8(wire_frame_text(header_json, payload_json));
    assert(wire == encode_utf8(prefix) + encode_utf8(comma) + header + payload);
    assert forall|i: int| 0 <= i < prefix.len() implies #[trigger] wire[i] == prefix[i] as u8 by {
        assert(wire[i] == encode_utf8(prefix)[i]);
    }
    assert(wire[prefix.len() as int] == encode_utf8(comma)[0]);
}

/// No digit of the length prefix is a comma, so the first comma of a frame is
/// the one that ends the prefix.
pub proof fn lemma_frame_first_comma(header_json: Seq<char>, payload_json: Seq<char>)
    ensures
        ({
            let wire = encode_utf8(wire_frame_text(header_json, payload_json));
            let prefix = decimal_text(utf8_len(header_json));
            &&& prefix.len() < wire.len()
            &&& wire[prefix.len() as int] == ',' as u8
            &&& forall|i: int| 0 <= i < prefix.len() ==> #[trigger] wire[i] != ',' as u8
        }),
{
    lemma_frame_splits(header_json, payload_json);
    let wire = encode_utf8(wire_frame_text(header_json, payload_json));
    let prefix = decimal_text(utf8_len(header_json));
    assert forall|i: int| 0 <= i < prefix.len() implies #[trigger] wire[i] != ',' as u8 by {
        assert(is_digit(prefix[i]));
    }
}

/// Whether `s` holds no newline.
pub open spec fn single_line(s: Seq<char>) -> bool {
    forall|i: int| 0 <= i < s.len() ==> #[trigger] s[i] != '\n'
}

/// The order of the extra keys is part of what is signed: for a project and
/// a model that differ, and hold no newline, the canonical string with the
/// project first is not the one with the model first.
pub proof fn lemma_extra_key_order_is_signed(
    payload_md5: Seq<char>,
    secret_key: Seq<char>,
    timestamp: Seq<char>,
    customer_id: Seq<char>,
    payload_json: Seq<char>,
    destination_url: Seq<char>,
    project: Seq<char>,
    model: Seq<char>,
)
    requires
        project != model,
        single_line(project),
        single_line(model),
    ensures
        ws_canonical_text(
            payload_md5,
            secret_key,
            timestamp,
            customer_id,
            payload_json,
            destination_url,
            seq![project, model],
        ) != ws_canonical_text(
            payload_md5,
            secret_key,
            timestamp,
            customer_id,
            payload_json,
            destination_url,
            seq![model, project],
        ),
{
    let head = line(payload_md5) + line(secret_key) + line(timestamp) + line(customer_id) + line(
        payload_json,
    ) + line(destination_url);
    let forward = lines(seq![project, model]);
    let backward = lines(seq![model, project]);
    lemma_lines_of_two(project, model);
    lemma_lines_of_two(model, project);
    if project.len() == model.len() {
        // The first lines are as long as each other, and they differ.
        assert(forward.subrange(0, project.len() as int) =~= project);
        assert(backward.subrange(0, project.len() as int) =~= model);
    } else if project.len() < model.len() {
        // Where the project's line ends, the model still goes on.
        assert(forward[project.len() as int] == '\n');
        assert(backward[project.len() as int] == model[project.len() as int]);
    } else {
        // Where the model's line ends, the project still goes on.
        assert(backward[model.len() as int] == '\n');
        assert(forward[model.len() as int] == project[model.len() as int]);
    }
    assert(forward != backward);
    assert((head + forward).subrange(head.len() as int, (head + forward).len() as int)
        =~= forward);
    assert((head + backward).subrange(head.len() as int, (head + backward).len() as int)
        =~= backward);
}

proof fn lemma_lines_of_two(first: Seq<char>, second: Seq<char>)
    ensures
        lines(seq![first, second]) == line(first) + line(second),
{
    let one = seq![first];
    let both = seq![first, second];
    assert(lines(one.drop_last()) =~= Seq::<char>::empty());
    assert(lines(one) =~= line(first));
    assert(both.drop_last() =~= one);
}

} // verus!
