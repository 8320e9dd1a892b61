//! The wire envelope and its codec.
//!
//! One frame is one JSON object with the members `messageType`, `dataArray`
//! and `data`. [`decode`] reads a frame, [`encode`] writes one, and
//! [`decode_payload`] reads the object that a `message` envelope carries in
//! its `data`.

use crate::json::{
    json_insert, json_member, json_model, json_models, json_object, json_of_text, json_of_texts,
    json_parsed, json_text, parse_json, print_json, text_items, JsonView,
};
use crate::text::{copy_texts, same_text};
use vstd::prelude::*;

verus! {

/// The kind of an envelope.
#[derive(Clone, Copy, Debug, PartialEq, Eq, Structural)]
pub enum MsgTypes {
    Users,
    Register,
    Message,
}

/// Why a frame or a payload was not read.
#[derive(Clone, Copy, Debug, PartialEq, Eq, Structural)]
pub enum DecodeError {
    /// The frame is no JSON object of the wire format.
    MalformedEnvelope,
    /// The `data` of a `message` envelope is no JSON object with a sender
    /// and a text.
    MalformedPayload,
}

/// One frame of the wire protocol.
#[derive(Clone, Debug, PartialEq, Eq)]
pub struct Envelope {
    pub message_type: MsgTypes,
    /// The roster, in a `users` envelope.
    pub data_array: Option<Vec<String>>,
    /// The user name in a `register` envelope, the payload in a `message`
    /// envelope.
    pub data: Option<String>,
}

/// An envelope as a mathematical value.
pub struct EnvelopeView {
    pub message_type: MsgTypes,
    pub data_array: Option<Seq<Seq<char>>>,
    pub data: Option<Seq<char>>,
}

impl View for Envelope {
    type V = EnvelopeView;

    open spec fn view(&self) -> EnvelopeView {
        EnvelopeView {
            message_type: self.message_type,
            data_array: self.data_array.deep_view(),
            data: self.data.deep_view(),
        }
    }
}

/// One line of the conversation: who said it, and what.
#[derive(Clone, Debug, PartialEq, Eq)]
pub struct ChatMessage {
    pub from: String,
    pub text: String,
}

/// A chat message as a mathematical value.
pub struct ChatMessageView {
    pub from: Seq<char>,
    pub text: Seq<char>,
}

impl View for ChatMessage {
    type V = ChatMessageView;

    open spec fn view(&self) -> ChatMessageView {
        ChatMessageView { from: self.from@, text: self.text@ }
    }
}

/// The name that stands for a kind in `messageType`.
pub open spec fn kind_name(kind: MsgTypes) -> Seq<char> {
    match kind {
        MsgTypes::Users => "users"@,
        MsgTypes::Register => "register"@,
        MsgTypes::Message => "message"@,
    }
}

/// The kind that a name in `messageType` stands for.
pub open spec fn kind_of_name(name: Seq<char>) -> Option<MsgTypes> {
    if name == "users"@ {
        Some(MsgTypes::Users)
    } else if name == "register"@ {
        Some(MsgTypes::Register)
    } else if name == "message"@ {
        Some(MsgTypes::Message)
    } else {
        None
    }
}

/// The texts that the items of an array hold, or `None` where an item is no
/// string.
pub open spec fn texts_of_items(items: Seq<JsonView>) -> Option<Seq<Seq<char>>> {
    if forall|i: int| 0 <= i < items.len() ==> #[trigger] items[i] is Text {
        Some(Seq::new(items.len(), |i: int| items[i]->Text_0))
    } else {
        None
    }
}

/// What an optional string member holds. A member that is absent or `null`
/// holds no text; one that is neither a string nor `null` is ill-typed,
/// which the outer `None` stands for.
pub open spec fn optional_text(member: Option<JsonView>) -> Option<Option<Seq<char>>> {
    match member {
        None => Some(None),
        Some(JsonView::Null) => Some(None),
        Some(JsonView::Text(text)) => Some(Some(text)),
        Some(_) => None,
    }
}

/// What an optional member that lists strings holds. A member that is absent
/// or `null` holds no list; one that is neither an array of strings nor
/// `null` is ill-typed, which the outer `None` stands for.
pub open spec fn optional_texts(member: Option<JsonView>) -> Option<Option<Seq<Seq<char>>>> {
    match member {
        None => Some(None),
        Some(JsonView::Null) => Some(None),
        Some(JsonView::Array(items)) => match texts_of_items(items) {
            Some(texts) => Some(Some(texts)),
            None => None,
        },
        Some(_) => None,
    }
}

/// The kind that the `messageType` member of a document names, if it names
/// one.
pub open spec fn kind_of_json(doc: JsonView) -> Option<MsgTypes> {
    match doc.member("messageType"@) {
        Some(JsonView::Text(name)) => kind_of_name(name),
        _ => None,
    }
}

/// The envelope that a JSON document stands for. The document must be an
/// object whose `messageType` is the name of a kind, whose `dataArray` is
/// absent, `null` or an array of strings, and whose `data` is absent, `null`
/// or a string. Other members are passed over.
pub open spec fn envelope_of_json(doc: JsonView) -> Result<EnvelopeView, DecodeError> {
    let kind = kind_of_json(doc);
    let data_array = optional_texts(doc.member("dataArray"@));
    let data = optional_text(doc.member("data"@));
    if kind is Some && data_array is Some && data is Some {
        Ok(
            EnvelopeView {
                message_type: kind->Some_0,
                data_array: data_array->Some_0,
                data: data->Some_0,
            },
        )
    } else {
        Err(DecodeError::MalformedEnvelope)
    }
}

/// The envelope that a frame stands for: that of the JSON document it
/// holds, and no envelope where the frame is no JSON text.
pub open spec fn decode_frame(frame: Seq<char>) -> Result<EnvelopeView, DecodeError> {
    match json_parsed(frame) {
        Some(doc) => envelope_of_json(doc),
        None => Err(DecodeError::MalformedEnvelope),
    }
}

/// The kind that `name` stands for.
pub fn kind_from_name(name: &str) -> (r: Option<MsgTypes>)
    ensures
        r == kind_of_name(name@),
{
    if same_text(name, "users") {
        Some(MsgTypes::Users)
    } else if same_text(name, "register") {
        Some(MsgTypes::Register)
    } else if same_text(name, "message") {
        Some(MsgTypes::Message)
    } else {
        None
    }
}

fn read_kind(doc: &serde_json::Value) -> (r: Option<MsgTypes>)
    ensures
        r == kind_of_json(json_model(*doc)),
{
    match json_member(doc, "messageType") {
        Some(value) => match value.as_str() {
            Some(name) => kind_from_name(name),
            None => None,
        },
        None => None,
    }
}

fn read_texts(items: &Vec<serde_json::Value>) -> (r: Option<Vec<String>>)
    ensures
        r.deep_view() == texts_of_items(json_models(items@)),
{
    let ghost models = json_models(items@);
    let mut texts: Vec<String> = Vec::new();
    let mut i: usize = 0;
    while i < items.len()
        invariant
            i <= items.len(),
            models == json_models(items@),
            texts.len() == i,
            forall|k: int| 0 <= k < i ==> #[trigger] models[k] is Text,
            forall|k: int| 0 <= k < i ==> texts[k]@ == models[k]->Text_0,
        decreases items.len() - i,
    {
        match items[i].as_str() {
            Some(text) => {
                texts.push(text.to_owned());
            },
            None => {
                assert(!(models[i as int] is Text));
                return None;
            },
        }
        i += 1;
    }
    assert(texts.deep_view() =~= texts_of_items(models)->Some_0);
    Some(texts)
}

fn read_optional_text(doc: &serde_json::Value, key: &str) -> (r: Option<Option<String>>)
    ensures
        r.deep_view() == optional_text(json_model(*doc).member(key@)),
{
    match json_member(doc, key) {
        None => Some(None),
        Some(value) => {
            if value.is_null() {
                Some(None)
            } else {
                match value.as_str() {
                    Some(text) => Some(Some(text.to_owned())),
                    None => None,
                }
            }
        },
    }
}

fn read_optional_texts(doc: &serde_json::Value, key: &str) -> (r: Option<Option<Vec<String>>>)
    ensures
        r.deep_view() == optional_texts(json_model(*doc).member(key@)),
{
    match json_member(doc, key) {
        None => Some(None),
        Some(value) => {
            if value.is_null() {
                Some(None)
            } else {
                match value.as_array() {
                    Some(items) => match read_texts(items) {
                        Some(texts) => Some(Some(texts)),
                        None => None,
                    },
                    None => None,
                }
            }
        },
    }
}

/// Reads the envelope that a JSON document stands for.
pub fn envelope_from_json(doc: &serde_json::Value) -> (r: Result<Envelope, DecodeError>)
    ensures
        match r {
            Ok(envelope) => envelope_of_json(json_model(*doc)) == Ok::<EnvelopeView, DecodeError>(
                envelope@,
            ),
            Err(error) => envelope_of_json(json_model(*doc)) == Err::<EnvelopeView, DecodeError>(
                error,
            ),
        },
{
    let kind = read_kind(doc);
    let data_array = read_optional_texts(doc, "dataArray");
    let data = read_optional_text(doc, "data");
    match (kind, data_array, data) {
        (Some(message_type), Some(data_array), Some(data)) => Ok(
            Envelope { message_type, data_array, data },
        ),
        _ => Err(DecodeError::MalformedEnvelope),
    }
}

/// Reads a frame. The result is the envelope that the frame stands for;
/// a frame that stands for none is refused as malformed.
pub fn decode(frame: &str) -> (r: Result<Envelope, DecodeError>)
    ensures
        match r {
            Ok(envelope) => decode_frame(frame@) == Ok::<EnvelopeView, DecodeError>(envelope@),
            Err(error) => decode_frame(frame@) == Err::<EnvelopeView, DecodeError>(error),
        },
{
    match parse_json(frame) {
        Ok(doc) => envelope_from_json(&doc),
        Err(_) => Err(DecodeError::MalformedEnvelope),
    }
}

/// The message that a JSON document stands for. The document must be an
/// object whose `from` and `message` are strings. Other members are passed
/// over.
pub open spec fn payload_of_json(doc: JsonView) -> Result<ChatMessageView, DecodeError> {
    match (doc.member("from"@), doc.member("message"@)) {
        (Some(JsonView::Text(from)), Some(JsonView::Text(text))) => Ok(
            ChatMessageView { from, text },
        ),
        _ => Err(DecodeError::MalformedPayload),
    }
}

/// The message that the `data` of a `message` envelope stands for: that of
/// the JSON document it holds, and no message where it is no JSON text.
pub open spec fn decode_data(data: Seq<char>) -> Result<ChatMessageView, DecodeError> {
    match json_parsed(data) {
        Some(doc) => payload_of_json(doc),
        None => Err(DecodeError::MalformedPayload),
    }
}

/// Reads the message that a JSON document stands for.
pub fn payload_from_json(doc: &serde_json::Value) -> (r: Result<ChatMessage, DecodeError>)
    ensures
        match r {
            Ok(message) => payload_of_json(json_model(*doc)) == Ok::<ChatMessageView, DecodeError>(
                message@,
            ),
            Err(error) => payload_of_json(json_model(*doc)) == Err::<ChatMessageView, DecodeError>(
                error,
            ),
        },
{
    let from = match json_member(doc, "from") {
        Some(value) => value.as_str(),
        None => None,
    };
    let text = match json_member(doc, "message") {
        Some(value) => value.as_str(),
        None => None,
    };
    match (from, text) {
        (Some(from), Some(text)) => Ok(ChatMessage { from: from.to_owned(), text: text.to_owned() }),
        _ => Err(DecodeError::MalformedPayload),
    }
}

/// Reads the `data` of a `message` envelope. The result is the message that
/// the data stands for; data that stands for none is refused as malformed.
pub fn decode_payload(data: &str) -> (r: Result<ChatMessage, DecodeError>)
    ensures
        match r {
            Ok(message) => decode_data(data@) == Ok::<ChatMessageView, DecodeError>(message@),
            Err(error) => decode_data(data@) == Err::<ChatMessageView, DecodeError>(error),
        },
{
    match parse_json(data) {
        Ok(doc) => payload_from_json(&doc),
        Err(_) => Err(DecodeError::MalformedPayload),
    }
}

/// The JSON value of an optional string: `null` where there is none.
pub open spec fn json_of_optional_text(text: Option<Seq<char>>) -> JsonView {
    match text {
        Some(t) => JsonView::Text(t),
        None => JsonView::Null,
    }
}

/// The JSON value of an optional list of strings: `null` where there is
/// none.
pub open spec fn json_of_optional_texts(texts: Option<Seq<Seq<char>>>) -> JsonView {
    match texts {
        Some(list) => JsonView::Array(text_items(list)),
        None => JsonView::Null,
    }
}

/// The JSON document that stands for an envelope: an object with exactly the
/// members `messageType`, `dataArray` and `data`.
pub open spec fn json_of_envelope(envelope: EnvelopeView) -> JsonView {
    JsonView::Object(
        Map::empty().insert("messageType"@, JsonView::Text(kind_name(envelope.message_type))).insert(
            "dataArray"@,
            json_of_optional_texts(envelope.data_array),
        ).insert("data"@, json_of_optional_text(envelope.data)),
    )
}

/// The frame that stands for an envelope: its JSON document, printed.
pub open spec fn encode_frame(envelope: EnvelopeView) -> Seq<char> {
    json_text(json_of_envelope(envelope))
}

/// The name of a kind, as `messageType` holds it.
pub fn name_of_kind(kind: MsgTypes) -> (r: &'static str)
    ensures
        r@ == kind_name(kind),
{
    match kind {
        MsgTypes::Users => "users",
        MsgTypes::Register => "register",
        MsgTypes::Message => "message",
    }
}

/// Builds the JSON document that stands for an envelope.
pub fn envelope_to_json(envelope: &Envelope) -> (r: serde_json::Value)
    ensures
        json_model(r) == json_of_envelope(envelope@),
{
    let kind = json_of_text(Some(name_of_kind(envelope.message_type).to_owned()));
    let data_array = json_of_texts(
        match &envelope.data_array {
            Some(list) => Some(copy_texts(list)),
            None => None,
        },
    );
    let data = json_of_text(
        match &envelope.data {
            Some(text) => Some(text.clone()),
            None => None,
        },
    );
    let mut doc = json_object();
    json_insert(&mut doc, "messageType".to_owned(), kind);
    json_insert(&mut doc, "dataArray".to_owned(), data_array);
    json_insert(&mut doc, "data".to_owned(), data);
    doc
}

/// Writes an envelope as a frame. Every envelope has one.
pub fn encode(envelope: &Envelope) -> (r: String)
    ensures
        r@ == encode_frame(envelope@),
{
    let doc = envelope_to_json(envelope);
    match print_json(&doc) {
        Ok(frame) => frame,
        Err(_) => vstd::pervasive::unreached(),
    }
}

/// Each kind is the kind that its own name stands for.
pub proof fn lemma_kind_name_round_trip(kind: MsgTypes)
    ensures
        kind_of_name(kind_name(kind)) == Some(kind),
{
    reveal_strlit("users");
    reveal_strlit("register");
    reveal_strlit("message");
    assert("users"@.len() != "register"@.len());
    assert("users"@.len() != "message"@.len());
    assert("register"@.len() != "message"@.len());
}

/// The texts of the items that stand for a list of texts are that list.
pub proof fn lemma_text_items_round_trip(texts: Seq<Seq<char>>)
    ensures
        texts_of_items(text_items(texts)) == Some(texts),
{
    let items = text_items(texts);
    assert(forall|i: int| 0 <= i < items.len() ==> #[trigger] items[i] is Text);
    assert(Seq::new(items.len(), |i: int| items[i]->Text_0) =~= texts);
}

/// Reading the JSON document that stands for an envelope gives the envelope
/// back, whatever its kind and whatever it carries.
pub proof fn lemma_envelope_json_round_trip(envelope: EnvelopeView)
    ensures
        envelope_of_json(json_of_envelope(envelope)) == Ok::<EnvelopeView, DecodeError>(envelope),
{
    let doc = json_of_envelope(envelope);
    reveal_strlit("messageType");
    reveal_strlit("dataArray");
    reveal_strlit("data");
    assert("messageType"@.len() != "dataArray"@.len());
    assert("messageType"@.len() != "data"@.len());
    assert("dataArray"@.len() != "data"@.len());
    lemma_kind_name_round_trip(envelope.message_type);
    assert(doc.member("messageType"@) == Some(JsonView::Text(kind_name(envelope.message_type))));
    assert(doc.member("dataArray"@) == Some(json_of_optional_texts(envelope.data_array)));
    assert(doc.member("data"@) == Some(json_of_optional_text(envelope.data)));
    if envelope.data_array is Some {
        lemma_text_items_round_trip(envelope.data_array->Some_0);
    }
}

/// Decoding reads back what encoding wrote, as far as this crate decides
/// it: a frame in which the parser finds the JSON document of an envelope
/// decodes to that envelope, and so does the frame that encoding writes for
/// the envelope, provided that the parser finds in it the document that was
/// printed. That the parser and the printer of JSON agree in this way is a
/// property of theirs, which this crate does not state.
pub proof fn lemma_decode_reads_encoded_document(envelope: EnvelopeView, frame: Seq<char>)
    ensures
        json_parsed(frame) == Some(json_of_envelope(envelope)) ==> decode_frame(frame) == Ok::<
            EnvelopeView,
            DecodeError,
        >(envelope),
        json_parsed(encode_frame(envelope)) == Some(json_of_envelope(envelope)) ==> decode_frame(
            encode_frame(envelope),
        ) == Ok::<EnvelopeView, DecodeError>(envelope),
{
    lemma_envelope_json_round_trip(envelope);
}

} // verus!
