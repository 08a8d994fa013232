//! The wire protocol: the kinds of envelope, the frame that carries one, and
//! the codec between envelopes and JSON text.

use crate::json::{
    as_list, as_text, doc_of, docs_of, is_null, is_record, list_value, member, member_of,
    no_members, null_value, object_value, parse, parse_doc, put_member, render, render_doc,
    text_value, Doc,
};
use crate::text::{same_text, texts};
use vstd::prelude::*;

verus! {

/// The faults that the session recovers from.
#[derive(Clone, Copy, Debug, PartialEq, Eq, Structural)]
pub enum ChatError {
    /// The frame is no JSON text, or no object with a message type, or the
    /// field that its kind needs is missing or of the wrong type.
    MalformedEnvelope,
    /// The data of a message frame does not hold a sender and a text.
    MalformedPayload,
    /// The transport did not take a frame.
    TransportSendFailure,
}

/// The kinds of envelope.
#[derive(Clone, Copy, Debug, PartialEq, Eq, Structural)]
pub enum MsgTypes {
    Users,
    Register,
    Message,
}

impl MsgTypes {
    /// The tag that names the kind on the wire.
    pub open spec fn tag(self) -> Seq<char> {
        match self {
            MsgTypes::Users => "users"@,
            MsgTypes::Register => "register"@,
            MsgTypes::Message => "message"@,
        }
    }

    /// The kind that a tag names, if any.
    pub open spec fn with_tag(tag: Seq<char>) -> Option<MsgTypes> {
        if tag == "users"@ {
            Some(MsgTypes::Users)
        } else if tag == "register"@ {
            Some(MsgTypes::Register)
        } else if tag == "message"@ {
            Some(MsgTypes::Message)
        } else {
            None
        }
    }

    /// The tag of a kind names that kind and no other.
    pub proof fn lemma_tag_names_kind(self)
        ensures
            MsgTypes::with_tag(self.tag()) == Some(self),
    {
        reveal_strlit("users");
        reveal_strlit("register");
        reveal_strlit("message");
        assert("users"@.len() == 5 && "register"@.len() == 8 && "message"@.len() == 7);
    }

    /// A tag names a kind only if it is that kind's tag.
    pub proof fn lemma_kind_has_tag(tag: Seq<char>)
        ensures
            MsgTypes::with_tag(tag) matches Some(kind) ==> kind.tag() == tag,
    {
    }

    /// The tag of this kind.
    pub fn name(self) -> (r: &'static str)
        ensures
            r@ == self.tag(),
    {
        match self {
            MsgTypes::Users => "users",
            MsgTypes::Register => "register",
            MsgTypes::Message => "message",
        }
    }

    /// The kind that `tag` names; `None` for any other text.
    pub fn from_name(tag: &str) -> (r: Option<MsgTypes>)
        ensures
            r == MsgTypes::with_tag(tag@),
    {
        if same_text(tag, "users") {
            Some(MsgTypes::Users)
        } else if same_text(tag, "register") {
            Some(MsgTypes::Register)
        } else if same_text(tag, "message") {
            Some(MsgTypes::Message)
        } else {
            None
        }
    }
}

/// One frame as it stands on the wire: the kind and its two optional fields.
#[derive(Debug, PartialEq, Eq)]
pub struct WebSocketMessage {
    pub message_type: MsgTypes,
    pub data_array: Option<Vec<String>>,
    pub data: Option<String>,
}

/// A frame as a mathematical value.
pub struct FrameView {
    pub message_type: MsgTypes,
    pub data_array: Option<Seq<Seq<char>>>,
    pub data: Option<Seq<char>>,
}

/// The text that an optional string holds.
pub open spec fn optional_text_view(text: Option<String>) -> Option<Seq<char>> {
    match text {
        Some(text) => Some(text@),
        None => None,
    }
}

/// The texts that an optional vector of strings holds.
pub open spec fn optional_texts_view(names: Option<Vec<String>>) -> Option<Seq<Seq<char>>> {
    match names {
        Some(names) => Some(texts(names@)),
        None => None,
    }
}

impl View for WebSocketMessage {
    type V = FrameView;

    open spec fn view(&self) -> FrameView {
        FrameView {
            message_type: self.message_type,
            data_array: optional_texts_view(self.data_array),
            data: optional_text_view(self.data),
        }
    }
}

/// A copy of a vector of strings.
fn copy_texts(names: &Vec<String>) -> (r: Vec<String>)
    ensures
        texts(r@) == texts(names@),
{
    let mut copy: Vec<String> = Vec::new();
    let mut i: usize = 0;
    while i < names.len()
        invariant
            i <= names.len(),
            copy.len() == i,
            forall|j: int| 0 <= j < i ==> (#[trigger] copy@[j])@ == names@[j]@,
        decreases names.len() - i,
    {
        copy.push(names[i].clone());
        i += 1;
    }
    assert(texts(copy@) =~= texts(names@));
    copy
}

impl Clone for WebSocketMessage {
    fn clone(&self) -> (r: WebSocketMessage)
        ensures
            r@ == self@,
    {
        WebSocketMessage {
            message_type: self.message_type,
            data_array: match &self.data_array {
                Some(names) => Some(copy_texts(names)),
                None => None,
            },
            data: match &self.data {
                Some(text) => Some(text.clone()),
                None => None,
            },
        }
    }
}

/// The text of a string document; empty for any other document.
pub open spec fn text_in(doc: Doc) -> Seq<char> {
    match doc {
        Doc::Text(text) => text,
        _ => Seq::empty(),
    }
}

/// The list of strings that holds the given texts.
pub open spec fn text_docs(texts: Seq<Seq<char>>) -> Seq<Doc> {
    Seq::new(texts.len(), |i: int| Doc::Text(texts[i]))
}

/// Whether every document of the sequence is a string.
pub open spec fn all_text(items: Seq<Doc>) -> bool {
    forall|i: int| 0 <= i < items.len() ==> #[trigger] items[i] is Text
}

/// The texts of a sequence of string documents.
pub open spec fn texts_in(items: Seq<Doc>) -> Seq<Seq<char>> {
    Seq::new(items.len(), |i: int| text_in(items[i]))
}

/// How an optional text is written: a string, or null.
pub open spec fn optional_text_doc(text: Option<Seq<char>>) -> Doc {
    match text {
        Some(text) => Doc::Text(text),
        None => Doc::Null,
    }
}

/// How an optional list of texts is written: a list of strings, or null.
pub open spec fn optional_texts_doc(texts: Option<Seq<Seq<char>>>) -> Doc {
    match texts {
        Some(texts) => Doc::List(text_docs(texts)),
        None => Doc::Null,
    }
}

/// How an optional text is read from a member: a missing member and null
/// give none, a string gives its text, anything else is malformed.
pub open spec fn optional_text(member: Option<Doc>) -> Result<Option<Seq<char>>, ChatError> {
    match member {
        None => Ok(None),
        Some(Doc::Null) => Ok(None),
        Some(Doc::Text(text)) => Ok(Some(text)),
        Some(_) => Err(ChatError::MalformedEnvelope),
    }
}

/// How an optional list of texts is read from a member: a missing member and
/// null give none, a list of strings gives their texts, anything else is
/// malformed.
pub open spec fn optional_texts(member: Option<Doc>) -> Result<
    Option<Seq<Seq<char>>>,
    ChatError,
> {
    match member {
        None => Ok(None),
        Some(Doc::Null) => Ok(None),
        Some(Doc::List(items)) => if all_text(items) {
            Ok(Some(texts_in(items)))
        } else {
            Err(ChatError::MalformedEnvelope)
        },
        Some(_) => Err(ChatError::MalformedEnvelope),
    }
}

/// The document that carries a frame: an object with the members
/// `messageType`, `dataArray` and `data`, an unused field written as null.
pub open spec fn frame_doc(frame: FrameView) -> Doc {
    Doc::Object(
        Map::empty().insert("messageType"@, Doc::Text(frame.message_type.tag())).insert(
            "dataArray"@,
            optional_texts_doc(frame.data_array),
        ).insert("data"@, optional_text_doc(frame.data)),
    )
}

/// The frame that a document carries.
///
/// A document without a string under `messageType` is malformed. A tag that
/// names no kind gives no frame, and that is no fault. For a known kind both
/// fields are read, and one of the wrong type makes the frame malformed.
pub open spec fn doc_frame(doc: Doc) -> Result<Option<FrameView>, ChatError> {
    match member_of(doc, "messageType"@) {
        Some(Doc::Text(tag)) => match MsgTypes::with_tag(tag) {
            None => Ok(None),
            Some(kind) => match (
                optional_texts(member_of(doc, "dataArray"@)),
                optional_text(member_of(doc, "data"@)),
            ) {
                (Ok(data_array), Ok(data)) => Ok(
                    Some(FrameView { message_type: kind, data_array, data }),
                ),
                _ => Err(ChatError::MalformedEnvelope),
            },
        },
        _ => Err(ChatError::MalformedEnvelope),
    }
}

/// The three keys of a frame differ from one another.
pub proof fn lemma_frame_keys_differ()
    ensures
        "messageType"@ != "dataArray"@,
        "messageType"@ != "data"@,
        "dataArray"@ != "data"@,
{
    reveal_strlit("messageType");
    reveal_strlit("dataArray");
    reveal_strlit("data");
    assert("messageType"@.len() == 11 && "dataArray"@.len() == 9 && "data"@.len() == 4);
}

/// Reading the texts of a list of strings gives back the texts it was made of.
pub proof fn lemma_texts_round_trip(names: Seq<Seq<char>>)
    ensures
        all_text(text_docs(names)),
        texts_in(text_docs(names)) == names,
{
    assert(texts_in(text_docs(names)) =~= names);
}

/// Reading inverts writing: the document of a frame carries that frame.
pub proof fn lemma_frame_round_trip(frame: FrameView)
    ensures
        doc_frame(frame_doc(frame)) == Ok::<Option<FrameView>, ChatError>(Some(frame)),
        is_record(frame_doc(frame)),
{
    lemma_frame_keys_differ();
    frame.message_type.lemma_tag_names_kind();
    if let Some(names) = frame.data_array {
        lemma_texts_round_trip(names);
    }
}

/// What reading an optional text gave, as a mathematical value.
pub open spec fn text_read(r: Result<Option<String>, ChatError>) -> Result<
    Option<Seq<char>>,
    ChatError,
> {
    match r {
        Ok(text) => Ok(optional_text_view(text)),
        Err(fault) => Err(fault),
    }
}

/// What reading an optional list of texts gave, as a mathematical value.
pub open spec fn texts_read(r: Result<Option<Vec<String>>, ChatError>) -> Result<
    Option<Seq<Seq<char>>>,
    ChatError,
> {
    match r {
        Ok(names) => Ok(optional_texts_view(names)),
        Err(fault) => Err(fault),
    }
}

/// What reading a frame gave, as a mathematical value.
pub open spec fn frame_read(r: Result<Option<WebSocketMessage>, ChatError>) -> Result<
    Option<FrameView>,
    ChatError,
> {
    match r {
        Ok(Some(frame)) => Ok(Some(frame@)),
        Ok(None) => Ok(None),
        Err(fault) => Err(fault),
    }
}

/// Reads the optional text under `key` of a document.
fn read_text(doc: &serde_json::Value, key: &str) -> (r: Result<Option<String>, ChatError>)
    ensures
        text_read(r) == optional_text(member_of(doc_of(*doc), key@)),
{
    match member(doc, key) {
        None => Ok(None),
        Some(found) => match as_text(found) {
            Some(text) => Ok(Some(text.to_owned())),
            None => if is_null(found) {
                Ok(None)
            } else {
                Err(ChatError::MalformedEnvelope)
            },
        },
    }
}

/// The texts of a list of values: `None` unless every value is a string.
fn read_all_text(items: &Vec<serde_json::Value>) -> (r: Option<Vec<String>>)
    ensures
        r.is_some() == all_text(docs_of(items@)),
        r matches Some(names) ==> texts(names@) == texts_in(docs_of(items@)),
{
    let mut names: Vec<String> = Vec::new();
    let mut i: usize = 0;
    while i < items.len()
        invariant
            i <= items.len(),
            names.len() == i,
            forall|j: int| 0 <= j < i ==> #[trigger] docs_of(items@)[j] is Text,
            forall|j: int| 0 <= j < i ==> (#[trigger] names@[j])@ == text_in(docs_of(items@)[j]),
        decreases items.len() - i,
    {
        match as_text(&items[i]) {
            Some(text) => {
                names.push(text.to_owned());
            },
            None => {
                assert(!(docs_of(items@)[i as int] is Text));
                return None;
            },
        }
        i += 1;
    }
    assert(texts(names@) =~= texts_in(docs_of(items@)));
    Some(names)
}

/// Reads the optional list of texts under `key` of a document.
fn read_texts(doc: &serde_json::Value, key: &str) -> (r: Result<Option<Vec<String>>, ChatError>)
    ensures
        texts_read(r) == optional_texts(member_of(doc_of(*doc), key@)),
{
    match member(doc, key) {
        None => Ok(None),
        Some(found) => match as_list(found) {
            Some(items) => match read_all_text(items) {
                Some(names) => Ok(Some(names)),
                None => Err(ChatError::MalformedEnvelope),
            },
            None => if is_null(found) {
                Ok(None)
            } else {
                Err(ChatError::MalformedEnvelope)
            },
        },
    }
}

/// Reads the frame that a parsed document carries: `Ok(None)` where its tag
/// names no kind that this client knows, `MalformedEnvelope` where it has no
/// tag or a field of the wrong type.
pub fn read_frame(doc: &serde_json::Value) -> (r: Result<Option<WebSocketMessage>, ChatError>)
    ensures
        frame_read(r) == doc_frame(doc_of(*doc)),
{
    let kind = match member(doc, "messageType") {
        Some(found) => match as_text(found) {
            Some(tag) => MsgTypes::from_name(tag),
            None => {
                return Err(ChatError::MalformedEnvelope);
            },
        },
        None => {
            return Err(ChatError::MalformedEnvelope);
        },
    };
    match kind {
        None => Ok(None),
        Some(message_type) => {
            let data_array = read_texts(doc, "dataArray");
            let data = read_text(doc, "data");
            match (data_array, data) {
                (Ok(data_array), Ok(data)) => Ok(
                    Some(WebSocketMessage { message_type, data_array, data }),
                ),
                _ => Err(ChatError::MalformedEnvelope),
            }
        },
    }
}

/// The list of strings that holds the given names.
fn texts_value(names: &Vec<String>) -> (r: serde_json::Value)
    ensures
        doc_of(r) == Doc::List(text_docs(texts(names@))),
{
    let mut items: Vec<serde_json::Value> = Vec::new();
    let mut i: usize = 0;
    while i < names.len()
        invariant
            i <= names.len(),
            items.len() == i,
            forall|j: int| 0 <= j < i ==> doc_of(#[trigger] items@[j]) == Doc::Text(names@[j]@),
        decreases names.len() - i,
    {
        items.push(text_value(names[i].clone()));
        i += 1;
    }
    assert(docs_of(items@) =~= text_docs(texts(names@)));
    list_value(items)
}

/// The value that carries a frame.
fn frame_value(frame: &WebSocketMessage) -> (r: serde_json::Value)
    ensures
        doc_of(r) == frame_doc(frame@),
{
    let mut members = no_members();
    let kind = text_value(frame.message_type.name().to_owned());
    put_member(&mut members, "messageType".to_owned(), kind);
    let data_array = match &frame.data_array {
        Some(names) => texts_value(names),
        None => null_value(),
    };
    put_member(&mut members, "dataArray".to_owned(), data_array);
    let data = match &frame.data {
        Some(text) => text_value(text.clone()),
        None => null_value(),
    };
    put_member(&mut members, "data".to_owned(), data);
    object_value(members)
}

/// One chat message: who sent it and what it says.
#[derive(Debug, PartialEq, Eq)]
pub struct ChatMessage {
    pub from: String,
    pub body: String,
}

/// A chat message as a mathematical value.
pub struct MessageView {
    pub from: Seq<char>,
    pub body: Seq<char>,
}

impl View for ChatMessage {
    type V = MessageView;

    open spec fn view(&self) -> MessageView {
        MessageView { from: self.from@, body: self.body@ }
    }
}

impl Clone for ChatMessage {
    fn clone(&self) -> (r: ChatMessage)
        ensures
            r@ == self@,
    {
        ChatMessage { from: self.from.clone(), body: self.body.clone() }
    }
}

/// The document that carries a chat message inside the data of a message
/// frame: an object with the members `from` and `message`.
pub open spec fn payload_doc(message: MessageView) -> Doc {
    Doc::Object(
        Map::empty().insert("from"@, Doc::Text(message.from)).insert(
            "message"@,
            Doc::Text(message.body),
        ),
    )
}

/// The chat message that a document carries: `None` unless it is an object
/// with a string under `from` and a string under `message`.
pub open spec fn doc_payload(doc: Doc) -> Option<MessageView> {
    match (member_of(doc, "from"@), member_of(doc, "message"@)) {
        (Some(Doc::Text(from)), Some(Doc::Text(body))) => Some(MessageView { from, body }),
        _ => None,
    }
}

/// Reading inverts writing: the document of a chat message carries that
/// message.
pub proof fn lemma_payload_round_trip(message: MessageView)
    ensures
        doc_payload(payload_doc(message)) == Some(message),
        is_record(payload_doc(message)),
{
    reveal_strlit("from");
    reveal_strlit("message");
    assert("from"@.len() == 4 && "message"@.len() == 7);
}

/// Reads the chat message that a parsed document carries.
pub fn read_payload(doc: &serde_json::Value) -> (r: Option<ChatMessage>)
    ensures
        match r {
            Some(message) => doc_payload(doc_of(*doc)) == Some(message@),
            None => doc_payload(doc_of(*doc)) is None,
        },
{
    let from = match member(doc, "from") {
        Some(found) => match as_text(found) {
            Some(text) => text.to_owned(),
            None => {
                return None;
            },
        },
        None => {
            return None;
        },
    };
    match member(doc, "message") {
        Some(found) => match as_text(found) {
            Some(text) => Some(ChatMessage { from, body: text.to_owned() }),
            None => None,
        },
        None => None,
    }
}

/// The value that carries a chat message.
fn payload_value(from: &String, body: &String) -> (r: serde_json::Value)
    ensures
        doc_of(r) == payload_doc(MessageView { from: from@, body: body@ }),
{
    let mut members = no_members();
    put_member(&mut members, "from".to_owned(), text_value(from.clone()));
    put_member(&mut members, "message".to_owned(), text_value(body.clone()));
    object_value(members)
}

/// A message of the protocol.
#[derive(Debug, PartialEq, Eq)]
pub enum Envelope {
    /// Sent once by the client when its session starts.
    Register { username: String },
    /// Sent by the server: the names of all connected users.
    Users { usernames: Vec<String> },
    /// A chat message, in either direction.
    Message { from: String, body: String },
}

/// An envelope as a mathematical value.
pub enum EnvelopeView {
    Register { username: Seq<char> },
    Users { usernames: Seq<Seq<char>> },
    Message { from: Seq<char>, body: Seq<char> },
}

impl View for Envelope {
    type V = EnvelopeView;

    open spec fn view(&self) -> EnvelopeView {
        match *self {
            Envelope::Register { username } => EnvelopeView::Register { username: username@ },
            Envelope::Users { usernames } => EnvelopeView::Users { usernames: texts(usernames@) },
            Envelope::Message { from, body } => EnvelopeView::Message {
                from: from@,
                body: body@,
            },
        }
    }
}

impl Clone for Envelope {
    fn clone(&self) -> (r: Envelope)
        ensures
            r@ == self@,
    {
        match self {
            Envelope::Register { username } => Envelope::Register { username: username.clone() },
            Envelope::Users { usernames } => Envelope::Users { usernames: copy_texts(usernames) },
            Envelope::Message { from, body } => Envelope::Message {
                from: from.clone(),
                body: body.clone(),
            },
        }
    }
}

impl EnvelopeView {
    /// The kind of the envelope.
    pub open spec fn kind(self) -> MsgTypes {
        match self {
            EnvelopeView::Register { .. } => MsgTypes::Register,
            EnvelopeView::Users { .. } => MsgTypes::Users,
            EnvelopeView::Message { .. } => MsgTypes::Message,
        }
    }
}

/// The frame that carries an envelope. `Users` fills `dataArray` with the
/// names, `Register` fills `data` with the name, and `Message` fills `data`
/// with the JSON text of its sender and body.
pub open spec fn envelope_frame(envelope: EnvelopeView) -> FrameView {
    match envelope {
        EnvelopeView::Register { username } => FrameView {
            message_type: MsgTypes::Register,
            data_array: None,
            data: Some(username),
        },
        EnvelopeView::Users { usernames } => FrameView {
            message_type: MsgTypes::Users,
            data_array: Some(usernames),
            data: None,
        },
        EnvelopeView::Message { from, body } => FrameView {
            message_type: MsgTypes::Message,
            data_array: None,
            data: Some(render_doc(payload_doc(MessageView { from, body }))),
        },
    }
}

/// The envelope that a frame carries.
///
/// A `Users` frame without a list carries no names. A `Register` or
/// `Message` frame without data is malformed. The data of a `Message` frame
/// is JSON text of its own, and where that is no object with a sender and a
/// body the payload is malformed.
pub open spec fn frame_envelope(frame: FrameView) -> Result<EnvelopeView, ChatError> {
    match frame.message_type {
        MsgTypes::Users => Ok(
            EnvelopeView::Users {
                usernames: match frame.data_array {
                    Some(names) => names,
                    None => Seq::empty(),
                },
            },
        ),
        MsgTypes::Register => match frame.data {
            Some(username) => Ok(EnvelopeView::Register { username }),
            None => Err(ChatError::MalformedEnvelope),
        },
        MsgTypes::Message => match frame.data {
            Some(data) => match parse_doc(data) {
                Some(doc) => match doc_payload(doc) {
                    Some(message) => Ok(
                        EnvelopeView::Message { from: message.from, body: message.body },
                    ),
                    None => Err(ChatError::MalformedPayload),
                },
                None => Err(ChatError::MalformedPayload),
            },
            None => Err(ChatError::MalformedEnvelope),
        },
    }
}

/// The text that is sent for an envelope.
pub open spec fn wire_text(envelope: EnvelopeView) -> Seq<char> {
    render_doc(frame_doc(envelope_frame(envelope)))
}

/// What a text of the wire decodes to: an envelope, `Ok(None)` for a
/// well-formed frame of a kind that this client does not know, or the fault.
pub open spec fn decode_text(text: Seq<char>) -> Result<Option<EnvelopeView>, ChatError> {
    match parse_doc(text) {
        Some(doc) => match doc_frame(doc) {
            Ok(Some(frame)) => match frame_envelope(frame) {
                Ok(envelope) => Ok(Some(envelope)),
                Err(fault) => Err(fault),
            },
            Ok(None) => Ok(None),
            Err(fault) => Err(fault),
        },
        None => Err(ChatError::MalformedEnvelope),
    }
}

/// What decoding gave, as a mathematical value.
pub open spec fn decoded(r: Result<Option<Envelope>, ChatError>) -> Result<
    Option<EnvelopeView>,
    ChatError,
> {
    match r {
        Ok(Some(envelope)) => Ok(Some(envelope@)),
        Ok(None) => Ok(None),
        Err(fault) => Err(fault),
    }
}

/// The frame of an envelope fills exactly one of its two fields: the list for
/// `Users`, the data for `Register` and `Message`.
pub proof fn lemma_frame_fills_one_field(envelope: EnvelopeView)
    ensures
        envelope_frame(envelope).message_type == envelope.kind(),
        envelope_frame(envelope).data_array.is_some() == (envelope is Users),
        envelope_frame(envelope).data.is_some() == !(envelope is Users),
{
}

/// Decoding never reports a fault of the transport.
pub proof fn lemma_decode_faults(text: Seq<char>)
    ensures
        decode_text(text) matches Err(fault) ==> fault == ChatError::MalformedEnvelope || fault
            == ChatError::MalformedPayload,
{
}

impl Envelope {
    /// The kind of the envelope.
    pub fn kind(&self) -> (r: MsgTypes)
        ensures
            r == self@.kind(),
    {
        match self {
            Envelope::Register { .. } => MsgTypes::Register,
            Envelope::Users { .. } => MsgTypes::Users,
            Envelope::Message { .. } => MsgTypes::Message,
        }
    }

    /// The frame that carries the envelope. Read back, the frame gives the
    /// envelope again.
    pub fn to_frame(&self) -> (r: WebSocketMessage)
        ensures
            r@ == envelope_frame(self@),
            frame_envelope(r@) == Ok::<EnvelopeView, ChatError>(self@),
    {
        match self {
            Envelope::Register { username } => WebSocketMessage {
                message_type: MsgTypes::Register,
                data_array: None,
                data: Some(username.clone()),
            },
            Envelope::Users { usernames } => WebSocketMessage {
                message_type: MsgTypes::Users,
                data_array: Some(copy_texts(usernames)),
                data: None,
            },
            Envelope::Message { from, body } => {
                let payload = payload_value(from, body);
                let data = render(&payload);
                proof {
                    lemma_payload_round_trip(MessageView { from: from@, body: body@ });
                }
                WebSocketMessage {
                    message_type: MsgTypes::Message,
                    data_array: None,
                    data: Some(data),
                }
            },
        }
    }

    /// The envelope that a frame carries, or the fault in the frame.
    pub fn from_frame(frame: WebSocketMessage) -> (r: Result<Envelope, ChatError>)
        ensures
            match r {
                Ok(envelope) => frame_envelope(frame@) == Ok::<EnvelopeView, ChatError>(envelope@),
                Err(fault) => frame_envelope(frame@) == Err::<EnvelopeView, ChatError>(fault),
            },
    {
        match frame.message_type {
            MsgTypes::Users => {
                let usernames = match frame.data_array {
                    Some(names) => names,
                    None => Vec::new(),
                };
                assert(texts(Seq::<String>::empty()) =~= Seq::<Seq<char>>::empty());
                Ok(Envelope::Users { usernames })
            },
            MsgTypes::Register => match frame.data {
                Some(username) => Ok(Envelope::Register { username }),
                None => Err(ChatError::MalformedEnvelope),
            },
            MsgTypes::Message => match frame.data {
                Some(data) => match parse(data.as_str()) {
                    Ok(doc) => match read_payload(&doc) {
                        Some(message) => Ok(
                            Envelope::Message { from: message.from, body: message.body },
                        ),
                        None => Err(ChatError::MalformedPayload),
                    },
                    Err(_) => Err(ChatError::MalformedPayload),
                },
                None => Err(ChatError::MalformedEnvelope),
            },
        }
    }
}

/// The text to send for an envelope. Decoding that text gives the envelope
/// back.
pub fn encode(envelope: &Envelope) -> (r: String)
    ensures
        r@ == wire_text(envelope@),
        decode_text(r@) == Ok::<Option<EnvelopeView>, ChatError>(Some(envelope@)),
{
    let frame = envelope.to_frame();
    let value = frame_value(&frame);
    proof {
        lemma_frame_round_trip(frame@);
    }
    render(&value)
}

/// Decodes one text of the wire: the envelope it carries, `Ok(None)` for a
/// well-formed frame of a kind that this client does not know, or the fault
/// for which the frame is dropped.
pub fn decode(text: &str) -> (r: Result<Option<Envelope>, ChatError>)
    ensures
        decoded(r) == decode_text(text@),
{
    let doc = match parse(text) {
        Ok(doc) => doc,
        Err(_) => {
            return Err(ChatError::MalformedEnvelope);
        },
    };
    match read_frame(&doc) {
        Ok(Some(frame)) => match Envelope::from_frame(frame) {
            Ok(envelope) => Ok(Some(envelope)),
            Err(fault) => Err(fault),
        },
        Ok(None) => Ok(None),
        Err(fault) => Err(fault),
    }
}

} // verus!
