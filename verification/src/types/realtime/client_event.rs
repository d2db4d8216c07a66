use crate::json::{document_text, json_quoted, json_text, quoted};
use vstd::prelude::*;
use vstd::std_specs::convert::FromSpecImpl;
use vstd::string::StringExecFns;

verus! {

/// Updates the session's default configuration.
#[derive(Debug, Clone, Default)]
pub struct SessionUpdateEvent {
    /// Optional client-generated ID used to identify this event.
    pub event_id: Option<String>,
    /// Session configuration to update.
    pub session: serde_json::Value,
}

/// Appends audio bytes to the input audio buffer.
#[derive(Debug, Clone, Default)]
pub struct InputAudioBufferAppendEvent {
    /// Optional client-generated ID used to identify this event.
    pub event_id: Option<String>,
    /// Base64-encoded audio bytes.
    pub audio: String,
}

/// Commits the audio bytes in the buffer to a user message.
#[derive(Debug, Clone, Default)]
pub struct InputAudioBufferCommitEvent {
    /// Optional client-generated ID used to identify this event.
    pub event_id: Option<String>,
}

/// Clears the audio bytes in the buffer.
#[derive(Debug, Clone, Default)]
pub struct InputAudioBufferClearEvent {
    /// Optional client-generated ID used to identify this event.
    pub event_id: Option<String>,
}

/// Adds an item to the conversation.
#[derive(Debug, Clone)]
pub struct ConversationItemCreateEvent {
    /// Optional client-generated ID used to identify this event.
    pub event_id: Option<String>,
    /// The ID of the preceding item after which the new item will be inserted.
    pub previous_item_id: Option<String>,
    /// The item to add to the conversation.
    pub item: serde_json::Value,
}

/// Truncates the audio of a previous assistant message.
#[derive(Debug, Clone, Default)]
pub struct ConversationItemTruncateEvent {
    /// Optional client-generated ID used to identify this event.
    pub event_id: Option<String>,
    /// The ID of the assistant message item to truncate.
    pub item_id: String,
    /// The index of the content part to truncate.
    pub content_index: u32,
    /// Inclusive duration up to which audio is truncated, in milliseconds.
    pub audio_end_ms: u32,
}

/// Removes an item from the conversation history.
#[derive(Debug, Clone, Default)]
pub struct ConversationItemDeleteEvent {
    /// Optional client-generated ID used to identify this event.
    pub event_id: Option<String>,
    /// The ID of the item to delete.
    pub item_id: String,
}

/// Triggers the generation of a response.
#[derive(Debug, Clone, Default)]
pub struct ResponseCreateEvent {
    /// Optional client-generated ID used to identify this event.
    pub event_id: Option<String>,
    /// Configuration for the response.
    pub response: Option<serde_json::Value>,
}

/// Cancels a response that is in progress.
#[derive(Debug, Clone, Default)]
pub struct ResponseCancelEvent {
    /// Optional client-generated ID used to identify this event.
    pub event_id: Option<String>,
}

/// The events that the realtime server accepts from the client.
#[derive(Debug)]
pub enum ClientEvent {
    /// Send this event to update the session's default configuration.
    SessionUpdate(SessionUpdateEvent),
    /// Send this event to append audio bytes to the input audio buffer.
    InputAudioBufferAppend(InputAudioBufferAppendEvent),
    /// Send this event to commit audio bytes to a user message.
    InputAudioBufferCommit(InputAudioBufferCommitEvent),
    /// Send this event to clear the audio bytes in the buffer.
    InputAudioBufferClear(InputAudioBufferClearEvent),
    /// Send this event when adding an item to the conversation.
    ConversationItemCreate(ConversationItemCreateEvent),
    /// Send this event when you want to truncate a previous assistant message's audio.
    ConversationItemTruncate(ConversationItemTruncateEvent),
    /// Send this event when you want to remove any item from the conversation history.
    ConversationItemDelete(ConversationItemDeleteEvent),
    /// Send this event to trigger a response generation.
    ResponseCreate(ResponseCreateEvent),
    /// Send this event to cancel an in-progress response.
    ResponseCancel(ResponseCancelEvent),
}

impl From<SessionUpdateEvent> for ClientEvent {
    fn from(value: SessionUpdateEvent) -> (event: ClientEvent) {
        ClientEvent::SessionUpdate(value)
    }
}

impl FromSpecImpl<SessionUpdateEvent> for ClientEvent {
    open spec fn obeys_from_spec() -> bool {
        true
    }

    open spec fn from_spec(value: SessionUpdateEvent) -> ClientEvent {
        ClientEvent::SessionUpdate(value)
    }
}

impl From<InputAudioBufferAppendEvent> for ClientEvent {
    fn from(value: InputAudioBufferAppendEvent) -> (event: ClientEvent) {
        ClientEvent::InputAudioBufferAppend(value)
    }
}

impl FromSpecImpl<InputAudioBufferAppendEvent> for ClientEvent {
    open spec fn obeys_from_spec() -> bool {
        true
    }

    open spec fn from_spec(value: InputAudioBufferAppendEvent) -> ClientEvent {
        ClientEvent::InputAudioBufferAppend(value)
    }
}

impl From<InputAudioBufferCommitEvent> for ClientEvent {
    fn from(value: InputAudioBufferCommitEvent) -> (event: ClientEvent) {
        ClientEvent::InputAudioBufferCommit(value)
    }
}

impl FromSpecImpl<InputAudioBufferCommitEvent> for ClientEvent {
    open spec fn obeys_from_spec() -> bool {
        true
    }

    open spec fn from_spec(value: InputAudioBufferCommitEvent) -> ClientEvent {
        ClientEvent::InputAudioBufferCommit(value)
    }
}

impl From<InputAudioBufferClearEvent> for ClientEvent {
    fn from(value: InputAudioBufferClearEvent) -> (event: ClientEvent) {
        ClientEvent::InputAudioBufferClear(value)
    }
}

impl FromSpecImpl<InputAudioBufferClearEvent> for ClientEvent {
    open spec fn obeys_from_spec() -> bool {
        true
    }

    open spec fn from_spec(value: InputAudioBufferClearEvent) -> ClientEvent {
        ClientEvent::InputAudioBufferClear(value)
    }
}

impl From<ConversationItemCreateEvent> for ClientEvent {
    fn from(value: ConversationItemCreateEvent) -> (event: ClientEvent) {
        ClientEvent::ConversationItemCreate(value)
    }
}

impl FromSpecImpl<ConversationItemCreateEvent> for ClientEvent {
    open spec fn obeys_from_spec() -> bool {
        true
    }

    open spec fn from_spec(value: ConversationItemCreateEvent) -> ClientEvent {
        ClientEvent::ConversationItemCreate(value)
    }
}

impl From<ConversationItemTruncateEvent> for ClientEvent {
    fn from(value: ConversationItemTruncateEvent) -> (event: ClientEvent) {
        ClientEvent::ConversationItemTruncate(value)
    }
}

impl FromSpecImpl<ConversationItemTruncateEvent> for ClientEvent {
    open spec fn obeys_from_spec() -> bool {
        true
    }

    open spec fn from_spec(value: ConversationItemTruncateEvent) -> ClientEvent {
        ClientEvent::ConversationItemTruncate(value)
    }
}

impl From<ConversationItemDeleteEvent> for ClientEvent {
    fn from(value: ConversationItemDeleteEvent) -> (event: ClientEvent) {
        ClientEvent::ConversationItemDelete(value)
    }
}

impl FromSpecImpl<ConversationItemDeleteEvent> for ClientEvent {
    open spec fn obeys_from_spec() -> bool {
        true
    }

    open spec fn from_spec(value: ConversationItemDeleteEvent) -> ClientEvent {
        ClientEvent::ConversationItemDelete(value)
    }
}

impl From<ResponseCreateEvent> for ClientEvent {
    fn from(value: ResponseCreateEvent) -> (event: ClientEvent) {
        ClientEvent::ResponseCreate(value)
    }
}

impl FromSpecImpl<ResponseCreateEvent> for ClientEvent {
    open spec fn obeys_from_spec() -> bool {
        true
    }

    open spec fn from_spec(value: ResponseCreateEvent) -> ClientEvent {
        ClientEvent::ResponseCreate(value)
    }
}

impl From<ResponseCancelEvent> for ClientEvent {
    fn from(value: ResponseCancelEvent) -> (event: ClientEvent) {
        ClientEvent::ResponseCancel(value)
    }
}

impl FromSpecImpl<ResponseCancelEvent> for ClientEvent {
    open spec fn obeys_from_spec() -> bool {
        true
    }

    open spec fn from_spec(value: ResponseCancelEvent) -> ClientEvent {
        ClientEvent::ResponseCancel(value)
    }
}

impl From<serde_json::Value> for ConversationItemCreateEvent {
    fn from(value: serde_json::Value) -> (event: ConversationItemCreateEvent) {
        ConversationItemCreateEvent { event_id: None, previous_item_id: None, item: value }
    }
}

impl FromSpecImpl<serde_json::Value> for ConversationItemCreateEvent {
    open spec fn obeys_from_spec() -> bool {
        true
    }

    open spec fn from_spec(value: serde_json::Value) -> ConversationItemCreateEvent {
        ConversationItemCreateEvent { event_id: None, previous_item_id: None, item: value }
    }
}

/// The decimal digit `d`.
pub open spec fn digit(d: nat) -> char {
    if d == 0 {
        '0'
    } else if d == 1 {
        '1'
    } else if d == 2 {
        '2'
    } else if d == 3 {
        '3'
    } else if d == 4 {
        '4'
    } else if d == 5 {
        '5'
    } else if d == 6 {
        '6'
    } else if d == 7 {
        '7'
    } else if d == 8 {
        '8'
    } else {
        '9'
    }
}

/// The number in decimal, without leading zeros.
pub open spec fn decimal(n: nat) -> Seq<char>
    decreases n,
{
    if n < 10 {
        seq![digit(n)]
    } else {
        decimal(n / 10) + seq![digit(n % 10)]
    }
}

/// The member `name` with the text `value`, after a comma.
pub open spec fn member(name: Seq<char>, value: Seq<char>) -> Seq<char> {
    ",\""@ + name + "\":"@ + value
}

/// The member `name` where there is a text for it, else nothing.
pub open spec fn optional(name: Seq<char>, value: Option<String>) -> Seq<char> {
    match value {
        Some(text) => member(name, json_quoted(text@)),
        None => Seq::empty(),
    }
}

/// The text of a document, `null` where there is none.
pub open spec fn nullable(value: Option<serde_json::Value>) -> Seq<char> {
    match value {
        Some(document) => json_text(document),
        None => "null"@,
    }
}

impl ClientEvent {
    /// The name of the event on the wire.
    pub open spec fn tag(self) -> Seq<char> {
        match self {
            ClientEvent::SessionUpdate(_) => "session.update"@,
            ClientEvent::InputAudioBufferAppend(_) => "input_audio_buffer.append"@,
            ClientEvent::InputAudioBufferCommit(_) => "input_audio_buffer.commit"@,
            ClientEvent::InputAudioBufferClear(_) => "input_audio_buffer.clear"@,
            ClientEvent::ConversationItemCreate(_) => "conversation.item.create"@,
            ClientEvent::ConversationItemTruncate(_) => "conversation.item.truncate"@,
            ClientEvent::ConversationItemDelete(_) => "conversation.item.delete"@,
            ClientEvent::ResponseCreate(_) => "response.create"@,
            ClientEvent::ResponseCancel(_) => "response.cancel"@,
        }
    }

    /// The members of the event after its `type`, each after a comma: the
    /// fields in the order of their declaration, an absent `event_id` or
    /// `previous_item_id` left out.
    pub open spec fn members(self) -> Seq<char> {
        match self {
            ClientEvent::SessionUpdate(e) => optional("event_id"@, e.event_id) + member(
                "session"@,
                json_text(e.session),
            ),
            ClientEvent::InputAudioBufferAppend(e) => optional("event_id"@, e.event_id) + member(
                "audio"@,
                json_quoted(e.audio@),
            ),
            ClientEvent::InputAudioBufferCommit(e) => optional("event_id"@, e.event_id),
            ClientEvent::InputAudioBufferClear(e) => optional("event_id"@, e.event_id),
            ClientEvent::ConversationItemCreate(e) => optional("event_id"@, e.event_id) + optional(
                "previous_item_id"@,
                e.previous_item_id,
            ) + member("item"@, json_text(e.item)),
            ClientEvent::ConversationItemTruncate(e) => optional("event_id"@, e.event_id) + member(
                "item_id"@,
                json_quoted(e.item_id@),
            ) + member("content_index"@, decimal(e.content_index as nat)) + member(
                "audio_end_ms"@,
                decimal(e.audio_end_ms as nat),
            ),
            ClientEvent::ConversationItemDelete(e) => optional("event_id"@, e.event_id) + member(
                "item_id"@,
                json_quoted(e.item_id@),
            ),
            ClientEvent::ResponseCreate(e) => optional("event_id"@, e.event_id) + member(
                "response"@,
                nullable(e.response),
            ),
            ClientEvent::ResponseCancel(e) => optional("event_id"@, e.event_id),
        }
    }

    /// The event as the text of a message to the server: a JSON object whose
    /// first member, `type`, names the event.
    pub open spec fn text(self) -> Seq<char> {
        "{\"type\":\""@ + self.tag() + "\""@ + self.members() + "}"@
    }
}

fn digit_text(d: u32) -> (text: &'static str)
    requires
        d < 10,
    ensures
        text@ == seq![digit(d as nat)],
{
    proof {
        reveal_strlit("0");
        reveal_strlit("1");
        reveal_strlit("2");
        reveal_strlit("3");
        reveal_strlit("4");
        reveal_strlit("5");
        reveal_strlit("6");
        reveal_strlit("7");
        reveal_strlit("8");
        reveal_strlit("9");
    }
    let text = if d == 0 {
        "0"
    } else if d == 1 {
        "1"
    } else if d == 2 {
        "2"
    } else if d == 3 {
        "3"
    } else if d == 4 {
        "4"
    } else if d == 5 {
        "5"
    } else if d == 6 {
        "6"
    } else if d == 7 {
        "7"
    } else if d == 8 {
        "8"
    } else {
        "9"
    };
    assert(text@ =~= seq![digit(d as nat)]);
    text
}

/// Appends the number in decimal.
fn push_decimal(out: &mut String, n: u32)
    ensures
        final(out)@ == old(out)@ + decimal(n as nat),
    decreases n,
{
    if n < 10 {
        out.append(digit_text(n));
    } else {
        push_decimal(out, n / 10);
        out.append(digit_text(n % 10));
        proof {
            assert(final(out)@ =~= old(out)@ + decimal(n as nat));
        }
    }
}

fn push_member(out: &mut String, name: &str, value: &str)
    ensures
        final(out)@ == old(out)@ + member(name@, value@),
{
    out.append(",\"");
    out.append(name);
    out.append("\":");
    out.append(value);
    proof {
        assert(final(out)@ =~= old(out)@ + member(name@, value@));
    }
}

fn push_optional(out: &mut String, name: &str, value: &Option<String>)
    ensures
        final(out)@ == old(out)@ + optional(name@, *value),
{
    match value {
        Some(text) => {
            let literal = quoted(text.as_str());
            push_member(out, name, literal.as_str());
        },
        None => {
            proof {
                assert(out@ =~= old(out)@ + optional(name@, *value));
            }
        },
    }
}

fn push_quoted(out: &mut String, name: &str, value: &String)
    ensures
        final(out)@ == old(out)@ + member(name@, json_quoted(value@)),
{
    let literal = quoted(value.as_str());
    push_member(out, name, literal.as_str());
}

fn push_document(out: &mut String, name: &str, value: &serde_json::Value)
    ensures
        final(out)@ == old(out)@ + member(name@, json_text(*value)),
{
    let text = document_text(value);
    push_member(out, name, text.as_str());
}

fn push_number(out: &mut String, name: &str, value: u32)
    ensures
        final(out)@ == old(out)@ + member(name@, decimal(value as nat)),
{
    let mut text = String::new();
    push_decimal(&mut text, value);
    proof {
        assert(text@ =~= decimal(value as nat));
    }
    push_member(out, name, text.as_str());
}

impl ClientEvent {
    fn name(&self) -> (tag: &'static str)
        ensures
            tag@ == self.tag(),
    {
        match self {
            ClientEvent::SessionUpdate(_) => "session.update",
            ClientEvent::InputAudioBufferAppend(_) => "input_audio_buffer.append",
            ClientEvent::InputAudioBufferCommit(_) => "input_audio_buffer.commit",
            ClientEvent::InputAudioBufferClear(_) => "input_audio_buffer.clear",
            ClientEvent::ConversationItemCreate(_) => "conversation.item.create",
            ClientEvent::ConversationItemTruncate(_) => "conversation.item.truncate",
            ClientEvent::ConversationItemDelete(_) => "conversation.item.delete",
            ClientEvent::ResponseCreate(_) => "response.create",
            ClientEvent::ResponseCancel(_) => "response.cancel",
        }
    }

    fn push_members(&self, out: &mut String)
        ensures
            final(out)@ == old(out)@ + self.members(),
    {
        match self {
            ClientEvent::SessionUpdate(e) => {
                push_optional(out, "event_id", &e.event_id);
                push_document(out, "session", &e.session);
            },
            ClientEvent::InputAudioBufferAppend(e) => {
                push_optional(out, "event_id", &e.event_id);
                push_quoted(out, "audio", &e.audio);
            },
            ClientEvent::InputAudioBufferCommit(e) => {
                push_optional(out, "event_id", &e.event_id);
            },
            ClientEvent::InputAudioBufferClear(e) => {
                push_optional(out, "event_id", &e.event_id);
            },
            ClientEvent::ConversationItemCreate(e) => {
                push_optional(out, "event_id", &e.event_id);
                push_optional(out, "previous_item_id", &e.previous_item_id);
                push_document(out, "item", &e.item);
            },
            ClientEvent::ConversationItemTruncate(e) => {
                push_optional(out, "event_id", &e.event_id);
                push_quoted(out, "item_id", &e.item_id);
                push_number(out, "content_index", e.content_index);
                push_number(out, "audio_end_ms", e.audio_end_ms);
            },
            ClientEvent::ConversationItemDelete(e) => {
                push_optional(out, "event_id", &e.event_id);
                push_quoted(out, "item_id", &e.item_id);
            },
            ClientEvent::ResponseCreate(e) => {
                push_optional(out, "event_id", &e.event_id);
                match &e.response {
                    Some(document) => {
                        let text = document_text(document);
                        push_member(out, "response", text.as_str());
                    },
                    None => {
                        push_member(out, "response", "null");
                    },
                }
            },
            ClientEvent::ResponseCancel(e) => {
                push_optional(out, "event_id", &e.event_id);
            },
        }
        proof {
            assert(final(out)@ =~= old(out)@ + self.members());
        }
    }

    /// The event as the text of a message to the server.
    pub fn to_json(&self) -> (text: String)
        ensures
            text@ == self.text(),
    {
        let mut out = "{\"type\":\"".to_owned();
        out.append(self.name());
        out.append("\"");
        self.push_members(&mut out);
        out.append("}");
        proof {
            assert(out@ =~= self.text());
        }
        out
    }
}

impl Into<String> for &ClientEvent {
    /// The event as the text of a message to the server.
    fn into(self) -> (text: String)
        ensures
            String::view(&text) == self.text(),
    {
        self.to_json()
    }
}

impl vstd::std_specs::convert::IntoSpecImpl<String> for &ClientEvent {
    open spec fn obeys_into_spec() -> bool {
        false
    }

    open spec fn into_spec(self) -> String {
        arbitrary()
    }
}

/// Conversion of an event into the text of a message to the server.
pub trait ToText {
    fn to_text(self) -> String;
}

/// Whatever converts into a [`ClientEvent`] has the text of that event.
impl<T: Into<ClientEvent>> ToText for T {
    fn to_text(self) -> (text: String)
        ensures
            exists|event: ClientEvent| #[trigger]
                call_ensures(T::into, (self,), event) && text@ == event.text(),
    {
        let event: ClientEvent = self.into();
        event.to_json()
    }
}

} // verus!
