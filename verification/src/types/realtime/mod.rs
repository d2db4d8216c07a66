//! Events of the realtime session protocol.

pub mod client_event;

pub use client_event::{
    ClientEvent, ConversationItemCreateEvent, ConversationItemDeleteEvent,
    ConversationItemTruncateEvent, InputAudioBufferAppendEvent, InputAudioBufferClearEvent,
    InputAudioBufferCommitEvent, ResponseCancelEvent, ResponseCreateEvent, SessionUpdateEvent,
    ToText,
};
