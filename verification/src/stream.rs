//! The adapters that turn the events of a server-sent-event connection into
//! typed items.
//!
//! An adapter reads nothing itself. Whoever holds the connection polls it and
//! hands each event to [`OpenAIEventStream::poll_next`], which says what the
//! consumer gets: an item, the end of the sequence, or nothing yet (poll the
//! connection again). The adapter is `Active` until it has seen the
//! termination sentinel or a failure, be it of the connection, of the
//! decoder or of the mapper, and `Done` from then on.

use crate::error::{deserialization_failure, map_deserialization_error, OpenAIError, OpenAIErrorView};
use std::marker::PhantomData;
use vstd::prelude::*;
use vstd::utf8::encode_utf8;

verus! {

/// One record of an event stream.
#[derive(Debug, Clone, PartialEq, Eq, Default)]
pub struct MessageEvent {
    /// The event name, `message` if the record gave none.
    pub event: String,
    /// The payload.
    pub data: String,
    /// The last event id.
    pub id: String,
    /// The reconnection time that the record asked for, in milliseconds.
    pub retry: Option<u64>,
}

/// What a connection delivers.
#[derive(Debug, Clone, PartialEq, Eq)]
pub enum Event {
    /// The connection was opened. No consumer ever sees this.
    Open,
    /// A record arrived.
    Message(MessageEvent),
}

/// What one pull of an adapter comes to.
#[derive(Debug)]
pub enum Pull<O> {
    /// Nothing for the consumer: poll the connection again.
    Again,
    /// The sequence has ended.
    End,
    /// The next item of the sequence.
    Item(Result<O, OpenAIError>),
}

/// A [`MessageEvent`] as mathematical values.
pub struct MessageEventView {
    pub event: Seq<char>,
    pub data: Seq<char>,
    pub id: Seq<char>,
    pub retry: Option<u64>,
}

impl View for MessageEvent {
    type V = MessageEventView;

    open spec fn view(&self) -> MessageEventView {
        MessageEventView { event: self.event@, data: self.data@, id: self.id@, retry: self.retry }
    }
}

/// What polling a connection gave, as the adapters see it.
pub enum Signal {
    /// The connection has no more events.
    Closed,
    /// The connection was opened.
    Open,
    /// A record.
    Message(MessageEventView),
    /// The connection failed: its account of why.
    Failure(Seq<char>),
}

/// What a pull comes to, as a consumer sees it.
pub enum Outcome<O> {
    Again,
    End,
    Item(O),
    Failed(OpenAIErrorView),
}

impl<O> Pull<O> {
    /// The pull as a consumer sees it.
    pub open spec fn outcome(self) -> Outcome<O> {
        match self {
            Pull::Again => Outcome::Again,
            Pull::End => Outcome::End,
            Pull::Item(Ok(item)) => Outcome::Item(item),
            Pull::Item(Err(e)) => Outcome::Failed(e@),
        }
    }
}

/// What polling the connection gave, as a signal.
pub open spec fn signal_of(polled: Option<Result<Event, String>>) -> Signal {
    match polled {
        None => Signal::Closed,
        Some(Ok(Event::Open)) => Signal::Open,
        Some(Ok(Event::Message(message))) => Signal::Message(message@),
        Some(Err(why)) => Signal::Failure(why@),
    }
}

/// The payload that ends a stream in good order.
pub open spec fn sentinel() -> Seq<char> {
    "[DONE]"@
}

/// The payload of a signal, empty where it has none.
pub open spec fn payload(signal: Signal) -> Seq<char> {
    match signal {
        Signal::Message(message) => message.data,
        _ => Seq::empty(),
    }
}

/// What a pull comes to where that does not depend on the payload's
/// contents: the next state (is the adapter done?) and the outcome. `None`
/// where the adapter is active and the signal is a record.
pub open spec fn settled<O>(done: bool, signal: Signal) -> Option<(bool, Outcome<O>)> {
    if done {
        Some((true, Outcome::End))
    } else {
        match signal {
            Signal::Closed => Some((false, Outcome::End)),
            Signal::Open => Some((false, Outcome::Again)),
            Signal::Failure(why) => Some(
                (true, Outcome::Failed(OpenAIErrorView::StreamError(why))),
            ),
            Signal::Message(_) => None,
        }
    }
}

/// What a pull of the typed adapter comes to where the decoder is not
/// asked: what [`settled`] says, and the end of the sequence, for good, on
/// the sentinel. `None` where the adapter is active and the signal is a
/// record with another payload.
pub open spec fn undecoded<O>(done: bool, signal: Signal) -> Option<(bool, Outcome<O>)> {
    match settled::<O>(done, signal) {
        Some(step) => Some(step),
        None => if payload(signal) == sentinel() {
            Some((true, Outcome::End))
        } else {
            None
        },
    }
}

/// What a pull of the typed adapter comes to, where `decoded` is what the
/// decoder makes of the signal's payload: the value where there is one, else
/// the failure to deserialize, with the payload's bytes, after which the
/// adapter is done.
pub open spec fn typed_step<O>(
    done: bool,
    signal: Signal,
    decoded: Result<O, serde_json::Error>,
) -> (bool, Outcome<O>) {
    match undecoded::<O>(done, signal) {
        Some(step) => step,
        None => match decoded {
            Ok(item) => (false, Outcome::Item(item)),
            Err(e) => (
                true,
                Outcome::Failed(deserialization_failure(e, encode_utf8(payload(signal)))),
            ),
        },
    }
}

/// What a pull of the mapped adapter comes to, where `mapped` is what the
/// mapper makes of the signal's record.
///
/// The mapper sees every record, the sentinel too, and the adapter is done
/// after the sentinel whatever the mapper made of it. Where the mapper fails,
/// its failure is not handed on: the sequence ends without an item, and it
/// ends for good, for the adapter is done.
pub open spec fn mapped_step<O>(done: bool, signal: Signal, mapped: Result<O, OpenAIError>) -> (
    bool,
    Outcome<O>,
) {
    match settled(done, signal) {
        Some(step) => step,
        None => match mapped {
            Ok(item) => (payload(signal) == sentinel(), Outcome::Item(item)),
            Err(_) => (true, Outcome::End),
        },
    }
}

/// Is this payload the termination sentinel?
pub fn is_sentinel(data: &String) -> (b: bool)
    ensures
        b == (data@ == sentinel()),
{
    let marker = "[DONE]".to_owned();
    *data == marker
}

/// The typed adapter: each record's payload is decoded as an `O`.
pub struct OpenAIEventStream<O> {
    done: bool,
    _phantom_data: PhantomData<O>,
}

impl<O> OpenAIEventStream<O> {
    /// Has the adapter reached its terminal state?
    pub closed spec fn done(&self) -> bool {
        self.done
    }

    /// An adapter in its initial state, `Active`.
    pub fn new() -> (stream: Self)
        ensures
            !stream.done(),
    {
        OpenAIEventStream { done: false, _phantom_data: PhantomData }
    }

    /// Has the adapter reached its terminal state? Once it has, the
    /// connection need not be polled any more.
    pub fn is_done(&self) -> (b: bool)
        ensures
            b == self.done(),
    {
        self.done
    }

    /// Makes an item of a decoded payload: the value where decoding
    /// succeeded, else the one failure that the consumer sees, after which
    /// the adapter is done.
    pub fn deliver(&mut self, data: &str, decoded: Result<O, serde_json::Error>) -> (item: Result<
        O,
        OpenAIError,
    >)
        ensures
            match decoded {
                Ok(value) => item == Ok::<O, OpenAIError>(value) && final(self).done() == old(
                    self,
                ).done(),
                Err(e) => item is Err && item->Err_0@ == deserialization_failure(
                    e,
                    encode_utf8(data@),
                ) && final(self).done(),
            },
    {
        match decoded {
            Ok(value) => Ok(value),
            Err(e) => {
                self.done = true;
                Err(map_deserialization_error(e, data.as_bytes()))
            },
        }
    }

    /// One pull: what the consumer gets for what polling the connection gave.
    ///
    /// `decode` reads a payload as an `O`. It is called at most once, and
    /// only with the payload of a record that is not the sentinel, while the
    /// adapter is active.
    pub fn poll_next<D>(&mut self, polled: Option<Result<Event, String>>, decode: D) -> (pull: Pull<
        O,
    >) where D: FnOnce(&str) -> Result<O, serde_json::Error>
        requires
            undecoded::<O>(old(self).done(), signal_of(polled)) is None ==> forall|text: &str|
                text@ == payload(signal_of(polled)) ==> decode.requires((text,)),
        ensures
            undecoded::<O>(old(self).done(), signal_of(polled)) matches Some(step) ==> (
                final(self).done(),
                pull.outcome(),
            ) == step,
            undecoded::<O>(old(self).done(), signal_of(polled)) is None ==> exists|
                text: &str,
                decoded: Result<O, serde_json::Error>,
            |
                text@ == payload(signal_of(polled)) && #[trigger] decode.ensures((text,), decoded)
                    && (final(self).done(), pull.outcome()) == typed_step(
                    old(self).done(),
                    signal_of(polled),
                    decoded,
                ),
    {
        if self.done {
            return Pull::End;
        }
        match polled {
            None => Pull::End,
            Some(Ok(Event::Open)) => Pull::Again,
            Some(Ok(Event::Message(message))) => {
                if is_sentinel(&message.data) {
                    self.done = true;
                    Pull::End
                } else {
                    let decoded = decode(message.data.as_str());
                    let item = self.deliver(message.data.as_str(), decoded);
                    Pull::Item(item)
                }
            },
            Some(Err(why)) => {
                self.done = true;
                Pull::Item(Err(OpenAIError::StreamError(why)))
            },
        }
    }
}

/// The mapped adapter: each record goes to a mapper that the caller gave.
#[verifier::reject_recursive_types(O)]
#[verifier::reject_recursive_types(M)]
pub struct OpenAIEventMappedStream<O, M> where M: Fn(MessageEvent) -> Result<O, OpenAIError> {
    event_mapper: M,
    done: bool,
    _phantom_data: PhantomData<O>,
}

impl<O, M> OpenAIEventMappedStream<O, M> where M: Fn(MessageEvent) -> Result<O, OpenAIError> {
    /// Has the adapter reached its terminal state?
    pub closed spec fn done(&self) -> bool {
        self.done
    }

    /// The mapper that the adapter was made with.
    pub closed spec fn mapper(&self) -> M {
        self.event_mapper
    }

    /// An adapter in its initial state, `Active`.
    pub fn new(event_mapper: M) -> (stream: Self)
        ensures
            !stream.done(),
            stream.mapper() == event_mapper,
    {
        OpenAIEventMappedStream { event_mapper, done: false, _phantom_data: PhantomData }
    }

    /// Has the adapter reached its terminal state? Once it has, the
    /// connection need not be polled any more.
    pub fn is_done(&self) -> (b: bool)
        ensures
            b == self.done(),
    {
        self.done
    }

    /// One pull: what the consumer gets for what polling the connection gave.
    ///
    /// The mapper is called at most once, and only with a record that
    /// arrives while the adapter is active.
    pub fn poll_next(&mut self, polled: Option<Result<Event, String>>) -> (pull: Pull<O>)
        requires
            !old(self).done() ==> (polled matches Some(Ok(Event::Message(record))) ==> old(
                self,
            ).mapper().requires((record,))),
        ensures
            final(self).mapper() == old(self).mapper(),
            settled::<O>(old(self).done(), signal_of(polled)) matches Some(step) ==> (
                final(self).done(),
                pull.outcome(),
            ) == step,
            settled::<O>(old(self).done(), signal_of(polled)) is None ==> exists|
                mapped: Result<O, OpenAIError>,
            |
                #[trigger] old(self).mapper().ensures((polled->Some_0->Ok_0->Message_0,), mapped)
                    && (final(self).done(), pull.outcome()) == mapped_step(
                    old(self).done(),
                    signal_of(polled),
                    mapped,
                ),
    {
        if self.done {
            return Pull::End;
        }
        match polled {
            None => Pull::End,
            Some(Ok(Event::Open)) => Pull::Again,
            Some(Ok(Event::Message(message))) => {
                if is_sentinel(&message.data) {
                    self.done = true;
                }
                match (self.event_mapper)(message) {
                    Ok(item) => Pull::Item(Ok(item)),
                    Err(_) => {
                        self.done = true;
                        Pull::End
                    },
                }
            },
            Some(Err(why)) => {
                self.done = true;
                Pull::Item(Err(OpenAIError::StreamError(why)))
            },
        }
    }
}

} // verus!
