//! What a consumer observes over the life of a connection.
//!
//! A trace is the outcome of every pull when the connection delivers a
//! given sequence of signals, one to a pull. The theorems below are about
//! whole traces of both adapters.

use crate::error::{deserialization_failure, OpenAIError};
use crate::stream::{
    mapped_step, payload, sentinel, settled, typed_step, MessageEventView, Outcome, Signal,
};
use vstd::prelude::*;
use vstd::utf8::encode_utf8;

verus! {

/// The typed adapter with a decoder that makes `decode(p)` of a payload `p`:
/// from state and signal to next state and outcome.
pub open spec fn typed_adapter<O>(
    decode: spec_fn(Seq<char>) -> Result<O, serde_json::Error>,
) -> spec_fn(bool, Signal) -> (bool, Outcome<O>) {
    |done: bool, signal: Signal| typed_step(done, signal, decode(payload(signal)))
}

/// The mapped adapter with a mapper that makes `mapper(r)` of a record `r`.
pub open spec fn mapped_adapter<O>(
    mapper: spec_fn(MessageEventView) -> Result<O, OpenAIError>,
) -> spec_fn(bool, Signal) -> (bool, Outcome<O>) {
    |done: bool, signal: Signal| mapped_step(done, signal, mapper(signal->Message_0))
}

/// Does `step` treat the signals that need no look at a payload as both
/// adapters do?
pub open spec fn is_adapter<O>(step: spec_fn(bool, Signal) -> (bool, Outcome<O>)) -> bool {
    forall|done: bool, signal: Signal|
        settled::<O>(done, signal) is Some ==> #[trigger] step(done, signal) == settled::<O>(
            done,
            signal,
        )->0
}

/// The state after the signals, from the state `done`.
pub open spec fn state_after<O>(
    step: spec_fn(bool, Signal) -> (bool, Outcome<O>),
    done: bool,
    signals: Seq<Signal>,
) -> bool
    decreases signals.len(),
{
    if signals.len() == 0 {
        done
    } else {
        state_after(step, step(done, signals[0]).0, signals.drop_first())
    }
}

/// The outcome of each pull, from the state `done`.
pub open spec fn trace<O>(
    step: spec_fn(bool, Signal) -> (bool, Outcome<O>),
    done: bool,
    signals: Seq<Signal>,
) -> Seq<Outcome<O>>
    decreases signals.len(),
{
    if signals.len() == 0 {
        Seq::empty()
    } else {
        seq![step(done, signals[0]).1] + trace(
            step,
            step(done, signals[0]).0,
            signals.drop_first(),
        )
    }
}

/// The outcomes that hand the consumer something, a value or a failure, in
/// order.
pub open spec fn items<O>(outcomes: Seq<Outcome<O>>) -> Seq<Outcome<O>>
    decreases outcomes.len(),
{
    if outcomes.len() == 0 {
        Seq::empty()
    } else if outcomes[0] is Item || outcomes[0] is Failed {
        seq![outcomes[0]] + items(outcomes.drop_first())
    } else {
        items(outcomes.drop_first())
    }
}

/// The signals but those that say that the connection was opened.
pub open spec fn without_open(signals: Seq<Signal>) -> Seq<Signal>
    decreases signals.len(),
{
    if signals.len() == 0 {
        Seq::empty()
    } else if signals[0] is Open {
        without_open(signals.drop_first())
    } else {
        seq![signals[0]] + without_open(signals.drop_first())
    }
}

/// A trace has one outcome for each signal.
pub proof fn trace_len<O>(
    step: spec_fn(bool, Signal) -> (bool, Outcome<O>),
    done: bool,
    signals: Seq<Signal>,
)
    ensures
        trace(step, done, signals).len() == signals.len(),
    decreases signals.len(),
{
    if signals.len() > 0 {
        trace_len(step, step(done, signals[0]).0, signals.drop_first());
    }
}

/// The trace of signals in two parts is the trace of the first part, then
/// the trace of the second from the state that the first part left.
pub proof fn trace_concat<O>(
    step: spec_fn(bool, Signal) -> (bool, Outcome<O>),
    done: bool,
    first: Seq<Signal>,
    second: Seq<Signal>,
)
    ensures
        trace(step, done, first + second) == trace(step, done, first) + trace(
            step,
            state_after(step, done, first),
            second,
        ),
        state_after(step, done, first + second) == state_after(
            step,
            state_after(step, done, first),
            second,
        ),
    decreases first.len(),
{
    if first.len() == 0 {
        assert(first + second == second);
    } else {
        let next = step(done, first[0]).0;
        assert((first + second).drop_first() == first.drop_first() + second);
        trace_concat(step, next, first.drop_first(), second);
    }
}

/// The outcome of a pull is what the adapter makes of that pull's signal in
/// the state that the signals before it left.
pub proof fn trace_index<O>(
    step: spec_fn(bool, Signal) -> (bool, Outcome<O>),
    done: bool,
    signals: Seq<Signal>,
    i: int,
)
    requires
        0 <= i < signals.len(),
    ensures
        trace(step, done, signals).len() == signals.len(),
        trace(step, done, signals)[i] == step(
            state_after(step, done, signals.take(i)),
            signals[i],
        ).1,
        state_after(step, done, signals.take(i + 1)) == step(
            state_after(step, done, signals.take(i)),
            signals[i],
        ).0,
    decreases i,
{
    reveal_with_fuel(state_after, 3);
    trace_len(step, done, signals);
    let next = step(done, signals[0]).0;
    let rest = signals.drop_first();
    trace_len(step, next, rest);
    if i == 0 {
        assert(signals.take(0).len() == 0);
        assert(signals.take(1).drop_first().len() == 0);
        assert(signals.take(1)[0] == signals[0]);
    } else {
        trace_index(step, next, rest, i - 1);
        assert(signals.take(i).drop_first() == rest.take(i - 1));
        assert(signals.take(i + 1).drop_first() == rest.take(i));
        assert(signals.take(i)[0] == signals[0]);
        assert(signals.take(i + 1)[0] == signals[0]);
    }
}

/// The terminal state is final: an adapter that is done stays done and ends
/// every pull, whatever the connection still delivers.
pub proof fn done_is_final<O>(
    step: spec_fn(bool, Signal) -> (bool, Outcome<O>),
    signals: Seq<Signal>,
)
    requires
        is_adapter(step),
    ensures
        state_after(step, true, signals),
        trace(step, true, signals).len() == signals.len(),
        forall|i: int| 0 <= i < signals.len() ==> trace(step, true, signals)[i] == Outcome::<O>::End,
    decreases signals.len(),
{
    trace_len(step, true, signals);
    if signals.len() > 0 {
        assert(settled::<O>(true, signals[0]) is Some);
        assert(step(true, signals[0]) == (true, Outcome::<O>::End));
        done_is_final(step, signals.drop_first());
        let rest = trace(step, true, signals.drop_first());
        assert forall|i: int| 0 <= i < signals.len() implies trace(step, true, signals)[i]
            == Outcome::<O>::End by {
            if i > 0 {
                assert(trace(step, true, signals)[i] == rest[i - 1]);
            }
        }
    }
}

/// An adapter that was done at some point is done ever after.
pub proof fn done_persists<O>(
    step: spec_fn(bool, Signal) -> (bool, Outcome<O>),
    done: bool,
    signals: Seq<Signal>,
    i: int,
    j: int,
)
    requires
        is_adapter(step),
        0 <= i <= j <= signals.len(),
        state_after(step, done, signals.take(i)),
    ensures
        state_after(step, done, signals.take(j)),
{
    let head = signals.take(i);
    let tail = signals.subrange(i, j);
    assert(signals.take(j) == head + tail);
    trace_concat(step, done, head, tail);
    done_is_final(step, tail);
}

/// Once an adapter is done, the sequence has ended: where pull `i` left the
/// adapter in its terminal state, every later pull ends the sequence.
pub proof fn stays_ended<O>(
    step: spec_fn(bool, Signal) -> (bool, Outcome<O>),
    done: bool,
    signals: Seq<Signal>,
    i: int,
    j: int,
)
    requires
        is_adapter(step),
        0 <= i < j < signals.len(),
        state_after(step, done, signals.take(i + 1)),
    ensures
        trace(step, done, signals).len() == signals.len(),
        trace(step, done, signals)[j] == Outcome::<O>::End,
{
    done_persists(step, done, signals, i + 1, j);
    trace_index(step, done, signals, j);
    assert(settled::<O>(true, signals[j]) is Some);
}

/// The typed adapter ends for good: once a pull has ended the sequence or
/// handed the consumer a failure, every later pull ends the sequence and
/// hands over nothing, as long as a connection that reported its end keeps
/// reporting it.
pub proof fn typed_end_is_final<O>(
    decode: spec_fn(Seq<char>) -> Result<O, serde_json::Error>,
    signals: Seq<Signal>,
    i: int,
    j: int,
)
    requires
        0 <= i < j < signals.len(),
        trace(typed_adapter(decode), false, signals)[i] is End || trace(
            typed_adapter(decode),
            false,
            signals,
        )[i] is Failed,
        signals[i] is Closed ==> forall|k: int| i < k <= j ==> signals[k] is Closed,
    ensures
        trace(typed_adapter(decode), false, signals).len() == signals.len(),
        trace(typed_adapter(decode), false, signals)[j] == Outcome::<O>::End,
{
    let step = typed_adapter(decode);
    typed_is_adapter(decode);
    trace_index(step, false, signals, i);
    trace_index(step, false, signals, j);
    if state_after(step, false, signals.take(i + 1)) {
        stays_ended(step, false, signals, i, j);
    } else {
        assert(signals[i] is Closed);
        assert(signals[j] is Closed);
    }
}

/// The mapped adapter ends for good: once a pull has ended the sequence,
/// be it on a failure of the mapper, or handed the consumer a failure, or
/// read the sentinel, every later pull ends the sequence and hands over
/// nothing, as long as a connection that reported its end keeps reporting
/// it.
pub proof fn mapped_end_is_final<O>(
    mapper: spec_fn(MessageEventView) -> Result<O, OpenAIError>,
    signals: Seq<Signal>,
    i: int,
    j: int,
)
    requires
        0 <= i < j < signals.len(),
        trace(mapped_adapter(mapper), false, signals)[i] is End || trace(
            mapped_adapter(mapper),
            false,
            signals,
        )[i] is Failed || (signals[i] is Message && payload(signals[i]) == sentinel()),
        signals[i] is Closed ==> forall|k: int| i < k <= j ==> signals[k] is Closed,
    ensures
        trace(mapped_adapter(mapper), false, signals).len() == signals.len(),
        trace(mapped_adapter(mapper), false, signals)[j] == Outcome::<O>::End,
{
    let step = mapped_adapter(mapper);
    mapped_is_adapter(mapper);
    trace_index(step, false, signals, i);
    trace_index(step, false, signals, j);
    if state_after(step, false, signals.take(i + 1)) {
        stays_ended(step, false, signals, i, j);
    } else {
        assert(signals[i] is Closed);
        assert(signals[j] is Closed);
    }
}

/// A failure of the mapper ends the sequence silently and for good: the
/// pull that hands the mapper a record it fails on ends the sequence without
/// an item, and so does every later pull, whatever the connection still
/// delivers.
pub proof fn mapper_failure_is_final<O>(
    mapper: spec_fn(MessageEventView) -> Result<O, OpenAIError>,
    signals: Seq<Signal>,
    i: int,
)
    requires
        0 <= i < signals.len(),
        !state_after(mapped_adapter(mapper), false, signals.take(i)),
        signals[i] is Message,
        mapper(signals[i]->Message_0) is Err,
    ensures
        trace(mapped_adapter(mapper), false, signals).len() == signals.len(),
        forall|j: int|
            i <= j < signals.len() ==> #[trigger] trace(mapped_adapter(mapper), false, signals)[j]
                == Outcome::<O>::End,
{
    let step = mapped_adapter(mapper);
    mapped_is_adapter(mapper);
    trace_index(step, false, signals, i);
    assert forall|j: int| i <= j < signals.len() implies #[trigger] trace(step, false, signals)[j]
        == Outcome::<O>::End by {
        if i < j {
            stays_ended(step, false, signals, i, j);
        }
    }
}

/// The typed adapter treats the signals that need no look at a payload as
/// every adapter does.
pub proof fn typed_is_adapter<O>(decode: spec_fn(Seq<char>) -> Result<O, serde_json::Error>)
    ensures
        is_adapter(typed_adapter(decode)),
{
}

/// The mapped adapter treats the signals that need no look at a payload as
/// every adapter does.
pub proof fn mapped_is_adapter<O>(mapper: spec_fn(MessageEventView) -> Result<O, OpenAIError>)
    ensures
        is_adapter(mapped_adapter(mapper)),
{
}

/// Open events are filtered out: with them or without, the consumer is
/// handed the same items in the same order, and the adapter ends in the same
/// state.
pub proof fn open_is_filtered<O>(
    step: spec_fn(bool, Signal) -> (bool, Outcome<O>),
    done: bool,
    signals: Seq<Signal>,
)
    requires
        is_adapter(step),
    ensures
        items(trace(step, done, signals)) == items(trace(step, done, without_open(signals))),
        state_after(step, done, signals) == state_after(step, done, without_open(signals)),
    decreases signals.len(),
{
    if signals.len() > 0 {
        let first = signals[0];
        let rest = signals.drop_first();
        let next = step(done, first).0;
        let outcome = step(done, first).1;
        let tail = trace(step, next, rest);
        assert((seq![outcome] + tail).drop_first() == tail);
        if first is Open {
            assert(settled::<O>(done, first) is Some);
            assert(next == done);
            open_is_filtered(step, done, rest);
        } else {
            let kept = without_open(rest);
            let kept_tail = trace(step, next, kept);
            open_is_filtered(step, next, rest);
            assert((seq![first] + kept).drop_first() == kept);
            assert((seq![outcome] + kept_tail).drop_first() == kept_tail);
        }
    }
}

/// The records as the signals that deliver them.
pub open spec fn delivered(records: Seq<MessageEventView>) -> Seq<Signal> {
    records.map_values(|record: MessageEventView| Signal::Message(record))
}

/// The value that each record decodes to, as the item of a pull.
pub open spec fn decoded_items<O>(
    decode: spec_fn(Seq<char>) -> Result<O, serde_json::Error>,
    records: Seq<MessageEventView>,
) -> Seq<Outcome<O>> {
    records.map_values(|record: MessageEventView| Outcome::Item(decode(record.data)->Ok_0))
}

/// Does every record carry a payload that is not the sentinel and that the
/// decoder can read?
pub open spec fn all_decode<O>(
    decode: spec_fn(Seq<char>) -> Result<O, serde_json::Error>,
    records: Seq<MessageEventView>,
) -> bool {
    forall|i: int|
        0 <= i < records.len() ==> (#[trigger] records[i]).data != sentinel() && decode(
            records[i].data,
        ) is Ok
}

/// Records that decode come out as their values, one item to a record and in
/// the order of arrival, and leave the typed adapter active.
pub proof fn records_come_out_in_order<O>(
    decode: spec_fn(Seq<char>) -> Result<O, serde_json::Error>,
    records: Seq<MessageEventView>,
)
    requires
        all_decode(decode, records),
    ensures
        trace(typed_adapter(decode), false, delivered(records)) == decoded_items(decode, records),
        !state_after(typed_adapter(decode), false, delivered(records)),
    decreases records.len(),
{
    let step = typed_adapter(decode);
    let signals = delivered(records);
    if records.len() == 0 {
        assert(trace(step, false, signals) == decoded_items(decode, records));
    } else {
        let rest = records.drop_first();
        assert(records[0].data != sentinel() && decode(records[0].data) is Ok);
        assert forall|i: int| 0 <= i < rest.len() implies (#[trigger] rest[i]).data != sentinel()
            && decode(rest[i].data) is Ok by {
            assert(rest[i] == records[i + 1]);
        }
        records_come_out_in_order(decode, rest);
        assert(signals.drop_first() == delivered(rest));
        assert(signals[0] == Signal::Message(records[0]));
        assert(step(false, signals[0]) == (false, Outcome::Item(decode(records[0].data)->Ok_0)));
        assert(seq![Outcome::Item(decode(records[0].data)->Ok_0)] + decoded_items(decode, rest)
            == decoded_items(decode, records));
    }
}

/// The sentinel ends the stream in good order: where every record decodes
/// and the sentinel follows them, the typed adapter hands over the value of
/// each record, in order, then ends the sequence, and no pull fails.
pub proof fn sentinel_ends_stream<O>(
    decode: spec_fn(Seq<char>) -> Result<O, serde_json::Error>,
    records: Seq<MessageEventView>,
    last: MessageEventView,
)
    requires
        all_decode(decode, records),
        last.data == sentinel(),
    ensures
        trace(typed_adapter(decode), false, delivered(records) + seq![Signal::Message(last)])
            == decoded_items(decode, records) + seq![Outcome::End],
        state_after(typed_adapter(decode), false, delivered(records) + seq![Signal::Message(last)]),
{
    let step = typed_adapter(decode);
    let end = seq![Signal::Message(last)];
    reveal_with_fuel(trace, 3);
    reveal_with_fuel(state_after, 3);
    records_come_out_in_order(decode, records);
    trace_concat(step, false, delivered(records), end);
    assert(end.drop_first().len() == 0);
    assert(step(false, end[0]) == (true, Outcome::<O>::End));
    assert(trace(step, false, end) == seq![Outcome::<O>::End]);
}

/// A payload that cannot be decoded is surfaced once: the pull that reads it
/// hands the consumer the failure to deserialize, with the payload's bytes,
/// and every later pull ends the sequence.
pub proof fn failure_is_surfaced_once<O>(
    decode: spec_fn(Seq<char>) -> Result<O, serde_json::Error>,
    signals: Seq<Signal>,
    i: int,
)
    requires
        0 <= i < signals.len(),
        !state_after(typed_adapter(decode), false, signals.take(i)),
        signals[i] is Message,
        payload(signals[i]) != sentinel(),
        decode(payload(signals[i])) is Err,
    ensures
        trace(typed_adapter(decode), false, signals).len() == signals.len(),
        trace(typed_adapter(decode), false, signals)[i] == Outcome::<O>::Failed(
            deserialization_failure(
                decode(payload(signals[i]))->Err_0,
                encode_utf8(payload(signals[i])),
            ),
        ),
        forall|j: int|
            i < j < signals.len() ==> #[trigger] trace(typed_adapter(decode), false, signals)[j]
                == Outcome::<O>::End,
{
    let step = typed_adapter(decode);
    typed_is_adapter(decode);
    trace_index(step, false, signals, i);
    assert forall|j: int| i < j < signals.len() implies #[trigger] trace(step, false, signals)[j]
        == Outcome::<O>::End by {
        stays_ended(step, false, signals, i, j);
    }
}

} // verus!
