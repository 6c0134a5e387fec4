//! What sequences of events lead to: theorems about the client.

use vstd::prelude::*;

use crate::client::{
    lemma_step_keeps_wf, lemma_submit_keeps_wf, Action, Event, Followup, Model, Operation, State,
    CONNECT_ATTEMPTS, RETRY_DELAY_SECS, STATUS_TIMEOUT_SECS,
};
use crate::commands::Command;
use crate::error::{Error, ProtocolError, TransportError};
use crate::status::decoded;

verus! {

/// A failed client is failed for good: every event and every operation is
/// refused with `ConnectionState`, and the client stays as it is.
pub proof fn lemma_failed_is_final(model: Model, event: Event, operation: Operation)
    requires
        model.state is Failed,
    ensures
        model.step(event) == (model, Action::Fail(Error::ConnectionState)),
        model.submit(operation) == (model, Action::Fail(Error::ConnectionState)),
{
}

/// An operation is begun by asking whether the device is connected, or it
/// is refused and nothing changes. A client that is busy begins none.
pub proof fn lemma_submit_begins_or_refuses(model: Model, operation: Operation)
    ensures
        model.submit(operation).1 == Action::IsConnected || model.submit(operation) == (
            model,
            Action::Fail(Error::ConnectionState),
        ),
        model.submit(operation).1 == Action::IsConnected ==> (model.state is Ready
            || model.state is Disconnected) && model.submit(operation).0.state == State::Probing(
            operation,
        ),
{
}

/// A connect attempt that fails is followed by a wait and another attempt
/// while fewer than three have failed; the third failure fails the client
/// with `ConnectionFailed`.
pub proof fn lemma_failed_attempt(model: Model, operation: Operation, failures: u8)
    requires
        model.state == (State::Connecting { operation, failures }),
        failures < CONNECT_ATTEMPTS,
    ensures
        failures + 1 == CONNECT_ATTEMPTS ==> model.step(Event::ConnectFailed) == model.fail(
            Error::Transport(TransportError::ConnectionFailed),
        ),
        failures + 1 < CONNECT_ATTEMPTS ==> ({
            let (waiting, wait) = model.step(Event::ConnectFailed);
            let (connecting, connect) = waiting.step(Event::DelayElapsed);
            &&& wait == Action::Wait { seconds: RETRY_DELAY_SECS }
            &&& connect == Action::Connect
            &&& connecting == model.at(
                State::Connecting { operation, failures: (failures + 1) as u8 },
            )
        }),
{
}

/// A device that is not connected and refuses three connect attempts
/// fails the client with `ConnectionFailed`. Three attempts are made, with
/// a wait after the first and after the second, and none after the third.
pub proof fn lemma_three_failed_attempts(model: Model, operation: Operation)
    requires
        model.state == State::Probing(operation),
    ensures
        ({
            let (m1, a1) = model.step(Event::Connected(false));
            let (m2, a2) = m1.step(Event::ConnectFailed);
            let (m3, a3) = m2.step(Event::DelayElapsed);
            let (m4, a4) = m3.step(Event::ConnectFailed);
            let (m5, a5) = m4.step(Event::DelayElapsed);
            let (m6, a6) = m5.step(Event::ConnectFailed);
            &&& a1 == Action::Connect
            &&& a2 == Action::Wait { seconds: RETRY_DELAY_SECS }
            &&& a3 == Action::Connect
            &&& a4 == Action::Wait { seconds: RETRY_DELAY_SECS }
            &&& a5 == Action::Connect
            &&& a6 == Action::Fail(Error::Transport(TransportError::ConnectionFailed))
            &&& m6.state == State::Failed(Error::Transport(TransportError::ConnectionFailed))
        }),
{
}

/// Once the device is connected, at the first asking or after an attempt
/// that succeeded, the operation goes on in the same way.
pub proof fn lemma_connected_proceeds(model: Model, operation: Operation, failures: u8)
    ensures
        model.state == State::Probing(operation) ==> model.step(Event::Connected(true))
            == model.proceed(operation),
        model.state == (State::Connecting { operation, failures }) ==> model.step(
            Event::ConnectSucceeded,
        ) == model.proceed(operation),
{
}

/// A frame is written after a subscription only: where the answer to an
/// event is to write a frame whose notifications will be read, the event
/// was that the subscription stands. So no notification that answers the
/// frame can be lost.
pub proof fn lemma_subscribed_before_written(model: Model, event: Event)
    requires
        model.step(event).1 is Write,
        model.step(event).0.state != State::Writing(Followup::Done),
    ensures
        model.state is Subscribing,
        event is Subscribed,
        model.step(event).1 == Action::Write(model.state->Subscribing_frame),
{
}

/// The frame written for a command is the frame the codec of the client
/// encodes it to, and a command the codec refuses is never written.
pub proof fn lemma_send_writes_encoded(model: Model, command: Command)
    ensures
        model.proceed(Operation::Send(command)).1 == (match model.codec.encoded(command) {
            Ok(frame) => Action::Write(frame),
            Err(error) => Action::Fail(Error::Protocol(error)),
        }),
        model.proceed(Operation::Notify(command)).1 == (match model.codec.encoded(command) {
            Ok(frame) => Action::Subscribe,
            Err(error) => Action::Fail(Error::Protocol(error)),
        }),
{
}

/// Sending a command to a connected device takes one write: the client
/// asks whether the device is connected, writes the frame the codec
/// encodes the command to, and is ready again, unchanged.
pub proof fn lemma_send_on_a_connected_device(model: Model, command: Command)
    requires
        model.state is Ready,
        command.in_range(),
    ensures
        ({
            let (m1, a1) = model.submit(Operation::Send(command));
            let (m2, a2) = m1.step(Event::Connected(true));
            let (m3, a3) = m2.step(Event::Written);
            &&& a1 == Action::IsConnected
            &&& a2 == Action::Write(model.codec.frame_of(command))
            &&& a3 == Action::Sent
            &&& m3 == model
        }),
{
}

/// A status query on a connected device subscribes first and writes
/// second: the client asks whether the device is connected, subscribes to
/// the notifications, writes the frame of the status query and then asks
/// for the first notification, with no status byte in hand.
pub proof fn lemma_query_on_a_connected_device(model: Model)
    requires
        model.state is Ready,
        model.received.len() == 0,
    ensures
        ({
            let (m1, a1) = model.submit(Operation::Query);
            let (m2, a2) = m1.step(Event::Connected(true));
            let (m3, a3) = m2.step(Event::Subscribed);
            let (m4, a4) = m3.step(Event::Written);
            &&& a1 == Action::IsConnected
            &&& a2 == Action::Subscribe
            &&& a3 == Action::Write(model.codec.frame_of(Command::Status))
            &&& a4 == Action::NextNotification { seconds: STATUS_TIMEOUT_SECS }
            &&& m4 == model.at(State::Receiving)
        }),
{
}

/// The client after some events, in order.
pub open spec fn run(model: Model, events: Seq<Event>) -> Model
    decreases events.len(),
{
    if events.len() == 0 {
        model
    } else {
        run(model, events.drop_last()).step(events.last()).0
    }
}

/// How many connect attempts the client asks for in answer to some
/// events.
pub open spec fn attempts(model: Model, events: Seq<Event>) -> nat
    decreases events.len(),
{
    if events.len() == 0 {
        0
    } else {
        let before = attempts(model, events.drop_last());
        if run(model, events.drop_last()).step(events.last()).1 is Connect {
            before + 1
        } else {
            before
        }
    }
}

/// How many connect attempts a client may still ask for before its
/// operation goes on or fails.
pub open spec fn attempts_left(state: State) -> nat {
    match state {
        State::Probing(_) => CONNECT_ATTEMPTS as nat,
        State::Connecting { failures, .. } => (CONNECT_ATTEMPTS - 1 - failures) as nat,
        State::Waiting { failures, .. } => (CONNECT_ATTEMPTS - failures) as nat,
        _ => 0,
    }
}

/// Whatever happens, a client stays well formed, and every connect
/// attempt it asks for is one fewer that it may still ask for.
pub proof fn lemma_attempts_are_spent(model: Model, events: Seq<Event>)
    requires
        model.wf(),
    ensures
        run(model, events).wf(),
        attempts(model, events) + attempts_left(run(model, events).state) <= attempts_left(
            model.state,
        ),
    decreases events.len(),
{
    if events.len() > 0 {
        lemma_attempts_are_spent(model, events.drop_last());
        lemma_step_keeps_wf(run(model, events.drop_last()), events.last());
    }
}

/// No operation makes more than three connect attempts: from the moment
/// an operation begins, whatever the transport answers and however long
/// it goes on, the client asks for a connection three times at most.
pub proof fn lemma_three_attempts_at_most(model: Model, operation: Operation, events: Seq<Event>)
    requires
        model.wf(),
        model.submit(operation).1 is IsConnected,
    ensures
        attempts(model.submit(operation).0, events) <= CONNECT_ATTEMPTS,
{
    lemma_submit_keeps_wf(model, operation);
    lemma_attempts_are_spent(model.submit(operation).0, events);
}

/// The bytes of some chunks, one after the other.
pub open spec fn joined(chunks: Seq<Vec<u8>>) -> Seq<u8>
    decreases chunks.len(),
{
    if chunks.len() == 0 {
        Seq::empty()
    } else {
        joined(chunks.drop_last()) + chunks.last()@
    }
}

/// The client after some chunks have arrived as notifications, in order.
pub open spec fn after_chunks(model: Model, chunks: Seq<Vec<u8>>) -> Model
    decreases chunks.len(),
{
    if chunks.len() == 0 {
        model
    } else {
        after_chunks(model, chunks.drop_last()).step(Event::Notification(chunks.last())).0
    }
}

/// While fewer than eight status bytes have arrived, the client keeps
/// them in the order of their arrival and goes on receiving.
pub proof fn lemma_short_status_is_kept(model: Model, chunks: Seq<Vec<u8>>)
    requires
        model.state is Receiving,
        model.received.len() + joined(chunks).len() < 8,
    ensures
        after_chunks(model, chunks) == (Model {
            received: model.received + joined(chunks),
            ..model
        }),
    decreases chunks.len(),
{
    if chunks.len() == 0 {
        assert(model.received + joined(chunks) =~= model.received);
    } else {
        let before = chunks.drop_last();
        lemma_short_status_is_kept(model, before);
        let kept = after_chunks(model, before);
        assert(kept.received + chunks.last()@ =~= model.received + joined(chunks));
    }
}

/// If the notifications end before eight status bytes have arrived, or
/// the next one does not arrive in time, the query fails with
/// `IncompleteStatus`, however the bytes were cut into chunks, and nothing
/// is decoded. The client is ready again.
pub proof fn lemma_short_status_is_incomplete(model: Model, chunks: Seq<Vec<u8>>)
    requires
        model.state is Receiving,
        model.received.len() + joined(chunks).len() < 8,
    ensures
        after_chunks(model, chunks).step(Event::StreamEnded) == model.reject(
            Error::Protocol(ProtocolError::IncompleteStatus),
        ),
        after_chunks(model, chunks).step(Event::TimedOut) == model.reject(
            Error::Protocol(ProtocolError::IncompleteStatus),
        ),
{
    lemma_short_status_is_kept(model, chunks);
}

/// The chunk that brings the status bytes to eight or more ends the
/// query: all bytes that have arrived, in the order of their arrival, are
/// decoded, and the status or the error of the decoder is the outcome.
/// The client is ready again.
pub proof fn lemma_whole_status_is_decoded(model: Model, chunks: Seq<Vec<u8>>, last: Vec<u8>)
    requires
        model.state is Receiving,
        model.received.len() + joined(chunks).len() < 8,
        model.received.len() + joined(chunks).len() + last@.len() >= 8,
    ensures
        ({
            let all = model.received + joined(chunks) + last@;
            let (ready, outcome) = after_chunks(model, chunks).step(Event::Notification(last));
            &&& ready == Model { state: State::Ready, received: Seq::empty(), ..model }
            &&& outcome == match decoded(all) {
                Ok(status) => Action::Status(status),
                Err(error) => Action::Fail(Error::Protocol(error)),
            }
        }),
{
    lemma_short_status_is_kept(model, chunks);
}

} // verus!
