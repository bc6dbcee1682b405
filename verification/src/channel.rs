//! The channels over which a session reports to the tasks that wait for it.
//!
//! Three kinds of channel are in use: one carries the answer to a connection
//! attempt, one the acknowledgement of a request, one the events of the
//! session. The channels are those of the `async_channel` crate. A receiver
//! may be read or dropped by another task at any time, so nothing is said of
//! what a channel holds at a given moment; what is said of a sender is which
//! messages it has offered to its channel so far, and how the channel answered
//! each of them.
//!
//! That is the whole history of the channel: it has one sender only. The sender
//! is made with the channel, in a type that cannot be cloned ([`StatusSender`],
//! [`MidSender`], [`EventSender`]) and that lends it to nobody; whoever sends
//! has that type lent mutably.
use async_channel::{Receiver, Sender, TrySendError};
use vstd::prelude::*;

use crate::message::{Event, EventView};
use crate::types::{ConnectionStatus, MessageId};

verus! {

/// The sending end of a channel of `async_channel`.
#[verifier::external_type_specification]
#[verifier::external_body]
#[verifier::reject_recursive_types(T)]
pub struct ExSender<T>(async_channel::Sender<T>);

/// The receiving end of a channel of `async_channel`.
#[verifier::external_type_specification]
#[verifier::external_body]
#[verifier::reject_recursive_types(T)]
pub struct ExReceiver<T>(async_channel::Receiver<T>);

/// The only sender of a channel for the answer to a connection attempt.
pub struct StatusSender {
    tx: Sender<ConnectionStatus>,
}

/// The only sender of a channel for the acknowledgement of a request.
pub struct MidSender {
    tx: Sender<MessageId>,
}

/// The only sender of a channel for the events of a session.
pub struct EventSender {
    tx: Sender<Event>,
}

impl View for StatusSender {
    type V = Sender<ConnectionStatus>;

    closed spec fn view(&self) -> Sender<ConnectionStatus> {
        self.tx
    }
}

impl View for MidSender {
    type V = Sender<MessageId>;

    closed spec fn view(&self) -> Sender<MessageId> {
        self.tx
    }
}

impl View for EventSender {
    type V = Sender<Event>;

    closed spec fn view(&self) -> Sender<Event> {
        self.tx
    }
}

/// How a channel answered a message that was offered to it.
#[derive(Debug, Copy, Clone, Eq, PartialEq, Structural)]
pub enum Answer {
    /// The channel took the message.
    Taken,
    /// The channel had no room for the message.
    Full,
    /// The channel is closed: nobody is left who could receive the message.
    Closed,
}

/// The answers to a connection attempt that a sender, the only one of its
/// channel, has offered to it, oldest first, each with what came of it.
pub uninterp spec fn offered_statuses(tx: Sender<ConnectionStatus>) -> Seq<
    (ConnectionStatus, Answer),
>;

/// The acknowledgements that a sender, the only one of its channel, has offered
/// to it, oldest first, each with what came of it.
pub uninterp spec fn offered_mids(tx: Sender<MessageId>) -> Seq<(MessageId, Answer)>;

/// The events that a sender, the only one of its channel, has offered to it,
/// oldest first, each with what came of it.
pub uninterp spec fn offered_events(tx: Sender<Event>) -> Seq<(EventView, Answer)>;

/// How many answers the channel of a sender holds at most, if it has a limit.
pub uninterp spec fn room_statuses(tx: Sender<ConnectionStatus>) -> Option<nat>;

/// How many acknowledgements the channel of a sender holds at most, if it has
/// a limit.
pub uninterp spec fn room_mids(tx: Sender<MessageId>) -> Option<nat>;

/// How many events the channel of a sender holds at most, if it has a limit.
pub uninterp spec fn room_events(tx: Sender<Event>) -> Option<nat>;

/// Whether the two are ends of the same channel.
pub uninterp spec fn joined_statuses(
    tx: Sender<ConnectionStatus>,
    rx: Receiver<ConnectionStatus>,
) -> bool;

/// Whether the two are ends of the same channel.
pub uninterp spec fn joined_mids(tx: Sender<MessageId>, rx: Receiver<MessageId>) -> bool;

/// Whether the two are ends of the same channel.
pub uninterp spec fn joined_events(tx: Sender<Event>, rx: Receiver<Event>) -> bool;

/// Whether nobody has called `close` on the channel of a receiver. The crate
/// calls it on neither end of a channel, lends no receiver of events, and gets
/// none back that it has given away; so this holds of such a receiver for as
/// long as the crate keeps it.
pub uninterp spec fn unclosed_events(rx: Receiver<Event>) -> bool;

/// Whether a sender was dropped as it is: it offers nothing more, and as it
/// was the only one, its channel is closed to whoever still receives from it.
pub uninterp spec fn dropped_statuses(tx: Sender<ConnectionStatus>) -> bool;

/// Whether a sender was dropped as it is: it offers nothing more, and as it
/// was the only one, its channel is closed to whoever still receives from it.
pub uninterp spec fn dropped_mids(tx: Sender<MessageId>) -> bool;

/// Whether a sender was dropped as it is: it offers nothing more, and as it
/// was the only one, its channel is closed to whoever still receives from it.
pub uninterp spec fn dropped_events(tx: Sender<Event>) -> bool;

/// The messages that were offered, whatever came of them.
pub open spec fn messages<T>(offers: Seq<(T, Answer)>) -> Seq<T> {
    offers.map_values(|offer: (T, Answer)| offer.0)
}

/// The messages that were taken.
pub open spec fn taken<T>(offers: Seq<(T, Answer)>) -> Seq<T>
    decreases offers.len(),
{
    if offers.len() == 0 {
        Seq::empty()
    } else if offers.last().1 is Taken {
        taken(offers.drop_last()).push(offers.last().0)
    } else {
        taken(offers.drop_last())
    }
}

/// `after` are the offers `before` and one more, of `message`, to a channel
/// with the given room: only a channel that has taken as many messages as it
/// has room for can be full, and a closed channel stays closed.
pub open spec fn one_more<T>(
    before: Seq<(T, Answer)>,
    after: Seq<(T, Answer)>,
    message: T,
    room: Option<nat>,
) -> bool {
    let answer = after.last().1;
    &&& after == before.push((message, answer))
    &&& answer is Full ==> room is Some && taken(before).len() >= room->0
    &&& before.len() > 0 && before.last().1 is Closed ==> answer is Closed
}

/// How the channel answered the last offer of a sender.
pub open spec fn status_answer(tx: Sender<ConnectionStatus>) -> Answer {
    offered_statuses(tx).last().1
}

/// How the channel answered the last offer of a sender.
pub open spec fn mid_answer(tx: Sender<MessageId>) -> Answer {
    offered_mids(tx).last().1
}

/// How the channel answered the last offer of a sender.
pub open spec fn event_answer(tx: Sender<Event>) -> Answer {
    offered_events(tx).last().1
}

/// `after` is the sender `before` once it has offered `status` to its channel.
pub open spec fn status_offered(
    before: Sender<ConnectionStatus>,
    after: Sender<ConnectionStatus>,
    status: ConnectionStatus,
) -> bool {
    &&& one_more(
        offered_statuses(before),
        offered_statuses(after),
        status,
        room_statuses(before),
    )
    &&& room_statuses(after) == room_statuses(before)
    &&& forall|rx: Receiver<ConnectionStatus>| #[trigger]
        joined_statuses(after, rx) == joined_statuses(before, rx)
}

/// `after` is the sender `before` once it has offered `mid` to its channel.
pub open spec fn mid_offered(
    before: Sender<MessageId>,
    after: Sender<MessageId>,
    mid: MessageId,
) -> bool {
    &&& one_more(offered_mids(before), offered_mids(after), mid, room_mids(before))
    &&& room_mids(after) == room_mids(before)
    &&& forall|rx: Receiver<MessageId>| #[trigger]
        joined_mids(after, rx) == joined_mids(before, rx)
}

/// `after` is the sender `before` once it has offered `event` to its channel.
pub open spec fn event_offered(
    before: Sender<Event>,
    after: Sender<Event>,
    event: EventView,
) -> bool {
    &&& one_more(offered_events(before), offered_events(after), event, room_events(before))
    &&& room_events(after) == room_events(before)
    &&& forall|rx: Receiver<Event>| #[trigger]
        joined_events(after, rx) == joined_events(before, rx)
}

/// The channel of `tx` has no limit, and its receiver is kept, on which nobody
/// has called `close`: it can neither be full nor be closed.
pub open spec fn takes_everything(tx: Sender<Event>, kept: Option<Receiver<Event>>) -> bool {
    &&& room_events(tx) is None
    &&& kept is Some
    &&& joined_events(tx, kept->0)
    &&& unclosed_events(kept->0)
}

/// Calls `async_channel::bounded`, which makes a channel for at most `cap`
/// answers and panics if `cap` is zero: the two ends belong together, and
/// nothing has been offered yet.
#[verifier::external_body]
pub(crate) fn bounded_statuses(cap: usize) -> (ends: (
    StatusSender,
    Receiver<ConnectionStatus>,
))
    requires
        cap > 0,
    ensures
        joined_statuses(ends.0@, ends.1),
        room_statuses(ends.0@) == Some(cap as nat),
        offered_statuses(ends.0@) == Seq::<(ConnectionStatus, Answer)>::empty(),
{
    let (tx, rx) = async_channel::bounded(cap);
    (StatusSender { tx }, rx)
}

/// Calls `async_channel::bounded`, which makes a channel for at most `cap`
/// acknowledgements and panics if `cap` is zero: the two ends belong together,
/// and nothing has been offered yet.
#[verifier::external_body]
pub(crate) fn bounded_mids(cap: usize) -> (ends: (MidSender, Receiver<MessageId>))
    requires
        cap > 0,
    ensures
        joined_mids(ends.0@, ends.1),
        room_mids(ends.0@) == Some(cap as nat),
        offered_mids(ends.0@) == Seq::<(MessageId, Answer)>::empty(),
{
    let (tx, rx) = async_channel::bounded(cap);
    (MidSender { tx }, rx)
}

/// Calls `async_channel::unbounded`, which makes an open channel without a
/// limit: the two ends belong together, and nothing has been offered yet.
#[verifier::external_body]
pub(crate) fn unbounded_events() -> (ends: (EventSender, Receiver<Event>))
    ensures
        joined_events(ends.0@, ends.1),
        room_events(ends.0@) is None,
        unclosed_events(ends.1),
        offered_events(ends.0@) == Seq::<(EventView, Answer)>::empty(),
{
    let (tx, rx) = async_channel::unbounded();
    (EventSender { tx }, rx)
}

/// Calls `async_channel::Sender::try_send`, which puts `status` into the
/// channel, or leaves it out and says whether the channel is full or closed.
/// When the receivers are dropped, and with them the channel is closed, is up
/// to others and left unsaid.
#[verifier::external_body]
pub(crate) fn try_send_status(
    tx: &mut StatusSender,
    status: ConnectionStatus,
) -> (answer: Answer)
    ensures
        status_offered(old(tx)@, final(tx)@, status),
        answer == status_answer(final(tx)@),
{
    match tx.tx.try_send(status) {
        Ok(()) => Answer::Taken,
        Err(TrySendError::Full(_)) => Answer::Full,
        Err(TrySendError::Closed(_)) => Answer::Closed,
    }
}

/// Calls `async_channel::Sender::try_send`, which puts `mid` into the channel,
/// or leaves it out and says whether the channel is full or closed. When the
/// receivers are dropped, and with them the channel is closed, is up to others
/// and left unsaid.
#[verifier::external_body]
pub(crate) fn try_send_mid(tx: &mut MidSender, mid: MessageId) -> (answer: Answer)
    ensures
        mid_offered(old(tx)@, final(tx)@, mid),
        answer == mid_answer(final(tx)@),
{
    match tx.tx.try_send(mid) {
        Ok(()) => Answer::Taken,
        Err(TrySendError::Full(_)) => Answer::Full,
        Err(TrySendError::Closed(_)) => Answer::Closed,
    }
}

/// Calls `async_channel::Sender::try_send`, which puts `event` into the
/// channel, or leaves it out and says whether the channel is full or closed.
/// While a receiver is `_kept`, its channel is not closed unless someone calls
/// `close`; when a receiver that is with others is dropped is left unsaid.
#[verifier::external_body]
pub(crate) fn try_send_event(
    tx: &mut EventSender,
    _kept: &Option<Receiver<Event>>,
    event: Event,
) -> (answer: Answer)
    ensures
        event_offered(old(tx)@, final(tx)@, event@),
        answer == event_answer(final(tx)@),
        takes_everything(old(tx)@, *_kept) ==> answer is Taken,
{
    match tx.tx.try_send(event) {
        Ok(()) => Answer::Taken,
        Err(TrySendError::Full(_)) => Answer::Full,
        Err(TrySendError::Closed(_)) => Answer::Closed,
    }
}

/// Calls `std::mem::drop` on a sender of answers, which runs `Drop` of
/// `async_channel::Sender`: the sender is gone as it was, and its channel is
/// closed, as it was the only one.
#[verifier::external_body]
pub(crate) fn drop_statuses(tx: StatusSender) -> (gone: Ghost<Sender<ConnectionStatus>>)
    ensures
        gone@ == tx@,
        dropped_statuses(gone@),
{
    let gone = Ghost(tx.tx);
    std::mem::drop(tx);
    gone
}

/// Calls `std::mem::drop` on a sender of acknowledgements, which runs `Drop` of
/// `async_channel::Sender`: the sender is gone as it was, and its channel is
/// closed, as it was the only one.
#[verifier::external_body]
pub(crate) fn drop_mids(tx: MidSender) -> (gone: Ghost<Sender<MessageId>>)
    ensures
        gone@ == tx@,
        dropped_mids(gone@),
{
    let gone = Ghost(tx.tx);
    std::mem::drop(tx);
    gone
}

/// Calls `std::mem::drop` on a sender of events, which runs `Drop` of
/// `async_channel::Sender`: the sender is gone as it was, and its channel is
/// closed, as it was the only one.
#[verifier::external_body]
pub(crate) fn drop_events(tx: EventSender) -> (gone: Ghost<Sender<Event>>)
    ensures
        gone@ == tx@,
        dropped_events(gone@),
{
    let gone = Ghost(tx.tx);
    std::mem::drop(tx);
    gone
}

} // verus!
