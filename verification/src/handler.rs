//! The callbacks of a session, and the tasks that wait for them.
use std::collections::HashMap;

use async_channel::{Receiver, Sender};
use vstd::prelude::*;
use vstd::slice::slice_to_vec;

use crate::call::{Call, Mosq};
use crate::channel::{
    bounded_mids, bounded_statuses, drop_events, drop_mids, drop_statuses, try_send_event,
    try_send_mid, try_send_status, unbounded_events, Answer, EventSender, MidSender, StatusSender,
};
use crate::message::{Event, EventView, Message, MessageView};
use crate::types::{ConnectionStatus, MessageId, QoS, ReasonCode};

verus! {

broadcast use vstd::std_specs::hash::group_hash_axioms;

/// Hands what a session reports to the tasks that wait for it.
pub struct Handler {
    /// The task that waits for the answer to a connection attempt.
    connect: Option<StatusSender>,
    /// The tasks that wait for the acknowledgement of a request.
    mids: HashMap<MessageId, MidSender>,
    /// Where events go; `None` once the client has ended the session.
    subscriber_tx: Option<EventSender>,
    /// Where events can be read, until someone has asked for it.
    subscriber_rx: Option<Receiver<Event>>,
}

/// The senders of the tasks that wait for the acknowledgement of a request.
pub open spec fn senders(mids: Map<MessageId, MidSender>) -> Map<MessageId, Sender<MessageId>> {
    Map::new(|mid: MessageId| mids.contains_key(mid), |mid: MessageId| mids[mid]@)
}

/// The senders follow the tasks that come and go.
proof fn lemma_senders(mids: Map<MessageId, MidSender>, mid: MessageId, tx: MidSender)
    ensures
        senders(Map::<MessageId, MidSender>::empty()) == Map::<
            MessageId,
            Sender<MessageId>,
        >::empty(),
        senders(mids.insert(mid, tx)) == senders(mids).insert(mid, tx@),
        senders(mids.remove(mid)) == senders(mids).remove(mid),
{
    assert(senders(Map::<MessageId, MidSender>::empty()) =~= Map::<
        MessageId,
        Sender<MessageId>,
    >::empty());
    assert(senders(mids.insert(mid, tx)) =~= senders(mids).insert(mid, tx@));
    assert(senders(mids.remove(mid)) =~= senders(mids).remove(mid));
}

/// What a [`Handler`] holds.
#[verifier::ext_equal]
pub struct HandlerView {
    pub connect: Option<Sender<ConnectionStatus>>,
    pub mids: Map<MessageId, Sender<MessageId>>,
    pub subscriber_tx: Option<Sender<Event>>,
    pub subscriber_rx: Option<Receiver<Event>>,
}

impl View for Handler {
    type V = HandlerView;

    closed spec fn view(&self) -> HandlerView {
        HandlerView {
            connect: match self.connect {
                Some(tx) => Some(tx@),
                None => None,
            },
            mids: senders(self.mids@),
            subscriber_tx: match self.subscriber_tx {
                Some(tx) => Some(tx@),
                None => None,
            },
            subscriber_rx: self.subscriber_rx,
        }
    }
}

impl HandlerView {
    /// Nothing waits, and the feed of events is open, without a limit, empty
    /// and unclaimed.
    pub open spec fn is_fresh(self) -> bool {
        &&& self.connect is None
        &&& self.mids == Map::<MessageId, Sender<MessageId>>::empty()
        &&& self.subscriber_tx is Some
        &&& crate::channel::takes_everything(self.subscriber_tx->0, self.subscriber_rx)
        &&& crate::channel::offered_events(self.subscriber_tx->0) == Seq::<
            (EventView, Answer),
        >::empty()
    }

    /// Every task that waits does so at a channel that has room for what it
    /// waits for, and to which nothing has been offered yet. The feed has no
    /// limit, and as long as it is open and unclaimed, what is put into it
    /// arrives at the receiver that is kept for its reader.
    pub open spec fn well_formed(self) -> bool {
        &&& self.connect is Some ==> {
            &&& crate::channel::offered_statuses(self.connect->0).len() == 0
            &&& crate::channel::room_statuses(self.connect->0) == Some(1nat)
        }
        &&& forall|mid: MessageId| #[trigger]
            self.mids.contains_key(mid) ==> {
                &&& crate::channel::offered_mids(self.mids[mid]).len() == 0
                &&& crate::channel::room_mids(self.mids[mid]) == Some(1nat)
            }
        &&& self.subscriber_tx is Some ==> crate::channel::room_events(
            self.subscriber_tx->0,
        ) is None
        &&& self.subscriber_tx is Some && self.subscriber_rx is Some
            ==> crate::channel::takes_everything(self.subscriber_tx->0, self.subscriber_rx)
    }

    /// `event` was offered to the feed, and the session was ended unless the
    /// feed took it; a feed that nobody has claimed yet always does. A feed
    /// that is over is offered nothing, and the session was ended.
    pub open spec fn dispatched(
        self,
        post: HandlerView,
        event: EventView,
        calls: Seq<Call<'static>>,
        post_calls: Seq<Call<'static>>,
    ) -> bool {
        match self.subscriber_tx {
            None => post == self && post_calls == calls.push(Call::Disconnect),
            Some(before) => {
                &&& post.subscriber_tx matches Some(after)
                &&& post == (HandlerView { subscriber_tx: Some(after), ..self })
                &&& crate::channel::event_offered(before, after, event)
                &&& post_calls == crate::call::settled(calls, crate::channel::event_answer(after))
                &&& crate::channel::takes_everything(before, self.subscriber_rx)
                    ==> crate::channel::event_answer(after) is Taken
            },
        }
    }

    /// The task that waits for the answer to a connection attempt, if any,
    /// waits no more and was offered the answer, through the sender `told`,
    /// which was dropped then. The session was ended unless the task took it.
    pub open spec fn answered(
        self,
        post: HandlerView,
        status: ConnectionStatus,
        told: Option<Sender<ConnectionStatus>>,
        calls: Seq<Call<'static>>,
        post_calls: Seq<Call<'static>>,
    ) -> bool {
        &&& post == (HandlerView { connect: None, ..self })
        &&& match self.connect {
            None => told is None && post_calls == calls,
            Some(before) => {
                &&& told is Some
                &&& crate::channel::status_offered(before, told->0, status)
                &&& crate::channel::dropped_statuses(told->0)
                &&& post_calls == crate::call::settled(
                    calls,
                    crate::channel::status_answer(told->0),
                )
            },
        }
    }

    /// The answer to a connection attempt came in: the task that waited for it
    /// was told, through `told`, and the answer went into the feed.
    pub open spec fn connected(
        self,
        post: HandlerView,
        status: ConnectionStatus,
        told: Option<Sender<ConnectionStatus>>,
        calls: Seq<Call<'static>>,
        post_calls: Seq<Call<'static>>,
    ) -> bool {
        let idle = HandlerView { connect: None, ..self };
        let told_calls = match told {
            None => calls,
            Some(tx) => crate::call::settled(calls, crate::channel::status_answer(tx)),
        };
        &&& self.answered(idle, status, told, calls, told_calls)
        &&& idle.dispatched(post, EventView::Connected(status), told_calls, post_calls)
    }

    /// The request `mid` was acknowledged: the task that waited for it waits
    /// no more and was offered the acknowledgement, through the sender `told`,
    /// which was dropped then. The session was ended unless the task took it,
    /// or if there was no such task.
    pub open spec fn completed(
        self,
        post: HandlerView,
        mid: MessageId,
        told: Option<Sender<MessageId>>,
        calls: Seq<Call<'static>>,
        post_calls: Seq<Call<'static>>,
    ) -> bool {
        &&& post == (HandlerView { mids: self.mids.remove(mid), ..self })
        &&& if self.mids.contains_key(mid) {
            &&& told is Some
            &&& crate::channel::mid_offered(self.mids[mid], told->0, mid)
            &&& crate::channel::dropped_mids(told->0)
            &&& post_calls == crate::call::settled(calls, crate::channel::mid_answer(told->0))
        } else {
            told is None && post_calls == calls.push(Call::Disconnect)
        }
    }

    /// The session ended: no request waits any more, as the senders of all
    /// were dropped, and the feed was offered the reason, through the sender
    /// `told`. If the client had asked for the end, the feed is over, as that
    /// sender was dropped then.
    pub open spec fn disconnected(
        self,
        post: HandlerView,
        reason: ReasonCode,
        told: Option<Sender<Event>>,
        calls: Seq<Call<'static>>,
        post_calls: Seq<Call<'static>>,
    ) -> bool {
        let idle = HandlerView { mids: Map::<MessageId, Sender<MessageId>>::empty(), ..self };
        let fed = HandlerView { subscriber_tx: told, ..idle };
        &&& forall|mid: MessageId| #[trigger]
            self.mids.contains_key(mid) ==> crate::channel::dropped_mids(self.mids[mid])
        &&& idle.dispatched(fed, EventView::Disconnected(reason), calls, post_calls)
        &&& reason.0 == 0 && told is Some ==> crate::channel::dropped_events(told->0)
        &&& post == if reason.0 != 0 {
            fed
        } else {
            HandlerView { subscriber_tx: None, ..fed }
        }
    }

    /// A task began to wait, with `rx`, for the answer to a connection
    /// attempt, at a channel with room for it; the sender of one that waited
    /// before was dropped.
    pub open spec fn awaits_connection(
        self,
        post: HandlerView,
        rx: Receiver<ConnectionStatus>,
    ) -> bool {
        &&& post.connect matches Some(tx)
        &&& post == (HandlerView { connect: Some(tx), ..self })
        &&& self.connect is Some ==> crate::channel::dropped_statuses(self.connect->0)
        &&& crate::channel::joined_statuses(tx, rx)
        &&& crate::channel::room_statuses(tx) == Some(1nat)
        &&& crate::channel::offered_statuses(tx) == Seq::<(ConnectionStatus, Answer)>::empty()
    }

    /// A task began to wait, with `rx`, for the acknowledgement of the request
    /// `mid`, at a channel with room for it; the sender of one that waited for
    /// the same id before was dropped.
    pub open spec fn awaits_completion(
        self,
        post: HandlerView,
        mid: MessageId,
        rx: Receiver<MessageId>,
    ) -> bool {
        &&& post.mids.contains_key(mid)
        &&& post == (HandlerView { mids: self.mids.insert(mid, post.mids[mid]), ..self })
        &&& self.mids.contains_key(mid) ==> crate::channel::dropped_mids(self.mids[mid])
        &&& crate::channel::joined_mids(post.mids[mid], rx)
        &&& crate::channel::room_mids(post.mids[mid]) == Some(1nat)
        &&& crate::channel::offered_mids(post.mids[mid]) == Seq::<(MessageId, Answer)>::empty()
    }

    /// The reading end of the feed was given away, if it was still there.
    pub open spec fn claimed(self, post: HandlerView, rx: Option<Receiver<Event>>) -> bool {
        &&& rx == self.subscriber_rx
        &&& post == (HandlerView { subscriber_rx: None, ..self })
    }
}

impl Handler {
    /// A handler for which nothing waits, with an open feed of events.
    pub fn new() -> (handler: Self)
        ensures
            handler@.is_fresh(),
            handler@.well_formed(),
    {
        let (tx, rx) = unbounded_events();
        let mids: HashMap<MessageId, MidSender> = HashMap::new();
        assert(senders(mids@) =~= Map::<MessageId, Sender<MessageId>>::empty());
        Handler {
            connect: None,
            mids,
            subscriber_tx: Some(tx),
            subscriber_rx: Some(rx),
        }
    }

    /// Adds an event to the feed, or ends the session if the feed is over or
    /// does not take the event.
    pub fn dispatch_event(&mut self, client: &mut Mosq, event: Event)
        ensures
            old(self)@.dispatched(final(self)@, event@, old(client)@, final(client)@),
            old(self)@.well_formed() ==> final(self)@.well_formed(),
    {
        match self.subscriber_tx.take() {
            Some(mut tx) => {
                let answer = try_send_event(&mut tx, &self.subscriber_rx, event);
                self.subscriber_tx = Some(tx);
                client.settle(answer);
            },
            None => {
                client.disconnect();
            },
        }
    }

    /// The first half of [`on_connect`](Handler::on_connect): tells the task
    /// that waits for the answer to a connection attempt, if any. A task that
    /// is no longer there ends the session. The result is the sender through
    /// which the task was told.
    pub fn answer_connection(&mut self, client: &mut Mosq, reason: ConnectionStatus) -> (told:
        Ghost<Option<Sender<ConnectionStatus>>>)
        ensures
            old(self)@.answered(final(self)@, reason, told@, old(client)@, final(client)@),
            old(self)@.well_formed() ==> final(self)@.well_formed(),
    {
        match self.connect.take() {
            Some(mut tx) => {
                let answer = try_send_status(&mut tx, reason);
                client.settle(answer);
                let gone = drop_statuses(tx);
                Ghost(Some(gone@))
            },
            None => Ghost(None),
        }
    }

    /// The broker answered a connection attempt.
    ///
    /// Tells the task that waits for the answer, if any, and adds the answer
    /// to the feed. A task that is no longer there, or a feed that does not
    /// take the answer, ends the session. The result is the sender through
    /// which the task was told.
    pub fn on_connect(&mut self, client: &mut Mosq, reason: ConnectionStatus) -> (told: Ghost<
        Option<Sender<ConnectionStatus>>,
    >)
        ensures
            old(self)@.connected(final(self)@, reason, told@, old(client)@, final(client)@),
            old(self)@.well_formed() ==> final(self)@.well_formed(),
    {
        let told = self.answer_connection(client, reason);
        self.dispatch_event(client, Event::Connected(reason));
        told
    }

    /// The broker acknowledged a published message: see
    /// [`complete`](Handler::complete).
    pub fn on_publish(&mut self, client: &mut Mosq, mid: MessageId) -> (told: Ghost<
        Option<Sender<MessageId>>,
    >)
        ensures
            old(self)@.completed(final(self)@, mid, told@, old(client)@, final(client)@),
            old(self)@.well_formed() ==> final(self)@.well_formed(),
    {
        self.complete(client, mid)
    }

    /// The broker acknowledged a subscription: see
    /// [`complete`](Handler::complete). The granted levels of service are not
    /// passed on.
    pub fn on_subscribe(
        &mut self,
        client: &mut Mosq,
        mid: MessageId,
        _granted_qos: &[QoS],
    ) -> (told: Ghost<Option<Sender<MessageId>>>)
        ensures
            old(self)@.completed(final(self)@, mid, told@, old(client)@, final(client)@),
            old(self)@.well_formed() ==> final(self)@.well_formed(),
    {
        self.complete(client, mid)
    }

    /// The broker acknowledged the end of a subscription: see
    /// [`complete`](Handler::complete).
    pub fn on_unsubscribe(&mut self, client: &mut Mosq, mid: MessageId) -> (told: Ghost<
        Option<Sender<MessageId>>,
    >)
        ensures
            old(self)@.completed(final(self)@, mid, told@, old(client)@, final(client)@),
            old(self)@.well_formed() ==> final(self)@.well_formed(),
    {
        self.complete(client, mid)
    }

    /// Tells the task that waits for the request `mid` that it has been
    /// acknowledged. If no task waits for it, or the task is no longer there,
    /// the session is ended. The result is the sender through which the task
    /// was told.
    pub fn complete(&mut self, client: &mut Mosq, mid: MessageId) -> (told: Ghost<
        Option<Sender<MessageId>>,
    >)
        ensures
            old(self)@.completed(final(self)@, mid, told@, old(client)@, final(client)@),
            old(self)@.well_formed() ==> final(self)@.well_formed(),
    {
        proof {
            lemma_senders(self.mids@, mid, self.mids@[mid]);
        }
        match self.mids.remove(&mid) {
            Some(mut tx) => {
                let answer = try_send_mid(&mut tx, mid);
                client.settle(answer);
                let gone = drop_mids(tx);
                Ghost(Some(gone@))
            },
            None => {
                client.disconnect();
                Ghost(None)
            },
        }
    }

    /// The session ended.
    ///
    /// Gives up all requests that wait for an acknowledgement, and adds the
    /// reason to the feed. mosquitto does not reconnect after an end that the
    /// client asked for, so the feed is over then. The result is the sender
    /// through which the reason was added.
    pub fn on_disconnect(&mut self, client: &mut Mosq, reason: ReasonCode) -> (told: Ghost<
        Option<Sender<Event>>,
    >)
        ensures
            old(self)@.disconnected(final(self)@, reason, told@, old(client)@, final(client)@),
            old(self)@.well_formed() ==> final(self)@.well_formed(),
    {
        self.give_up_requests();
        self.dispatch_event(client, Event::Disconnected(reason));
        let ghost told = self@.subscriber_tx;
        if !reason.is_unexpected_disconnect() {
            if let Some(tx) = self.subscriber_tx.take() {
                let _ = drop_events(tx);
            }
        }
        Ghost(told)
    }

    /// Drops the senders of all requests that wait for an acknowledgement.
    fn give_up_requests(&mut self)
        ensures
            final(self)@ == (HandlerView {
                mids: Map::<MessageId, Sender<MessageId>>::empty(),
                ..old(self)@
            }),
            forall|mid: MessageId| #[trigger]
                old(self)@.mids.contains_key(mid) ==> crate::channel::dropped_mids(
                    old(self)@.mids[mid],
                ),
    {
        let ghost all = self@.mids;
        let ghost keys = vstd::std_specs::iter::IteratorSpec::remaining(
            &vstd::std_specs::hash::spec_keys_iter(&self.mids),
        ).unref();
        let mut waiting: Vec<MessageId> = Vec::new();
        for mid in it: self.mids.keys()
            invariant
                waiting@ == keys.take(it.index()),
                it.seq().unref() == keys,
        {
            waiting.push(*mid);
        }
        assert(waiting@ == keys);
        assert forall|mid: MessageId| #[trigger] all.contains_key(mid) implies waiting@.contains(
            mid,
        ) by {
            assert(keys.to_set().contains(mid));
        }
        let mut i: usize = 0;
        while i < waiting.len()
            invariant
                i <= waiting@.len(),
                all == old(self)@.mids,
                forall|mid: MessageId| #[trigger]
                    all.contains_key(mid) ==> waiting@.contains(mid),
                self@ == (HandlerView { mids: self@.mids, ..old(self)@ }),
                forall|mid: MessageId| #[trigger]
                    self@.mids.contains_key(mid) ==> all.contains_key(mid) && self@.mids[mid]
                        == all[mid] && !waiting@.take(i as int).contains(mid),
                forall|mid: MessageId| #[trigger]
                    all.contains_key(mid) && !self@.mids.contains_key(mid)
                        ==> crate::channel::dropped_mids(all[mid]),
            decreases waiting@.len() - i,
        {
            proof {
                lemma_senders(self.mids@, waiting@[i as int], self.mids@[waiting@[i as int]]);
            }
            if let Some(tx) = self.mids.remove(&waiting[i]) {
                let _ = drop_mids(tx);
            }
            i += 1;
        }
        assert(waiting@.take(i as int) == waiting@);
        assert(self@.mids =~= Map::<MessageId, Sender<MessageId>>::empty());
    }

    /// A message came in: adds it to the feed.
    pub fn on_message(
        &mut self,
        client: &mut Mosq,
        mid: MessageId,
        topic: String,
        payload: &[u8],
        qos: QoS,
        retain: bool,
    )
        ensures
            old(self)@.dispatched(
                final(self)@,
                EventView::Message(
                    MessageView { topic: topic@, payload: payload@, qos, retain, mid },
                ),
                old(client)@,
                final(client)@,
            ),
            old(self)@.well_formed() ==> final(self)@.well_formed(),
    {
        let m = Message { mid, topic, payload: slice_to_vec(payload), qos, retain };
        self.dispatch_event(client, Event::Message(m));
    }

    /// Lets a task wait for the answer to a connection attempt.
    pub fn await_connection(&mut self) -> (rx: Receiver<ConnectionStatus>)
        ensures
            old(self)@.awaits_connection(final(self)@, rx),
            old(self)@.well_formed() ==> final(self)@.well_formed(),
    {
        let (tx, rx) = bounded_statuses(1);
        if let Some(earlier) = self.connect.take() {
            let _ = drop_statuses(earlier);
        }
        self.connect = Some(tx);
        rx
    }

    /// Lets a task wait for the acknowledgement of the request `mid`.
    pub fn await_completion(&mut self, mid: MessageId) -> (rx: Receiver<MessageId>)
        ensures
            old(self)@.awaits_completion(final(self)@, mid, rx),
            old(self)@.well_formed() ==> final(self)@.well_formed(),
    {
        let (tx, rx) = bounded_mids(1);
        proof {
            lemma_senders(self.mids@, mid, tx);
        }
        if let Some(earlier) = self.mids.insert(mid, tx) {
            let _ = drop_mids(earlier);
        }
        rx
    }

    /// Gives away the reading end of the feed, the first time it is asked for.
    pub fn subscriber(&mut self) -> (rx: Option<Receiver<Event>>)
        ensures
            old(self)@.claimed(final(self)@, rx),
            old(self)@.well_formed() ==> final(self)@.well_formed(),
    {
        self.subscriber_rx.take()
    }
}

} // verus!
