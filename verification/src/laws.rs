//! What holds of a session as a whole, whatever the order in which the client
//! is used and the session reports.
use async_channel::{Receiver, Sender};
use vstd::prelude::*;

use crate::call::{Call, MosqOption};
use crate::channel::Answer;
use crate::client::{ClientOption, Progress, ProtocolVersion, Setup};
use crate::handler::HandlerView;
use crate::message::{Event, EventView, Message, MessageView};
use crate::types::{ConnectionStatus, Error, MessageId, QoS, ReasonCode};

verus! {

/// A handler, and the calls that its callbacks have asked for so far.
pub struct Session {
    pub handler: HandlerView,
    pub calls: Seq<Call<'static>>,
}

/// Something that happens to a session.
#[allow(inconsistent_fields)]
pub enum Step {
    /// A task begins to wait for the answer to a connection attempt.
    AwaitConnection { rx: Receiver<ConnectionStatus> },
    /// A task begins to wait for the acknowledgement of a request.
    AwaitCompletion { mid: MessageId, rx: Receiver<MessageId> },
    /// Someone asks for the reading end of the feed.
    Claim { rx: Option<Receiver<Event>> },
    /// The broker answers a connection attempt.
    Connected { status: ConnectionStatus, told: Option<Sender<ConnectionStatus>> },
    /// The first half of the answer to a connection attempt: the task that
    /// waits for it is told.
    Answered { status: ConnectionStatus, told: Option<Sender<ConnectionStatus>> },
    /// An event goes into the feed; the second half of the answer to a
    /// connection attempt is one.
    Dispatched { event: EventView },
    /// The broker acknowledges a request.
    Completed { mid: MessageId, told: Option<Sender<MessageId>> },
    /// The session ends.
    Disconnected { reason: ReasonCode, told: Option<Sender<Event>> },
    /// A message comes in.
    Message { message: MessageView },
}

impl Step {
    /// The event with which the step is reported to the feed, if it is.
    pub open spec fn event(self) -> Option<EventView> {
        match self {
            Step::Connected { status, .. } => Some(EventView::Connected(status)),
            Step::Disconnected { reason, .. } => Some(EventView::Disconnected(reason)),
            Step::Message { message } => Some(EventView::Message(message)),
            Step::Dispatched { event } => Some(event),
            _ => None,
        }
    }

    /// The session ends because the client asked for it.
    pub open spec fn is_final(self) -> bool {
        self matches Step::Disconnected { reason, .. } && reason.0 == 0
    }

    /// A task begins to wait for the request `mid`.
    pub open spec fn awaits(self, mid: MessageId) -> bool {
        self matches Step::AwaitCompletion { mid: other, .. } && other == mid
    }

    /// The request `mid` is acknowledged.
    pub open spec fn completes(self, mid: MessageId) -> bool {
        self matches Step::Completed { mid: other, .. } && other == mid
    }

    /// The task that waits for a connection, if any, is told the answer.
    pub open spec fn answers(self) -> bool {
        self is Connected || self is Answered
    }

    /// The answer that the task which waits for a connection is told.
    pub open spec fn status(self) -> ConnectionStatus {
        match self {
            Step::Connected { status, .. } => status,
            _ => self->Answered_status,
        }
    }

    /// The sender through which the task that waits for a connection is told.
    pub open spec fn told_status(self) -> Option<Sender<ConnectionStatus>> {
        match self {
            Step::Connected { told, .. } => told,
            _ => self->Answered_told,
        }
    }

    /// No task is told of the step but through the feed, and none should be.
    pub open spec fn tells_nobody(self) -> bool {
        match self {
            Step::Connected { told, .. } => told is None,
            Step::Answered { told, .. } => told is None,
            Step::Completed { .. } => false,
            _ => true,
        }
    }

    /// The sending end of the feed once the step, which leads to `post`, has
    /// been reported to it, and before it is over if it is to be.
    pub open spec fn feed(self, post: Session) -> Option<Sender<Event>> {
        match self {
            Step::Disconnected { told, .. } => told,
            _ => post.handler.subscriber_tx,
        }
    }
}

/// What a step makes of a session.
pub open spec fn happens(pre: Session, step: Step, post: Session) -> bool {
    match step {
        Step::AwaitConnection { rx } => pre.handler.awaits_connection(post.handler, rx)
            && post.calls == pre.calls,
        Step::AwaitCompletion { mid, rx } => pre.handler.awaits_completion(post.handler, mid, rx)
            && post.calls == pre.calls,
        Step::Claim { rx } => pre.handler.claimed(post.handler, rx) && post.calls == pre.calls,
        Step::Connected { status, told } => pre.handler.connected(
            post.handler,
            status,
            told,
            pre.calls,
            post.calls,
        ),
        Step::Answered { status, told } => pre.handler.answered(
            post.handler,
            status,
            told,
            pre.calls,
            post.calls,
        ),
        Step::Dispatched { event } => pre.handler.dispatched(
            post.handler,
            event,
            pre.calls,
            post.calls,
        ),
        Step::Completed { mid, told } => pre.handler.completed(
            post.handler,
            mid,
            told,
            pre.calls,
            post.calls,
        ),
        Step::Disconnected { reason, told } => pre.handler.disconnected(
            post.handler,
            reason,
            told,
            pre.calls,
            post.calls,
        ),
        Step::Message { message } => pre.handler.dispatched(
            post.handler,
            EventView::Message(message),
            pre.calls,
            post.calls,
        ),
    }
}

/// A session goes through `sessions` while `steps` happen to it.
pub open spec fn runs(sessions: Seq<Session>, steps: Seq<Step>) -> bool {
    &&& sessions.len() == steps.len() + 1
    &&& forall|i: int|
        0 <= i < steps.len() ==> happens(sessions[i], #[trigger] steps[i], sessions[i + 1])
}

/// The events with which steps are reported to the feed, oldest first.
pub open spec fn events(steps: Seq<Step>) -> Seq<EventView>
    decreases steps.len(),
{
    if steps.len() == 0 {
        Seq::empty()
    } else {
        match steps.last().event() {
            Some(event) => events(steps.drop_last()).push(event),
            None => events(steps.drop_last()),
        }
    }
}

/// A task begins to wait for a request with the step `i`, and the request is
/// acknowledged with the step `j`; in between no other task takes the id over
/// and the session does not end.
pub open spec fn waits(steps: Seq<Step>, i: int, j: int) -> bool {
    let mid = steps[i]->AwaitCompletion_mid;
    &&& 0 <= i < j < steps.len()
    &&& steps[i] is AwaitCompletion
    &&& steps[j].completes(mid)
    &&& forall|k: int|
        i < k < j ==> !(#[trigger] steps[k]).awaits(mid) && !steps[k].completes(mid)
            && steps[k] !is Disconnected
}

/// Through the sender `told`, a task that waits with `rx` was offered the
/// acknowledgement of `mid`, and nothing else before the sender was dropped.
/// It took it and the session goes on; or it is no longer there, and the
/// session was ended for it.
pub open spec fn acknowledgement_told(
    told: Option<Sender<MessageId>>,
    rx: Receiver<MessageId>,
    mid: MessageId,
    calls: Seq<Call<'static>>,
    post_calls: Seq<Call<'static>>,
) -> bool {
    let offered = crate::channel::offered_mids(told->0);
    &&& told is Some
    &&& crate::channel::joined_mids(told->0, rx)
    &&& crate::channel::dropped_mids(told->0)
    &&& offered.len() == 1
    &&& offered[0].0 == mid
    &&& offered[0].1 !is Full
    &&& offered[0].1 is Taken ==> post_calls == calls
    &&& offered[0].1 is Closed ==> post_calls == calls.push(Call::Disconnect)
}

/// Through the sender `told`, a task that waits with `rx` was offered the
/// answer `status`, and nothing else before the sender was dropped. It took
/// it; or it is no longer there, and the session was ended for it before
/// anything else.
pub open spec fn answer_told(
    told: Option<Sender<ConnectionStatus>>,
    rx: Receiver<ConnectionStatus>,
    status: ConnectionStatus,
    calls: Seq<Call<'static>>,
    post_calls: Seq<Call<'static>>,
) -> bool {
    let offered = crate::channel::offered_statuses(told->0);
    &&& told is Some
    &&& crate::channel::joined_statuses(told->0, rx)
    &&& crate::channel::dropped_statuses(told->0)
    &&& offered.len() == 1
    &&& offered[0].0 == status
    &&& offered[0].1 !is Full
    &&& calls.is_prefix_of(post_calls)
    &&& offered[0].1 is Closed ==> calls.push(Call::Disconnect).is_prefix_of(post_calls)
}

/// The sending end of a feed goes from `before` to `after` with a step: it is
/// offered the event of the step, if there is one, and nothing else.
pub open spec fn feed_goes_on(before: Sender<Event>, after: Sender<Event>, step: Step) -> bool {
    match step.event() {
        None => after == before,
        Some(event) => crate::channel::event_offered(before, after, event),
    }
}

proof fn lemma_feed(pre: Session, step: Step, post: Session)
    requires
        happens(pre, step, post),
    ensures
        post.handler.subscriber_rx == if step is Claim {
            None
        } else {
            pre.handler.subscriber_rx
        },
        post.handler.subscriber_tx == if step.is_final() {
            None
        } else {
            step.feed(post)
        },
        step.feed(post) is Some <==> pre.handler.subscriber_tx is Some,
        step.feed(post) is Some ==> feed_goes_on(
            pre.handler.subscriber_tx->0,
            step.feed(post)->0,
            step,
        ),
{
}

/// What the feed answers to the event of a step, and what comes of it.
proof fn lemma_feed_answer(pre: Session, step: Step, post: Session)
    requires
        happens(pre, step, post),
        pre.handler.subscriber_tx is Some,
        step.event() is Some,
    ensures
        crate::channel::takes_everything(
            pre.handler.subscriber_tx->0,
            pre.handler.subscriber_rx,
        ) ==> crate::channel::event_answer(step.feed(post)->0) is Taken,
        crate::channel::event_answer(step.feed(post)->0) !is Taken ==> post.calls.len()
            > pre.calls.len() && post.calls.last() == Call::<'static>::Disconnect,
        crate::channel::event_answer(step.feed(post)->0) is Taken && step.tells_nobody()
            ==> post.calls == pre.calls,
{
}

proof fn lemma_calls(pre: Session, step: Step, post: Session)
    requires
        happens(pre, step, post),
    ensures
        pre.calls.is_prefix_of(post.calls),
{
}

proof fn lemma_mids(pre: Session, step: Step, post: Session, mid: MessageId)
    requires
        happens(pre, step, post),
        !step.awaits(mid),
    ensures
        step.completes(mid) || step is Disconnected ==> !post.handler.mids.contains_key(mid),
        !step.completes(mid) && step !is Disconnected ==> {
            &&& post.handler.mids.contains_key(mid) == pre.handler.mids.contains_key(mid)
            &&& post.handler.mids[mid] == pre.handler.mids[mid]
        },
{
}

proof fn lemma_connect(pre: Session, step: Step, post: Session)
    requires
        happens(pre, step, post),
        step !is AwaitConnection,
    ensures
        post.handler.connect == if step.answers() {
            None
        } else {
            pre.handler.connect
        },
{
}

proof fn lemma_well_formed(pre: Session, step: Step, post: Session)
    requires
        happens(pre, step, post),
        pre.handler.well_formed(),
    ensures
        post.handler.well_formed(),
{
    lemma_feed(pre, step, post);
    assert forall|mid: MessageId| #[trigger] post.handler.mids.contains_key(mid) implies {
        &&& crate::channel::offered_mids(post.handler.mids[mid]).len() == 0
        &&& crate::channel::room_mids(post.handler.mids[mid]) == Some(1nat)
    } by {
        if !step.awaits(mid) {
            lemma_mids(pre, step, post, mid);
            assert(pre.handler.mids.contains_key(mid));
        }
    }
    if step !is AwaitConnection {
        lemma_connect(pre, step, post);
    }
}

proof fn lemma_runs_earlier(sessions: Seq<Session>, steps: Seq<Step>)
    requires
        runs(sessions, steps),
        steps.len() > 0,
    ensures
        runs(sessions.drop_last(), steps.drop_last()),
        sessions.drop_last().last() == sessions[steps.len() - 1],
        happens(sessions[steps.len() - 1], steps.last(), sessions.last()),
{
    assert forall|i: int| 0 <= i < steps.drop_last().len() implies happens(
        sessions.drop_last()[i],
        #[trigger] steps.drop_last()[i],
        sessions.drop_last()[i + 1],
    ) by {
        assert(steps.drop_last()[i] == steps[i]);
    }
    assert(steps[steps.len() - 1] == steps.last());
}

proof fn lemma_one_more<T>(before: Seq<(T, Answer)>, offer: (T, Answer))
    ensures
        crate::channel::messages(before.push(offer)) == crate::channel::messages(before).push(
            offer.0,
        ),
        crate::channel::taken(before.push(offer)) == if offer.1 is Taken {
            crate::channel::taken(before).push(offer.0)
        } else {
            crate::channel::taken(before)
        },
{
    assert(before.push(offer).drop_last() =~= before);
    assert(crate::channel::messages(before.push(offer)) =~= crate::channel::messages(before).push(
        offer.0,
    ));
}

proof fn lemma_claimed(sessions: Seq<Session>, steps: Seq<Step>, i: int, j: int)
    requires
        runs(sessions, steps),
        0 <= i <= j <= steps.len(),
        sessions[i].handler.subscriber_rx is None,
    ensures
        sessions[j].handler.subscriber_rx is None,
    decreases j - i,
{
    if i < j {
        lemma_claimed(sessions, steps, i, j - 1);
        lemma_feed(sessions[j - 1], steps[j - 1], sessions[j]);
    }
}

proof fn lemma_unclaimed(sessions: Seq<Session>, steps: Seq<Step>, i: int)
    requires
        runs(sessions, steps),
        0 <= i <= steps.len(),
        forall|k: int| 0 <= k < i ==> #[trigger] steps[k] !is Claim,
    ensures
        sessions[i].handler.subscriber_rx == sessions[0].handler.subscriber_rx,
    decreases i,
{
    if i > 0 {
        lemma_unclaimed(sessions, steps, i - 1);
        lemma_feed(sessions[i - 1], steps[i - 1], sessions[i]);
    }
}

proof fn lemma_calls_grow(sessions: Seq<Session>, steps: Seq<Step>, i: int)
    requires
        runs(sessions, steps),
        0 <= i <= steps.len(),
    ensures
        sessions[0].calls.len() <= sessions[i].calls.len(),
    decreases i,
{
    if i > 0 {
        lemma_calls_grow(sessions, steps, i - 1);
        lemma_calls(sessions[i - 1], steps[i - 1], sessions[i]);
    }
}

proof fn lemma_request_waits(
    sessions: Seq<Session>,
    steps: Seq<Step>,
    mid: MessageId,
    i: int,
    j: int,
)
    requires
        runs(sessions, steps),
        0 <= i <= j <= steps.len(),
        forall|k: int|
            i <= k < j ==> !(#[trigger] steps[k]).awaits(mid) && !steps[k].completes(mid)
                && steps[k] !is Disconnected,
    ensures
        sessions[j].handler.mids.contains_key(mid) == sessions[i].handler.mids.contains_key(mid),
        sessions[j].handler.mids[mid] == sessions[i].handler.mids[mid],
    decreases j - i,
{
    if i < j {
        lemma_request_waits(sessions, steps, mid, i, j - 1);
        lemma_mids(sessions[j - 1], steps[j - 1], sessions[j], mid);
    }
}

proof fn lemma_request_gone(
    sessions: Seq<Session>,
    steps: Seq<Step>,
    mid: MessageId,
    i: int,
    j: int,
)
    requires
        runs(sessions, steps),
        0 <= i <= j <= steps.len(),
        !sessions[i].handler.mids.contains_key(mid),
        forall|k: int| i <= k < j ==> !(#[trigger] steps[k]).awaits(mid),
    ensures
        !sessions[j].handler.mids.contains_key(mid),
    decreases j - i,
{
    if i < j {
        lemma_request_gone(sessions, steps, mid, i, j - 1);
        lemma_mids(sessions[j - 1], steps[j - 1], sessions[j], mid);
    }
}

proof fn lemma_connection_waits(sessions: Seq<Session>, steps: Seq<Step>, i: int, j: int)
    requires
        runs(sessions, steps),
        0 <= i <= j <= steps.len(),
        forall|k: int|
            i <= k < j ==> (#[trigger] steps[k]) !is AwaitConnection && !steps[k].answers(),
    ensures
        sessions[j].handler.connect == sessions[i].handler.connect,
    decreases j - i,
{
    if i < j {
        lemma_connection_waits(sessions, steps, i, j - 1);
        lemma_connect(sessions[j - 1], steps[j - 1], sessions[j]);
    }
}

proof fn lemma_nobody_connects(sessions: Seq<Session>, steps: Seq<Step>, i: int, j: int)
    requires
        runs(sessions, steps),
        0 <= i <= j <= steps.len(),
        sessions[i].handler.connect is None,
        forall|k: int| i <= k < j ==> (#[trigger] steps[k]) !is AwaitConnection,
    ensures
        sessions[j].handler.connect is None,
    decreases j - i,
{
    if i < j {
        lemma_nobody_connects(sessions, steps, i, j - 1);
        lemma_connect(sessions[j - 1], steps[j - 1], sessions[j]);
    }
}

/// Whatever happens, every task that waits does so at a fresh channel with
/// room for what it waits for, the feed has no limit, and the ends of an open
/// and unclaimed feed belong together.
pub proof fn law_session_stays_well_formed(sessions: Seq<Session>, steps: Seq<Step>, i: int)
    requires
        runs(sessions, steps),
        0 <= i <= steps.len(),
        sessions[0].handler.well_formed(),
    ensures
        sessions[i].handler.well_formed(),
    decreases i,
{
    if i > 0 {
        law_session_stays_well_formed(sessions, steps, i - 1);
        lemma_well_formed(sessions[i - 1], steps[i - 1], sessions[i]);
    }
}

/// For a new client nothing waits, and its feed is open, has no limit, has been
/// offered nothing, and is kept together with the end at which it is read.
pub proof fn law_new_client(handler: HandlerView)
    requires
        handler.is_fresh(),
    ensures
        handler.well_formed(),
        handler.connect is None,
        handler.mids.dom().is_empty(),
        handler.subscriber_tx is Some,
        handler.subscriber_rx is Some,
        crate::channel::room_events(handler.subscriber_tx->0) is None,
        crate::channel::joined_events(handler.subscriber_tx->0, handler.subscriber_rx->0),
        crate::channel::unclosed_events(handler.subscriber_rx->0),
        crate::channel::offered_events(handler.subscriber_tx->0).len() == 0,
{
    assert(handler.mids.dom() =~= Set::empty());
}

/// An event that is dispatched goes to the end of the feed, once: the feed has
/// been offered what it had been offered before and then this event, and it is
/// still the same channel. Nothing else of the handler changes. The session is
/// ended, once, if and only if the feed is over or did not take the event; a
/// feed without a limit that is kept unread takes it.
pub proof fn law_event_is_fed_once(
    pre: HandlerView,
    post: HandlerView,
    event: EventView,
    calls: Seq<Call<'static>>,
    post_calls: Seq<Call<'static>>,
)
    requires
        pre.dispatched(post, event, calls, post_calls),
    ensures
        post.connect == pre.connect,
        post.mids == pre.mids,
        post.subscriber_rx == pre.subscriber_rx,
        post.subscriber_tx is Some <==> pre.subscriber_tx is Some,
        pre.subscriber_tx is None ==> post_calls == calls.push(Call::Disconnect),
        pre.subscriber_tx is Some ==> event_is_last(
            pre.subscriber_tx->0,
            post.subscriber_tx->0,
            event,
        ),
        pre.subscriber_tx is Some && crate::channel::offered_events(
            post.subscriber_tx->0,
        ).last().1 == Answer::Taken ==> post_calls == calls,
        pre.subscriber_tx is Some && crate::channel::offered_events(
            post.subscriber_tx->0,
        ).last().1 != Answer::Taken ==> post_calls == calls.push(Call::Disconnect),
        pre.subscriber_tx is Some && pre.subscriber_rx is Some
            && crate::channel::room_events(pre.subscriber_tx->0) is None
            && crate::channel::joined_events(pre.subscriber_tx->0, pre.subscriber_rx->0)
            && crate::channel::unclosed_events(pre.subscriber_rx->0)
            ==> crate::channel::offered_events(post.subscriber_tx->0).last().1 == Answer::Taken,
{
}

/// `after` is the same channel as `before`, and has been offered what `before`
/// had been offered and then `event`, and nothing else.
pub open spec fn event_is_last(
    before: Sender<Event>,
    after: Sender<Event>,
    event: EventView,
) -> bool {
    let old_offers = crate::channel::offered_events(before);
    let new_offers = crate::channel::offered_events(after);
    &&& new_offers.len() == old_offers.len() + 1
    &&& forall|k: int| 0 <= k < old_offers.len() ==> new_offers[k] == #[trigger] old_offers[k]
    &&& new_offers.last().0 == event
    &&& new_offers.last().1 is Full ==> crate::channel::room_events(before) is Some
    &&& crate::channel::room_events(after) == crate::channel::room_events(before)
    &&& forall|rx: Receiver<Event>| #[trigger]
        crate::channel::joined_events(after, rx) == crate::channel::joined_events(before, rx)
}

/// A message that comes in is fed with its topic, its payload, its level of
/// service, its retain flag and its id as they came.
pub proof fn law_message_is_fed_as_it_came(message: Message, event: Event)
    ensures
        message@.topic == message.topic@,
        message@.payload == message.payload@,
        message@.qos == message.qos,
        message@.retain == message.retain,
        message@.mid == message.mid,
        event is Message ==> event@ == EventView::Message(event->Message_0@),
        event is Connected ==> event@ == EventView::Connected(event->Connected_0),
        event is Disconnected ==> event@ == EventView::Disconnected(event->Disconnected_0),
{
}

/// The task that waits for a connection gets the very status with which the
/// broker answered, as the first and only thing that is ever put into its
/// channel, whose sender is dropped with that. It waits no more, and nothing
/// else of the handler changes. The session is ended, once, if and only if
/// there was such a task and it did not take the answer, which can only be
/// because it is no longer there.
pub proof fn law_waiter_gets_the_status(
    pre: HandlerView,
    post: HandlerView,
    status: ConnectionStatus,
    told: Option<Sender<ConnectionStatus>>,
    calls: Seq<Call<'static>>,
    post_calls: Seq<Call<'static>>,
)
    requires
        pre.well_formed(),
        pre.answered(post, status, told, calls, post_calls),
    ensures
        post.connect is None,
        post.mids == pre.mids,
        post.subscriber_tx == pre.subscriber_tx,
        post.subscriber_rx == pre.subscriber_rx,
        told is Some <==> pre.connect is Some,
        told is None ==> post_calls == calls,
        told is Some ==> status_is_all(pre.connect->0, told->0, status),
        told is Some && crate::channel::offered_statuses(told->0)[0].1 == Answer::Taken
            ==> post_calls == calls,
        told is Some && crate::channel::offered_statuses(told->0)[0].1 == Answer::Closed
            ==> post_calls == calls.push(Call::Disconnect),
{
}

/// `told` is the same channel as `waiting`, has been offered `status` and
/// nothing else, had room for it, and has no sender any more.
pub open spec fn status_is_all(
    waiting: Sender<ConnectionStatus>,
    told: Sender<ConnectionStatus>,
    status: ConnectionStatus,
) -> bool {
    let offers = crate::channel::offered_statuses(told);
    &&& offers.len() == 1
    &&& offers[0].0 == status
    &&& offers[0].1 !is Full
    &&& crate::channel::dropped_statuses(told)
    &&& forall|rx: Receiver<ConnectionStatus>| #[trigger]
        crate::channel::joined_statuses(told, rx) == crate::channel::joined_statuses(waiting, rx)
}

/// The answer to a connection attempt goes to the task that waits for it and to
/// the feed, to each once and unchanged, and to nobody else. The session is
/// ended once for a task that is no longer there and once for a feed that did
/// not take the answer, and nothing else is asked of it.
pub proof fn law_connection_is_told_and_fed(
    pre: HandlerView,
    post: HandlerView,
    status: ConnectionStatus,
    told: Option<Sender<ConnectionStatus>>,
    calls: Seq<Call<'static>>,
    post_calls: Seq<Call<'static>>,
)
    requires
        pre.well_formed(),
        pre.connected(post, status, told, calls, post_calls),
    ensures
        post.connect is None,
        post.mids == pre.mids,
        post.subscriber_rx == pre.subscriber_rx,
        told is Some <==> pre.connect is Some,
        told is Some ==> status_is_all(pre.connect->0, told->0, status),
        post.subscriber_tx is Some <==> pre.subscriber_tx is Some,
        pre.subscriber_tx is Some ==> event_is_last(
            pre.subscriber_tx->0,
            post.subscriber_tx->0,
            EventView::Connected(status),
        ),
        calls.is_prefix_of(post_calls),
        forall|k: int|
            calls.len() <= k < post_calls.len() ==> #[trigger] post_calls[k] == Call::<
                'static,
            >::Disconnect,
        post_calls.len() == calls.len() + (if told is Some && crate::channel::offered_statuses(
            told->0,
        )[0].1 == Answer::Closed {
            1int
        } else {
            0int
        }) + (if pre.subscriber_tx is None || crate::channel::offered_events(
            post.subscriber_tx->0,
        ).last().1 != Answer::Taken {
            1int
        } else {
            0int
        }),
{
    let idle = HandlerView { connect: None, ..pre };
    let told_calls = if told is Some && crate::channel::offered_statuses(told->0)[0].1
        != Answer::Taken {
        calls.push(Call::Disconnect)
    } else {
        calls
    };
    law_waiter_gets_the_status(pre, idle, status, told, calls, told_calls);
    law_event_is_fed_once(idle, post, EventView::Connected(status), told_calls, post_calls);
}

/// The task that waits for the request `mid` gets `mid`, as the first and only
/// thing that is ever put into its channel, whose sender is dropped with that.
/// It waits no more; every other request still waits as before, and nothing
/// else of the handler changes. The session is ended, once, if and only if no
/// task waits for the request or the one that does is no longer there.
pub proof fn law_request_gets_its_id(
    pre: HandlerView,
    post: HandlerView,
    mid: MessageId,
    told: Option<Sender<MessageId>>,
    calls: Seq<Call<'static>>,
    post_calls: Seq<Call<'static>>,
)
    requires
        pre.well_formed(),
        pre.completed(post, mid, told, calls, post_calls),
    ensures
        post.connect == pre.connect,
        post.subscriber_tx == pre.subscriber_tx,
        post.subscriber_rx == pre.subscriber_rx,
        !post.mids.contains_key(mid),
        forall|other: MessageId|
            other != mid ==> #[trigger] post.mids.contains_key(other) == pre.mids.contains_key(
                other,
            ),
        forall|other: MessageId|
            other != mid && #[trigger] pre.mids.contains_key(other) ==> post.mids[other]
                == pre.mids[other],
        told is Some <==> pre.mids.contains_key(mid),
        told is None ==> post_calls == calls.push(Call::Disconnect),
        told is Some ==> mid_is_all(pre.mids[mid], told->0, mid),
        told is Some && crate::channel::offered_mids(told->0)[0].1 == Answer::Taken ==> post_calls
            == calls,
        told is Some && crate::channel::offered_mids(told->0)[0].1 == Answer::Closed
            ==> post_calls == calls.push(Call::Disconnect),
{
}

/// `told` is the same channel as `waiting`, has been offered `mid` and nothing
/// else, had room for it, and has no sender any more.
pub open spec fn mid_is_all(
    waiting: Sender<MessageId>,
    told: Sender<MessageId>,
    mid: MessageId,
) -> bool {
    let offers = crate::channel::offered_mids(told);
    &&& offers.len() == 1
    &&& offers[0].0 == mid
    &&& offers[0].1 !is Full
    &&& crate::channel::dropped_mids(told)
    &&& forall|rx: Receiver<MessageId>| #[trigger]
        crate::channel::joined_mids(told, rx) == crate::channel::joined_mids(waiting, rx)
}

/// The end of a session gives up every request, whose senders are dropped
/// without having offered anything, and goes to the end of the feed, once. The
/// feed is over, with its sender dropped, if and only if the client had asked
/// for the end or the feed was over before. The session is ended again, once,
/// if and only if the feed was over or did not take the event.
pub proof fn law_end_is_fed_once(
    pre: HandlerView,
    post: HandlerView,
    reason: ReasonCode,
    told: Option<Sender<Event>>,
    calls: Seq<Call<'static>>,
    post_calls: Seq<Call<'static>>,
)
    requires
        pre.well_formed(),
        pre.disconnected(post, reason, told, calls, post_calls),
    ensures
        post.connect == pre.connect,
        post.subscriber_rx == pre.subscriber_rx,
        forall|mid: MessageId| !(#[trigger] post.mids.contains_key(mid)),
        forall|mid: MessageId| #[trigger]
            pre.mids.contains_key(mid) ==> crate::channel::dropped_mids(pre.mids[mid])
                && crate::channel::offered_mids(pre.mids[mid]).len() == 0,
        told is Some <==> pre.subscriber_tx is Some,
        told is None ==> post_calls == calls.push(Call::Disconnect),
        told is Some ==> event_is_last(
            pre.subscriber_tx->0,
            told->0,
            EventView::Disconnected(reason),
        ),
        told is Some && crate::channel::offered_events(told->0).last().1 == Answer::Taken
            ==> post_calls == calls,
        told is Some && crate::channel::offered_events(told->0).last().1 != Answer::Taken
            ==> post_calls == calls.push(Call::Disconnect),
        reason.0 != 0 ==> post.subscriber_tx == told,
        reason.0 == 0 ==> post.subscriber_tx is None,
        reason.0 == 0 && told is Some ==> crate::channel::dropped_events(told->0),
{
}

/// A task that begins to wait for a connection gets the receiving end of a
/// channel into which nothing has been put and which has room for one answer.
/// It alone waits then: the sender of an earlier one is dropped without having
/// offered anything. Nothing else of the handler changes.
pub proof fn law_wait_for_connection(
    pre: HandlerView,
    post: HandlerView,
    rx: Receiver<ConnectionStatus>,
)
    requires
        pre.well_formed(),
        pre.awaits_connection(post, rx),
    ensures
        post.connect is Some,
        crate::channel::joined_statuses(post.connect->0, rx),
        crate::channel::offered_statuses(post.connect->0).len() == 0,
        crate::channel::room_statuses(post.connect->0) == Some(1nat),
        pre.connect is Some ==> crate::channel::dropped_statuses(pre.connect->0)
            && crate::channel::offered_statuses(pre.connect->0).len() == 0,
        post.mids == pre.mids,
        post.subscriber_tx == pre.subscriber_tx,
        post.subscriber_rx == pre.subscriber_rx,
{
}

/// A task that begins to wait for a request gets the receiving end of a channel
/// into which nothing has been put and which has room for one acknowledgement.
/// The sender of an earlier one with the same id is dropped without having
/// offered anything; every other request still waits as before, and nothing
/// else of the handler changes.
pub proof fn law_wait_for_request(
    pre: HandlerView,
    post: HandlerView,
    mid: MessageId,
    rx: Receiver<MessageId>,
)
    requires
        pre.well_formed(),
        pre.awaits_completion(post, mid, rx),
    ensures
        post.mids.contains_key(mid),
        crate::channel::joined_mids(post.mids[mid], rx),
        crate::channel::offered_mids(post.mids[mid]).len() == 0,
        crate::channel::room_mids(post.mids[mid]) == Some(1nat),
        pre.mids.contains_key(mid) ==> crate::channel::dropped_mids(pre.mids[mid])
            && crate::channel::offered_mids(pre.mids[mid]).len() == 0,
        forall|other: MessageId|
            other != mid ==> #[trigger] post.mids.contains_key(other) == pre.mids.contains_key(
                other,
            ),
        forall|other: MessageId|
            other != mid && #[trigger] pre.mids.contains_key(other) ==> post.mids[other]
                == pre.mids[other],
        post.connect == pre.connect,
        post.subscriber_tx == pre.subscriber_tx,
        post.subscriber_rx == pre.subscriber_rx,
{
    assert forall|other: MessageId|
        other != mid && #[trigger] pre.mids.contains_key(other) implies post.mids[other]
        == pre.mids[other] by {
        assert(post.mids.contains_key(other));
    }
}

/// Asking for the reading end of the feed hands out the one that is kept, if it
/// still is, and changes nothing else.
pub proof fn law_claim(pre: HandlerView, post: HandlerView, rx: Option<Receiver<Event>>)
    requires
        pre.claimed(post, rx),
    ensures
        rx == pre.subscriber_rx,
        post.subscriber_rx is None,
        post.subscriber_tx == pre.subscriber_tx,
        post.connect == pre.connect,
        post.mids == pre.mids,
{
}

/// The reading end of the feed can be had only once: who asks for it after
/// someone else gets nothing.
pub proof fn law_subscriber_only_once(sessions: Seq<Session>, steps: Seq<Step>, i: int, j: int)
    requires
        runs(sessions, steps),
        0 <= i < j < steps.len(),
        steps[i] is Claim,
        steps[j] is Claim,
    ensures
        steps[j]->Claim_rx is None,
{
    lemma_feed(sessions[i], steps[i], sessions[i + 1]);
    lemma_claimed(sessions, steps, i + 1, j);
}

/// Who asks for the reading end of the feed first gets it, however late, and
/// it is the one that was made with the feed.
pub proof fn law_subscriber_first_time(sessions: Seq<Session>, steps: Seq<Step>, i: int)
    requires
        runs(sessions, steps),
        sessions[0].handler.is_fresh(),
        0 <= i < steps.len(),
        steps[i] is Claim,
        forall|k: int| 0 <= k < i ==> #[trigger] steps[k] !is Claim,
    ensures
        steps[i]->Claim_rx is Some,
        crate::channel::joined_events(
            sessions[0].handler.subscriber_tx->0,
            steps[i]->Claim_rx->0,
        ),
{
    lemma_unclaimed(sessions, steps, i);
}

/// The feed is one channel for as long as it is open, and what was offered to
/// it is never taken back or put in another order.
pub proof fn law_feed_only_grows(sessions: Seq<Session>, steps: Seq<Step>, i: int, j: int)
    requires
        runs(sessions, steps),
        0 <= i <= j <= steps.len(),
        sessions[j].handler.subscriber_tx is Some,
    ensures
        sessions[i].handler.subscriber_tx is Some,
        forall|rx: Receiver<Event>| #[trigger]
            crate::channel::joined_events(sessions[j].handler.subscriber_tx->0, rx)
                == crate::channel::joined_events(sessions[i].handler.subscriber_tx->0, rx),
        crate::channel::offered_events(sessions[i].handler.subscriber_tx->0).is_prefix_of(
            crate::channel::offered_events(sessions[j].handler.subscriber_tx->0),
        ),
    decreases j - i,
{
    if i < j {
        lemma_feed(sessions[j - 1], steps[j - 1], sessions[j]);
        law_feed_only_grows(sessions, steps, i, j - 1);
    }
}

/// Every event is offered to an open feed, once and in the order in which the
/// events happen, and nothing else is.
pub proof fn law_every_event_is_offered(sessions: Seq<Session>, steps: Seq<Step>)
    requires
        runs(sessions, steps),
        sessions.last().handler.subscriber_tx is Some,
    ensures
        sessions[0].handler.subscriber_tx is Some,
        crate::channel::messages(
            crate::channel::offered_events(sessions.last().handler.subscriber_tx->0),
        ) == crate::channel::messages(
            crate::channel::offered_events(sessions[0].handler.subscriber_tx->0),
        ) + events(steps),
    decreases steps.len(),
{
    if steps.len() > 0 {
        let pre = sessions[steps.len() - 1];
        let post = sessions.last();
        lemma_runs_earlier(sessions, steps);
        lemma_feed(pre, steps.last(), post);
        law_every_event_is_offered(sessions.drop_last(), steps.drop_last());
        if steps.last().event() is Some {
            lemma_one_more(
                crate::channel::offered_events(pre.handler.subscriber_tx->0),
                crate::channel::offered_events(post.handler.subscriber_tx->0).last(),
            );
        }
    }
}

/// No event is lost unnoticed: as long as the callbacks have not asked for the
/// session to be ended, an open feed has taken all events in the order in which
/// they happened, and nothing else.
pub proof fn law_feed_is_complete(sessions: Seq<Session>, steps: Seq<Step>)
    requires
        runs(sessions, steps),
        sessions.last().handler.subscriber_tx is Some,
        sessions.last().calls.len() == sessions[0].calls.len(),
    ensures
        sessions[0].handler.subscriber_tx is Some,
        crate::channel::taken(
            crate::channel::offered_events(sessions.last().handler.subscriber_tx->0),
        ) == crate::channel::taken(
            crate::channel::offered_events(sessions[0].handler.subscriber_tx->0),
        ) + events(steps),
    decreases steps.len(),
{
    if steps.len() > 0 {
        let pre = sessions[steps.len() - 1];
        let post = sessions.last();
        lemma_runs_earlier(sessions, steps);
        lemma_feed(pre, steps.last(), post);
        lemma_calls_grow(sessions, steps, steps.len() - 1);
        lemma_calls(pre, steps.last(), post);
        law_feed_is_complete(sessions.drop_last(), steps.drop_last());
        if steps.last().event() is Some {
            lemma_feed_answer(pre, steps.last(), post);
            lemma_one_more(
                crate::channel::offered_events(pre.handler.subscriber_tx->0),
                crate::channel::offered_events(post.handler.subscriber_tx->0).last(),
            );
        }
    }
}

/// As long as nobody has asked for its reading end, an open feed takes every
/// event, however many there are, in the order in which they happen. If no
/// task is told of anything else meanwhile, the session is never ended for it.
pub proof fn law_unclaimed_feed_takes_everything(sessions: Seq<Session>, steps: Seq<Step>)
    requires
        runs(sessions, steps),
        sessions[0].handler.well_formed(),
        sessions[0].handler.subscriber_tx is Some,
        sessions[0].handler.subscriber_rx is Some,
        forall|k: int|
            0 <= k < steps.len() ==> (#[trigger] steps[k]) !is Claim && !steps[k].is_final(),
    ensures
        sessions.last().handler.subscriber_tx is Some,
        crate::channel::taken(
            crate::channel::offered_events(sessions.last().handler.subscriber_tx->0),
        ) == crate::channel::taken(
            crate::channel::offered_events(sessions[0].handler.subscriber_tx->0),
        ) + events(steps),
        (forall|k: int| 0 <= k < steps.len() ==> (#[trigger] steps[k]).tells_nobody())
            ==> sessions.last().calls == sessions[0].calls,
    decreases steps.len(),
{
    if steps.len() > 0 {
        let n = steps.len() - 1;
        let pre = sessions[n];
        let post = sessions.last();
        lemma_runs_earlier(sessions, steps);
        assert forall|k: int| 0 <= k < n implies (#[trigger] steps.drop_last()[k]) !is Claim
            && !steps.drop_last()[k].is_final() by {
            assert(steps.drop_last()[k] == steps[k]);
        }
        law_unclaimed_feed_takes_everything(sessions.drop_last(), steps.drop_last());
        law_session_stays_well_formed(sessions, steps, n);
        lemma_unclaimed(sessions, steps, n);
        assert(steps[n] == steps.last());
        lemma_feed(pre, steps.last(), post);
        if steps.last().event() is Some {
            lemma_feed_answer(pre, steps.last(), post);
            lemma_one_more(
                crate::channel::offered_events(pre.handler.subscriber_tx->0),
                crate::channel::offered_events(post.handler.subscriber_tx->0).last(),
            );
        }
        if forall|k: int| 0 <= k < steps.len() ==> (#[trigger] steps[k]).tells_nobody() {
            assert forall|k: int| 0 <= k < n implies (
            #[trigger] steps.drop_last()[k]).tells_nobody() by {
                assert(steps.drop_last()[k] == steps[k]);
            }
        }
    }
}

/// A message is refused only because nobody is left who could receive it: no
/// channel of a session is ever full.
pub proof fn law_refused_only_without_receiver(pre: Session, step: Step, post: Session)
    requires
        happens(pre, step, post),
        pre.handler.well_formed(),
    ensures
        step.event() is Some && step.feed(post) is Some ==> crate::channel::event_answer(
            step.feed(post)->0,
        ) !is Full,
        step.answers() && step.told_status() is Some ==> crate::channel::status_answer(
            step.told_status()->0,
        ) !is Full,
        step is Completed && step->Completed_told is Some ==> crate::channel::mid_answer(
            step->Completed_told->0,
        ) !is Full,
{
    lemma_feed(pre, step, post);
}

/// Once a feed has found its reader gone, it finds them gone for every further
/// event, and the session is ended each time.
pub proof fn law_lost_reader(sessions: Seq<Session>, steps: Seq<Step>, i: int, j: int)
    requires
        runs(sessions, steps),
        0 <= i < j < steps.len(),
        steps[i].event() is Some,
        steps[i].feed(sessions[i + 1]) is Some,
        crate::channel::event_answer(steps[i].feed(sessions[i + 1])->0) is Closed,
        steps[j].event() is Some,
        steps[j].feed(sessions[j + 1]) is Some,
    ensures
        crate::channel::event_answer(steps[j].feed(sessions[j + 1])->0) is Closed,
        sessions[j + 1].calls.len() > sessions[j].calls.len(),
        sessions[j + 1].calls.last() == Call::<'static>::Disconnect,
{
    assert(happens(sessions[i], steps[i], sessions[i + 1]));
    assert(happens(sessions[j], steps[j], sessions[j + 1]));
    lemma_feed(sessions[i], steps[i], sessions[i + 1]);
    lemma_feed(sessions[j], steps[j], sessions[j + 1]);
    law_feed_only_grows(sessions, steps, i + 1, j);
    lemma_still_lost(sessions, steps, i + 1, j);
    lemma_feed_answer(sessions[j], steps[j], sessions[j + 1]);
}

proof fn lemma_still_lost(sessions: Seq<Session>, steps: Seq<Step>, i: int, j: int)
    requires
        runs(sessions, steps),
        0 <= i <= j <= steps.len(),
        sessions[i].handler.subscriber_tx is Some,
        crate::channel::offered_events(sessions[i].handler.subscriber_tx->0).len() > 0,
        crate::channel::event_answer(sessions[i].handler.subscriber_tx->0) is Closed,
        sessions[j].handler.subscriber_tx is Some,
    ensures
        crate::channel::offered_events(sessions[j].handler.subscriber_tx->0).len() > 0,
        crate::channel::event_answer(sessions[j].handler.subscriber_tx->0) is Closed,
    decreases j - i,
{
    if i < j {
        lemma_feed(sessions[j - 1], steps[j - 1], sessions[j]);
        lemma_still_lost(sessions, steps, i, j - 1);
    }
}

/// Only an end that the client asked for closes the feed: after an unexpected
/// one it stays open for what comes after a reconnect.
pub proof fn law_feed_stays_open(sessions: Seq<Session>, steps: Seq<Step>, i: int, j: int)
    requires
        runs(sessions, steps),
        0 <= i <= j <= steps.len(),
        sessions[i].handler.subscriber_tx is Some,
        forall|k: int| i <= k < j ==> !(#[trigger] steps[k]).is_final(),
    ensures
        sessions[j].handler.subscriber_tx is Some,
    decreases j - i,
{
    if i < j {
        law_feed_stays_open(sessions, steps, i, j - 1);
        lemma_feed(sessions[j - 1], steps[j - 1], sessions[j]);
    }
}

/// After an end that the client asked for, the feed is over for good.
pub proof fn law_feed_stays_closed(sessions: Seq<Session>, steps: Seq<Step>, i: int, j: int)
    requires
        runs(sessions, steps),
        0 <= i < j <= steps.len(),
        steps[i].is_final(),
    ensures
        sessions[j].handler.subscriber_tx is None,
    decreases j - i,
{
    lemma_feed(sessions[j - 1], steps[j - 1], sessions[j]);
    if i + 1 < j {
        law_feed_stays_closed(sessions, steps, i, j - 1);
    }
}

/// When the client has asked for the end, the feed has been offered all events
/// up to the end, and the end is the last of them: its sender was dropped with
/// that.
pub proof fn law_disconnected_is_last(sessions: Seq<Session>, steps: Seq<Step>)
    requires
        runs(sessions, steps),
        steps.len() > 0,
        steps.last().is_final(),
        sessions[steps.len() - 1].handler.subscriber_tx is Some,
    ensures
        steps.last()->Disconnected_told is Some,
        sessions[0].handler.subscriber_tx is Some,
        crate::channel::messages(
            crate::channel::offered_events(steps.last()->Disconnected_told->0),
        ) == crate::channel::messages(
            crate::channel::offered_events(sessions[0].handler.subscriber_tx->0),
        ) + events(steps),
        events(steps).last() == EventView::Disconnected(ReasonCode(0)),
        crate::channel::dropped_events(steps.last()->Disconnected_told->0),
        sessions.last().handler.subscriber_tx is None,
{
    let pre = sessions[steps.len() - 1];
    let over = steps.last()->Disconnected_told->0;
    lemma_runs_earlier(sessions, steps);
    lemma_feed(pre, steps.last(), sessions.last());
    law_every_event_is_offered(sessions.drop_last(), steps.drop_last());
    lemma_one_more(
        crate::channel::offered_events(pre.handler.subscriber_tx->0),
        crate::channel::offered_events(over).last(),
    );
}

/// Once the feed is over, every further event ends the session again.
pub proof fn law_event_without_feed(pre: Session, step: Step, post: Session)
    requires
        happens(pre, step, post),
        pre.handler.subscriber_tx is None,
        step.event() is Some,
    ensures
        post.calls.len() > pre.calls.len(),
        post.calls.last() == Call::<'static>::Disconnect,
        step.tells_nobody() ==> post.calls == pre.calls.push(Call::Disconnect),
{
}

/// The answer to a connection attempt ends the session once for a task that is
/// no longer there, and once for a feed that is over or has lost its reader.
pub proof fn law_disconnects_of_connection(pre: Session, step: Step, post: Session)
    requires
        happens(pre, step, post),
        pre.handler.well_formed(),
        step is Connected,
    ensures
        post.calls.len() == pre.calls.len() + (if step->Connected_told is Some
            && crate::channel::status_answer(step->Connected_told->0) is Closed {
            1int
        } else {
            0int
        }) + (if post.handler.subscriber_tx is None || crate::channel::event_answer(
            post.handler.subscriber_tx->0,
        ) is Closed {
            1int
        } else {
            0int
        }),
        step->Connected_told is Some <==> pre.handler.connect is Some,
{
    law_refused_only_without_receiver(pre, step, post);
}

/// A connection attempt that is answered in two halves is answered as by the
/// whole.
pub proof fn law_connection_in_two_halves(
    pre: Session,
    status: ConnectionStatus,
    told: Option<Sender<ConnectionStatus>>,
    between: Session,
    post: Session,
)
    requires
        happens(pre, (Step::Answered { status, told }), between),
        happens(between, (Step::Dispatched { event: EventView::Connected(status) }), post),
    ensures
        happens(pre, (Step::Connected { status, told }), post),
{
}

/// The task that waits for a request is offered its acknowledgement, and
/// nothing else, whatever happens to other requests meanwhile; if it is no
/// longer there, the session is ended. Then nothing waits for the request any
/// more.
pub proof fn law_request_completed(sessions: Seq<Session>, steps: Seq<Step>, i: int, j: int)
    requires
        runs(sessions, steps),
        waits(steps, i, j),
    ensures
        acknowledgement_told(
            steps[j]->Completed_told,
            steps[i]->AwaitCompletion_rx,
            steps[i]->AwaitCompletion_mid,
            sessions[j].calls,
            sessions[j + 1].calls,
        ),
        !sessions[j + 1].handler.mids.contains_key(steps[i]->AwaitCompletion_mid),
{
    let mid = steps[i]->AwaitCompletion_mid;
    assert(happens(sessions[i], steps[i], sessions[i + 1]));
    lemma_request_waits(sessions, steps, mid, i + 1, j);
    assert(happens(sessions[j], steps[j], sessions[j + 1]));
}

/// Two requests that wait at the same time are acknowledged in either order,
/// each with its own id.
pub proof fn law_two_requests(
    sessions: Seq<Session>,
    steps: Seq<Step>,
    i: int,
    j: int,
    k: int,
    l: int,
)
    requires
        runs(sessions, steps),
        waits(steps, i, j),
        waits(steps, k, l),
        steps[i]->AwaitCompletion_mid != steps[k]->AwaitCompletion_mid,
    ensures
        j != l,
        acknowledgement_told(
            steps[j]->Completed_told,
            steps[i]->AwaitCompletion_rx,
            steps[i]->AwaitCompletion_mid,
            sessions[j].calls,
            sessions[j + 1].calls,
        ),
        acknowledgement_told(
            steps[l]->Completed_told,
            steps[k]->AwaitCompletion_rx,
            steps[k]->AwaitCompletion_mid,
            sessions[l].calls,
            sessions[l + 1].calls,
        ),
{
    law_request_completed(sessions, steps, i, j);
    law_request_completed(sessions, steps, k, l);
}

/// An acknowledgement for which no task waits ends the session: a second one
/// for the same request, or one that comes after the session was lost.
pub proof fn law_stray_acknowledgement(
    sessions: Seq<Session>,
    steps: Seq<Step>,
    mid: MessageId,
    i: int,
    j: int,
)
    requires
        runs(sessions, steps),
        0 <= i < j < steps.len(),
        steps[i].completes(mid) || steps[i] is Disconnected,
        steps[j].completes(mid),
        forall|k: int| i < k < j ==> !(#[trigger] steps[k]).awaits(mid),
    ensures
        steps[j]->Completed_told is None,
        sessions[j + 1].calls == sessions[j].calls.push(Call::Disconnect),
{
    lemma_mids(sessions[i], steps[i], sessions[i + 1], mid);
    lemma_request_gone(sessions, steps, mid, i + 1, j);
    assert(happens(sessions[j], steps[j], sessions[j + 1]));
}

/// A second request with the same id takes the acknowledgement from the first:
/// the sender of the task that waits for the first is dropped and has offered
/// nothing, and the acknowledgement goes to the second.
pub proof fn law_later_request_takes_over(
    sessions: Seq<Session>,
    steps: Seq<Step>,
    i: int,
    j: int,
    k: int,
)
    requires
        runs(sessions, steps),
        0 <= i < j,
        steps[i] is AwaitCompletion,
        steps[j].awaits(steps[i]->AwaitCompletion_mid),
        forall|l: int|
            i < l < j ==> !(#[trigger] steps[l]).awaits(steps[i]->AwaitCompletion_mid)
                && !steps[l].completes(steps[i]->AwaitCompletion_mid) && steps[l] !is Disconnected,
        waits(steps, j, k),
    ensures
        crate::channel::joined_mids(
            sessions[j].handler.mids[steps[i]->AwaitCompletion_mid],
            steps[i]->AwaitCompletion_rx,
        ),
        crate::channel::offered_mids(
            sessions[j].handler.mids[steps[i]->AwaitCompletion_mid],
        ).len() == 0,
        crate::channel::dropped_mids(sessions[j].handler.mids[steps[i]->AwaitCompletion_mid]),
        acknowledgement_told(
            steps[k]->Completed_told,
            steps[j]->AwaitCompletion_rx,
            steps[i]->AwaitCompletion_mid,
            sessions[k].calls,
            sessions[k + 1].calls,
        ),
{
    let mid = steps[i]->AwaitCompletion_mid;
    assert(happens(sessions[i], steps[i], sessions[i + 1]));
    lemma_request_waits(sessions, steps, mid, i + 1, j);
    assert(happens(sessions[j], steps[j], sessions[j + 1]));
    law_request_completed(sessions, steps, j, k);
}

/// When the session ends, every request that waits is given up: the sender of
/// the task that waits for it is dropped and has offered nothing.
pub proof fn law_requests_given_up(
    sessions: Seq<Session>,
    steps: Seq<Step>,
    i: int,
    j: int,
)
    requires
        runs(sessions, steps),
        0 <= i < j < steps.len(),
        steps[i] is AwaitCompletion,
        steps[j] is Disconnected,
        forall|k: int|
            i < k < j ==> !(#[trigger] steps[k]).awaits(steps[i]->AwaitCompletion_mid)
                && !steps[k].completes(steps[i]->AwaitCompletion_mid) && steps[k] !is Disconnected,
    ensures
        sessions[j].handler.mids.contains_key(steps[i]->AwaitCompletion_mid),
        crate::channel::joined_mids(
            sessions[j].handler.mids[steps[i]->AwaitCompletion_mid],
            steps[i]->AwaitCompletion_rx,
        ),
        crate::channel::offered_mids(
            sessions[j].handler.mids[steps[i]->AwaitCompletion_mid],
        ).len() == 0,
        crate::channel::dropped_mids(sessions[j].handler.mids[steps[i]->AwaitCompletion_mid]),
        sessions[j + 1].handler.mids == Map::<MessageId, Sender<MessageId>>::empty(),
{
    assert(happens(sessions[i], steps[i], sessions[i + 1]));
    lemma_request_waits(sessions, steps, steps[i]->AwaitCompletion_mid, i + 1, j);
    assert(happens(sessions[j], steps[j], sessions[j + 1]));
}

/// The acknowledgements of a published message, of a subscription with
/// whatever levels of service, and of the end of a subscription act alike:
/// what becomes of the session depends on the id and on the answer of the
/// channel alone.
pub proof fn law_acknowledgements_alike(
    pre: Session,
    mid: MessageId,
    one_told: Option<Sender<MessageId>>,
    one: Session,
    other_told: Option<Sender<MessageId>>,
    other: Session,
)
    requires
        happens(pre, (Step::Completed { mid, told: one_told }), one),
        happens(pre, (Step::Completed { mid, told: other_told }), other),
    ensures
        one.handler == other.handler,
        one_told is Some <==> other_told is Some,
        one_told is None ==> one.calls == other.calls,
        one_told is Some && crate::channel::mid_answer(one_told->0) == crate::channel::mid_answer(
            other_told->0,
        ) ==> one.calls == other.calls && crate::channel::offered_mids(one_told->0)
            == crate::channel::offered_mids(other_told->0),
{
}

/// The task that waits for a connection is offered the next answer of the
/// broker, and nothing else; if it is no longer there, the session is ended.
/// Then nothing waits for a connection any more.
pub proof fn law_connection_answered(sessions: Seq<Session>, steps: Seq<Step>, i: int, j: int)
    requires
        runs(sessions, steps),
        0 <= i < j < steps.len(),
        steps[i] is AwaitConnection,
        steps[j].answers(),
        forall|k: int|
            i < k < j ==> (#[trigger] steps[k]) !is AwaitConnection && !steps[k].answers(),
    ensures
        answer_told(
            steps[j].told_status(),
            steps[i]->AwaitConnection_rx,
            steps[j].status(),
            sessions[j].calls,
            sessions[j + 1].calls,
        ),
        sessions[j + 1].handler.connect is None,
{
    assert(happens(sessions[i], steps[i], sessions[i + 1]));
    lemma_connection_waits(sessions, steps, i + 1, j);
    assert(happens(sessions[j], steps[j], sessions[j + 1]));
    lemma_connect(sessions[j], steps[j], sessions[j + 1]);
}

/// A second attempt to connect takes the answer from the first: the sender of
/// the task that waits for the first is dropped and has offered nothing, and
/// the answer goes to the second.
pub proof fn law_later_attempt_takes_over(
    sessions: Seq<Session>,
    steps: Seq<Step>,
    i: int,
    j: int,
    k: int,
)
    requires
        runs(sessions, steps),
        0 <= i < j < k < steps.len(),
        steps[i] is AwaitConnection,
        steps[j] is AwaitConnection,
        steps[k].answers(),
        forall|l: int|
            i < l < k && l != j ==> (#[trigger] steps[l]) !is AwaitConnection
                && !steps[l].answers(),
    ensures
        sessions[j].handler.connect is Some,
        crate::channel::joined_statuses(
            sessions[j].handler.connect->0,
            steps[i]->AwaitConnection_rx,
        ),
        crate::channel::offered_statuses(sessions[j].handler.connect->0).len() == 0,
        crate::channel::dropped_statuses(sessions[j].handler.connect->0),
        answer_told(
            steps[k].told_status(),
            steps[j]->AwaitConnection_rx,
            steps[k].status(),
            sessions[k].calls,
            sessions[k + 1].calls,
        ),
{
    assert(happens(sessions[i], steps[i], sessions[i + 1]));
    lemma_connection_waits(sessions, steps, i + 1, j);
    assert(happens(sessions[j], steps[j], sessions[j + 1]));
    law_connection_answered(sessions, steps, j, k);
}

/// An attempt to connect is answered once: when the session reconnects by
/// itself, no task is told of it.
pub proof fn law_reconnection_unanswered(sessions: Seq<Session>, steps: Seq<Step>, i: int, j: int)
    requires
        runs(sessions, steps),
        0 <= i < j < steps.len(),
        steps[i].answers(),
        steps[j].answers(),
        forall|k: int| i < k < j ==> (#[trigger] steps[k]) !is AwaitConnection,
    ensures
        steps[j].told_status() is None,
{
    lemma_connect(sessions[i], steps[i], sessions[i + 1]);
    lemma_nobody_connects(sessions, steps, i + 1, j);
    assert(happens(sessions[j], steps[j], sessions[j + 1]));
}

/// The call that sets a maximum carries that number unchanged, the one for OCSP
/// a one if and only if it is required, and the one for the protocol the number
/// by which MQTT knows it; each names its own option.
pub proof fn law_option_numbers(maximum: u16, required: bool)
    ensures
        sets_number(
            ClientOption::ReceiveMaximum(maximum),
            MosqOption::ReceiveMaximum,
            maximum as int,
        ),
        sets_number(ClientOption::SendMaximum(maximum), MosqOption::SendMaximum, maximum as int),
        required ==> sets_number(
            ClientOption::OcspRequired(required),
            MosqOption::TlsOcspRequired,
            1,
        ),
        !required ==> sets_number(
            ClientOption::OcspRequired(required),
            MosqOption::TlsOcspRequired,
            0,
        ),
        sets_number(
            ClientOption::ProtocolVersion(ProtocolVersion::V31),
            MosqOption::ProtocolVersion,
            3,
        ),
        sets_number(
            ClientOption::ProtocolVersion(ProtocolVersion::V311),
            MosqOption::ProtocolVersion,
            4,
        ),
        sets_number(
            ClientOption::ProtocolVersion(ProtocolVersion::V5),
            MosqOption::ProtocolVersion,
            5,
        ),
        ProtocolVersion::V31.spec_number() == 3,
        ProtocolVersion::V311.spec_number() == 4,
        ProtocolVersion::V5.spec_number() == 5,
{
}

/// The call that sets an option with a text carries that text unchanged, and
/// names its own option.
pub proof fn law_option_texts<'a>(text: &'a str)
    ensures
        sets_text(ClientOption::TlsEngine(text), MosqOption::TlsEngine, text),
        sets_text(ClientOption::TlsKeyForm(text), MosqOption::TlsKeyForm, text),
        sets_text(ClientOption::TlsKPassSha1(text), MosqOption::TlsEngineKpassSha1, text),
        sets_text(ClientOption::TlsALPN(text), MosqOption::TlsAlpn, text),
{
}

/// The option is set by the call that gives `name` the number `value`.
pub open spec fn sets_number<'a>(option: ClientOption<'a>, name: MosqOption, value: int) -> bool {
    &&& option.setting() is SetIntOption
    &&& option.setting()->SetIntOption_option == name
    &&& option.setting()->number as int == value
}

/// The option is set by the call that gives `name` the text `value`.
pub open spec fn sets_text<'a>(option: ClientOption<'a>, name: MosqOption, value: &'a str) -> bool {
    &&& option.setting() is SetStringOption
    &&& option.setting()->SetStringOption_option == name
    &&& option.setting()->text == value
}

/// Two options that are set by the same call are the same option with the same
/// value.
pub proof fn law_options_are_distinct<'a>(one: ClientOption<'a>, other: ClientOption<'a>)
    requires
        one.setting() == other.setting(),
    ensures
        one == other,
{
}

/// Whether the host name in the server's certificate is verified after some
/// calls: it is by default, and the last call that chooses decides.
pub open spec fn validates_hostname(calls: Seq<Call<'static>>) -> bool
    decreases calls.len(),
{
    if calls.len() == 0 {
        true
    } else {
        match calls.last() {
            Call::SetTlsInsecure { insecure } => !insecure,
            _ => validates_hostname(calls.drop_last()),
        }
    }
}

/// Enabling the verification of the host name undoes any number of disablings,
/// and disabling it any number of enablings; no other call has a say.
pub proof fn law_hostname_validation(calls: Seq<Call<'static>>, call: Call<'static>)
    ensures
        validates_hostname(calls.push(Call::SetTlsInsecure { insecure: false })),
        !validates_hostname(calls.push(Call::SetTlsInsecure { insecure: true })),
        call !is SetTlsInsecure ==> validates_hostname(calls.push(call)) == validates_hostname(
            calls,
        ),
{
    assert(calls.push(call).drop_last() =~= calls);
}

/// Whether there is a will after some calls: there is none by default, and the
/// last call that sets or clears it decides.
pub open spec fn has_will(calls: Seq<Call<'static>>) -> bool
    decreases calls.len(),
{
    if calls.len() == 0 {
        false
    } else {
        match calls.last() {
            Call::SetLastWill { .. } => true,
            Call::ClearLastWill => false,
            _ => has_will(calls.drop_last()),
        }
    }
}

/// Clearing the will undoes setting it, however often it was set: there is
/// none again, as for a client that never had one. No other call has a say.
pub proof fn law_last_will(
    calls: Seq<Call<'static>>,
    topic: &'static str,
    payload: &'static [u8],
    qos: QoS,
    retain: bool,
    call: Call<'static>,
)
    ensures
        !has_will(Seq::empty()),
        has_will(calls.push(Call::SetLastWill { topic, payload, qos, retain })),
        !has_will(calls.push(Call::ClearLastWill)),
        call !is SetLastWill && call !is ClearLastWill ==> has_will(calls.push(call)) == has_will(
            calls,
        ),
{
    assert(calls.push(call).drop_last() =~= calls);
}

/// A client can be used exactly if the session was made and its thread was
/// started; the thread is started only once the session was made, and what
/// failed first is reported.
pub proof fn law_setup<'a>(create: Call<'a>, made: Result<(), Error>, started: Result<(), Error>)
    ensures
        Setup::Create(create).spec_call() == create,
        match (made, started) {
            (Err(error), _) => Setup::Create(create).spec_reply(made) == Progress::<'a>::Failed(
                error,
            ),
            (Ok(()), _) => {
                &&& Setup::Create(create).spec_reply(made) matches Progress::Next(next)
                &&& next == Setup::<'a>::Start
                &&& next.spec_call() == Call::<'a>::StartLoopThread
                &&& next.spec_reply(started) == match started {
                    Ok(()) => Progress::<'a>::Ready,
                    Err(error) => Progress::<'a>::Failed(error),
                }
            },
        },
{
}

/// A payload that was made from text is shown as that text.
pub proof fn law_text_is_shown_as_text(text: Seq<char>)
    ensures
        crate::message::shown_payload(vstd::utf8::encode_utf8(text)) == crate::render::quoted(
            text,
        ),
{
    vstd::utf8::encode_utf8_valid_utf8(text);
    vstd::utf8::encode_utf8_decode_utf8(text);
}

/// What stands between the payload and the id in the text of a message.
pub open spec fn level_and_flag(qos: QoS, retain: bool) -> Seq<char> {
    match (qos, retain) {
        (QoS::AtMostOnce, true) => ", qos: AtMostOnce, retain: true, mid: "@,
        (QoS::AtMostOnce, false) => ", qos: AtMostOnce, retain: false, mid: "@,
        (QoS::AtLeastOnce, true) => ", qos: AtLeastOnce, retain: true, mid: "@,
        (QoS::AtLeastOnce, false) => ", qos: AtLeastOnce, retain: false, mid: "@,
        (QoS::ExactlyOnce, true) => ", qos: ExactlyOnce, retain: true, mid: "@,
        (QoS::ExactlyOnce, false) => ", qos: ExactlyOnce, retain: false, mid: "@,
    }
}

proof fn lemma_level_and_flag(qos: QoS, retain: bool)
    ensures
        level_and_flag(qos, retain) == ", qos: "@ + qos.spec_name() + ", retain: "@ + (if retain {
            "true"@
        } else {
            "false"@
        }) + ", mid: "@,
{
    reveal_strlit(", qos: ");
    reveal_strlit("AtMostOnce");
    reveal_strlit("AtLeastOnce");
    reveal_strlit("ExactlyOnce");
    reveal_strlit(", retain: ");
    reveal_strlit("true");
    reveal_strlit("false");
    reveal_strlit(", mid: ");
    reveal_strlit(", qos: AtMostOnce, retain: true, mid: ");
    reveal_strlit(", qos: AtMostOnce, retain: false, mid: ");
    reveal_strlit(", qos: AtLeastOnce, retain: true, mid: ");
    reveal_strlit(", qos: AtLeastOnce, retain: false, mid: ");
    reveal_strlit(", qos: ExactlyOnce, retain: true, mid: ");
    reveal_strlit(", qos: ExactlyOnce, retain: false, mid: ");
    assert(level_and_flag(qos, retain) =~= ", qos: "@ + qos.spec_name() + ", retain: "@ + (
    if retain {
        "true"@
    } else {
        "false"@
    }) + ", mid: "@);
}

/// The text of a message has its topic, its payload, its level of service by
/// name, `true` if and only if the retain flag is set, and its id, each behind
/// the name of its field.
pub proof fn law_message_text(message: MessageView, topic: Seq<char>, payload: Seq<char>)
    ensures
        message.shown_with(topic, payload) == "Message { topic: "@ + topic + ", payload: "@
            + payload + level_and_flag(message.qos, message.retain)
            + crate::render::signed_decimal(message.mid as int) + " }"@,
        message.shown() == message.shown_with(
            crate::render::quoted(message.topic),
            crate::message::shown_payload(message.payload),
        ),
{
    lemma_level_and_flag(message.qos, message.retain);
    assert(message.shown_with(topic, payload) =~= "Message { topic: "@ + topic + ", payload: "@
        + payload + level_and_flag(message.qos, message.retain) + crate::render::signed_decimal(
        message.mid as int,
    ) + " }"@);
}

/// Messages whose topic and payload are shown alike are shown alike only if
/// they have the same level of service, the same retain flag and the same id.
pub proof fn law_messages_are_shown_apart(
    one: MessageView,
    other: MessageView,
    topic: Seq<char>,
    payload: Seq<char>,
)
    requires
        one.shown_with(topic, payload) == other.shown_with(topic, payload),
    ensures
        one.qos == other.qos,
        one.retain == other.retain,
        one.mid == other.mid,
{
    law_message_text(one, topic, payload);
    law_message_text(other, topic, payload);
    let start = "Message { topic: "@ + topic + ", payload: "@ + payload;
    let n = start.len() as int;
    let text = one.shown_with(topic, payload);
    let one_number = crate::render::signed_decimal(one.mid as int);
    let other_number = crate::render::signed_decimal(other.mid as int);
    let one_rest = level_and_flag(one.qos, one.retain) + one_number + " }"@;
    let other_rest = level_and_flag(other.qos, other.retain) + other_number + " }"@;
    assert(text.skip(n) =~= one_rest);
    assert(text.skip(n) =~= other_rest);
    reveal_strlit(", qos: AtMostOnce, retain: true, mid: ");
    reveal_strlit(", qos: AtMostOnce, retain: false, mid: ");
    reveal_strlit(", qos: AtLeastOnce, retain: true, mid: ");
    reveal_strlit(", qos: AtLeastOnce, retain: false, mid: ");
    reveal_strlit(", qos: ExactlyOnce, retain: true, mid: ");
    reveal_strlit(", qos: ExactlyOnce, retain: false, mid: ");
    reveal_strlit(" }");
    // The level differs by its first or third letter, the flag by its first.
    assert(one_rest[7] == other_rest[7]);
    assert(one_rest[9] == other_rest[9]);
    assert(one.qos == other.qos);
    let flag: int = if one.qos is AtMostOnce {
        27
    } else {
        28
    };
    assert(one_rest[flag] == other_rest[flag]);
    assert(one.retain == other.retain);
    let m = level_and_flag(one.qos, one.retain).len() as int;
    assert(one_rest.subrange(m, one_rest.len() - 2) =~= one_number);
    assert(other_rest.subrange(m, other_rest.len() - 2) =~= other_number);
    crate::render::law_numbers_are_shown_apart(one.mid as int, other.mid as int);
}

/// The text of an event names its kind and has the text of the message, or the
/// code with which the session was connected or ended.
pub proof fn law_event_text(message: MessageView, status: ConnectionStatus, reason: ReasonCode)
    ensures
        EventView::Message(message).shown() == "Message("@ + message.shown() + ")"@,
        EventView::Connected(status).shown() == "Connected(ConnectionStatus("@
            + crate::render::signed_decimal(status.0 as int) + "))"@,
        EventView::Disconnected(reason).shown() == "Disconnected(ReasonCode("@
            + crate::render::signed_decimal(reason.0 as int) + "))"@,
{
}

/// A level of service is shown by its name.
pub proof fn law_level_names()
    ensures
        QoS::AtMostOnce.spec_name() == "AtMostOnce"@,
        QoS::AtLeastOnce.spec_name() == "AtLeastOnce"@,
        QoS::ExactlyOnce.spec_name() == "ExactlyOnce"@,
{
}

/// Quoting a string puts it into quotes and loses none of its characters.
pub open spec fn quoting_is_faithful() -> bool {
    &&& forall|one: Seq<char>, other: Seq<char>| #[trigger]
        crate::render::quoted(one) == #[trigger] crate::render::quoted(other) ==> one == other
    &&& forall|text: Seq<char>|
        (#[trigger] crate::render::quoted(text)).len() > 0 && crate::render::quoted(text)[0] == '"'
}

/// A payload that is not text is shown as the list of its bytes: with a bracket
/// at either end, and in between the two hexadecimal digits of each byte, the
/// higher first, and a comma and a space behind each but the last.
pub proof fn law_bytes_are_shown_as_bytes(payload: Seq<u8>, i: int)
    requires
        !vstd::utf8::valid_utf8(payload),
        0 <= i < payload.len(),
    ensures
        crate::message::shown_payload(payload).len() == 4 * payload.len(),
        crate::message::shown_payload(payload)[0] == '[',
        crate::message::shown_payload(payload).last() == ']',
        crate::render::is_hex_digit(crate::message::shown_payload(payload)[4 * i + 1]),
        crate::render::is_hex_digit(crate::message::shown_payload(payload)[4 * i + 2]),
        16 * crate::render::digit_value(crate::message::shown_payload(payload)[4 * i + 1])
            + crate::render::digit_value(crate::message::shown_payload(payload)[4 * i + 2])
            == payload[i],
        i < payload.len() - 1 ==> crate::message::shown_payload(payload)[4 * i + 3] == ','
            && crate::message::shown_payload(payload)[4 * i + 4] == ' ',
{
    crate::render::law_hex_list(payload, i);
}

/// No byte of a payload is lost or replaced when it is shown. Payloads that are
/// not text are shown alike only if they are the same; for text, the same holds
/// of what is quoted, and so of what is shown as far as quoting is faithful.
pub proof fn law_payloads_are_shown_apart(one: Seq<u8>, other: Seq<u8>)
    ensures
        one == other ==> crate::message::shown_payload(one) == crate::message::shown_payload(
            other,
        ),
        !vstd::utf8::valid_utf8(one) && !vstd::utf8::valid_utf8(other)
            && crate::message::shown_payload(one) == crate::message::shown_payload(other) ==> one
            == other,
        vstd::utf8::valid_utf8(one) && vstd::utf8::valid_utf8(other)
            && vstd::utf8::decode_utf8(one) == vstd::utf8::decode_utf8(other) ==> one == other,
        quoting_is_faithful() ==> (crate::message::shown_payload(one)
            == crate::message::shown_payload(other) <==> one == other),
{
    if !vstd::utf8::valid_utf8(one) && !vstd::utf8::valid_utf8(other) {
        if crate::message::shown_payload(one) == crate::message::shown_payload(other) {
            crate::render::law_hex_lists_are_distinct(one, other);
        }
    }
    if vstd::utf8::valid_utf8(one) && vstd::utf8::valid_utf8(other) {
        vstd::utf8::decode_utf8_encode_utf8(one);
        vstd::utf8::decode_utf8_encode_utf8(other);
    }
    reveal_strlit("[");
    assert(crate::render::hex_list(one)[0] == '[');
    assert(crate::render::hex_list(other)[0] == '[');
    if quoting_is_faithful() && crate::message::shown_payload(one)
        == crate::message::shown_payload(other) {
        let one_text = crate::render::quoted(vstd::utf8::decode_utf8(one));
        let other_text = crate::render::quoted(vstd::utf8::decode_utf8(other));
        assert(one_text[0] == '"' && other_text[0] == '"');
        assert(one == other);
    }
}

} // verus!
