//! The session manager: the connection state machine, subscription replay
//! and the bounded, ordered inbox of decoded frames. The caller performs
//! the socket work each transition asks for and reports what happened.
use std::collections::VecDeque;
use vstd::prelude::*;

use crate::codec::{decode_frame, decodes_to, encode_envelope, envelope_json, ControlAction, DecodeError, Frame};
use crate::model::{ConnectionStatus, Subscription};
use crate::registry::{add_all, remove_all, Registry};

verus! {

/// A bounded first-in first-out queue; a full queue refuses an item and
/// hands it back, so that the producer waits instead of growing memory.
pub struct BoundedQueue<T> {
    items: VecDeque<T>,
    capacity: usize,
}

impl<T> View for BoundedQueue<T> {
    type V = Seq<T>;

    closed spec fn view(&self) -> Seq<T> {
        self.items@
    }
}

impl<T> BoundedQueue<T> {
    pub closed spec fn capacity_spec(&self) -> nat {
        self.capacity as nat
    }

    pub open spec fn wf(&self) -> bool {
        0 < self.capacity_spec() && self@.len() <= self.capacity_spec()
    }

    /// An empty queue that holds at most `capacity` items.
    pub fn new(capacity: usize) -> (r: Self)
        requires
            capacity > 0,
        ensures
            r.wf(),
            r@ == Seq::<T>::empty(),
            r.capacity_spec() == capacity,
    {
        BoundedQueue { items: VecDeque::new(), capacity }
    }

    pub fn len(&self) -> (r: usize)
        ensures
            r == self@.len(),
    {
        self.items.len()
    }

    pub fn capacity(&self) -> (r: usize)
        ensures
            r == self.capacity_spec(),
    {
        self.capacity
    }

    /// Appends `item` at the back, or hands it back when the queue is full.
    pub fn offer(&mut self, item: T) -> (r: Result<(), T>)
        requires
            old(self).wf(),
        ensures
            final(self).wf(),
            final(self).capacity_spec() == old(self).capacity_spec(),
            old(self)@.len() < old(self).capacity_spec() ==> r is Ok && final(self)@ == old(
                self,
            )@.push(item),
            old(self)@.len() >= old(self).capacity_spec() ==> r == Err::<(), T>(item)
                && final(self)@ == old(self)@,
    {
        if self.items.len() < self.capacity {
            self.items.push_back(item);
            Ok(())
        } else {
            Err(item)
        }
    }

    /// Takes the item at the front, the oldest one.
    pub fn take(&mut self) -> (r: Option<T>)
        requires
            old(self).wf(),
        ensures
            final(self).wf(),
            final(self).capacity_spec() == old(self).capacity_spec(),
            old(self)@.len() > 0 ==> r == Some(old(self)@[0]) && final(self)@ == old(
                self,
            )@.drop_first(),
            old(self)@.len() == 0 ==> r is None && final(self)@ == old(self)@,
    {
        self.items.pop_front()
    }
}

/// One inbound item: a frame, or why a frame could not be read.
pub type Inbound = Result<Frame, DecodeError>;

/// What a receiver gets.
pub enum Received {
    /// The oldest item not yet received
    Item(Inbound),
    /// Nothing yet; more may come
    Wait,
    /// The session was closed and nothing is left to receive
    End,
}

/// The state of a session as contracts see it.
pub struct SessionModel {
    pub status: ConnectionStatus,
    pub subscriptions: Seq<Subscription>,
    pub auto_reconnect: bool,
    pub reconnect_pending: bool,
    pub inbox: Seq<Inbound>,
    pub capacity: nat,
}

/// The control messages that replay `subs` after a connect: one subscribe
/// envelope per subscription, in order.
pub open spec fn replay_messages(subs: Seq<Subscription>, msgs: Seq<String>) -> bool {
    msgs.len() == subs.len() && forall|i: int|
        0 <= i < subs.len() ==> #[trigger] msgs[i]@ == envelope_json(
            ControlAction::Subscribe,
            seq![subs[i]],
        )
}

/// The single owner of the registry, the connection state and the inbox.
pub struct Session {
    status: ConnectionStatus,
    registry: Registry,
    auto_reconnect: bool,
    reconnect_pending: bool,
    inbox: BoundedQueue<Inbound>,
}

impl View for Session {
    type V = SessionModel;

    closed spec fn view(&self) -> SessionModel {
        SessionModel {
            status: self.status,
            subscriptions: self.registry@,
            auto_reconnect: self.auto_reconnect,
            reconnect_pending: self.reconnect_pending,
            inbox: self.inbox@,
            capacity: self.inbox.capacity_spec(),
        }
    }
}

impl Session {
    pub closed spec fn wf(&self) -> bool {
        &&& self.registry.wf()
        &&& self.inbox.wf()
        &&& self.reconnect_pending ==> self.status == ConnectionStatus::Disconnected
    }

    /// A disconnected session with no subscriptions and an empty inbox that
    /// holds at most `capacity` items; `auto_reconnect` asks for a reconnect
    /// after a connection is lost without the caller asking.
    pub fn new(auto_reconnect: bool, capacity: usize) -> (r: Session)
        requires
            capacity > 0,
        ensures
            r.wf(),
            r@ == (SessionModel {
                status: ConnectionStatus::Disconnected,
                subscriptions: Seq::empty(),
                auto_reconnect,
                reconnect_pending: false,
                inbox: Seq::empty(),
                capacity: capacity as nat,
            }),
    {
        Session {
            status: ConnectionStatus::Disconnected,
            registry: Registry::new(),
            auto_reconnect,
            reconnect_pending: false,
            inbox: BoundedQueue::new(capacity),
        }
    }

    pub fn status(&self) -> (r: ConnectionStatus)
        ensures
            r == self@.status,
    {
        self.status
    }

    pub fn registry(&self) -> (r: &Registry)
        requires
            self.wf(),
        ensures
            r@ == self@.subscriptions,
            r.wf(),
    {
        &self.registry
    }

    /// A connect request: from Disconnected the session starts connecting
    /// and the result asks the caller to open the socket; otherwise nothing
    /// changes.
    pub fn connect(&mut self) -> (r: bool)
        requires
            old(self).wf(),
        ensures
            final(self).wf(),
            r == (old(self)@.status == ConnectionStatus::Disconnected),
            r ==> final(self)@ == (SessionModel {
                status: ConnectionStatus::Connecting,
                reconnect_pending: false,
                ..old(self)@
            }),
            !r ==> final(self)@ == old(self)@,
    {
        if self.status == ConnectionStatus::Disconnected {
            self.status = ConnectionStatus::Connecting;
            self.reconnect_pending = false;
            true
        } else {
            false
        }
    }

    /// The control messages that replay the registry: one subscribe
    /// envelope per subscription, in registry order.
    pub fn replay(&self) -> (r: Vec<String>)
        requires
            self.wf(),
        ensures
            replay_messages(self@.subscriptions, r@),
    {
        let mut out: Vec<String> = Vec::new();
        let mut i: usize = 0;
        while i < self.registry.len()
            invariant
                self.wf(),
                i <= self@.subscriptions.len(),
                out@.len() == i,
                forall|j: int|
                    0 <= j < i ==> #[trigger] out@[j]@ == envelope_json(
                        ControlAction::Subscribe,
                        seq![self@.subscriptions[j]],
                    ),
            decreases self@.subscriptions.len() - i,
        {
            let mut one: Vec<Subscription> = Vec::new();
            one.push(self.registry.entry(i).cloned());
            assert(one@ =~= seq![self@.subscriptions[i as int]]);
            out.push(encode_envelope(ControlAction::Subscribe, &one));
            i = i + 1;
        }
        out
    }

    /// The handshake completed: the session is connected, and the result is
    /// the replay of the registry, to be sent in order.
    pub fn handshake_succeeded(&mut self) -> (r: Vec<String>)
        requires
            old(self).wf(),
            old(self)@.status == ConnectionStatus::Connecting,
        ensures
            final(self).wf(),
            final(self)@ == (SessionModel { status: ConnectionStatus::Connected, ..old(self)@ }),
            replay_messages(old(self)@.subscriptions, r@),
    {
        self.status = ConnectionStatus::Connected;
        self.replay()
    }

    /// The handshake failed: the session is disconnected, with no retry.
    pub fn handshake_failed(&mut self)
        requires
            old(self).wf(),
            old(self)@.status == ConnectionStatus::Connecting,
        ensures
            final(self).wf(),
            final(self)@ == (SessionModel {
                status: ConnectionStatus::Disconnected,
                reconnect_pending: false,
                ..old(self)@
            }),
    {
        self.status = ConnectionStatus::Disconnected;
        self.reconnect_pending = false;
    }

    /// The socket closed or failed without the caller asking. A live
    /// session becomes disconnected; with auto-reconnect a reconnect is then
    /// pending, and the result asks the caller to wait out the backoff. A
    /// session already disconnected (the caller asked first) is unchanged.
    pub fn connection_lost(&mut self) -> (r: bool)
        requires
            old(self).wf(),
        ensures
            final(self).wf(),
            old(self)@.status == ConnectionStatus::Disconnected ==> !r && final(self)@ == old(
                self,
            )@,
            old(self)@.status != ConnectionStatus::Disconnected ==> r == old(self)@.auto_reconnect
                && final(self)@ == (SessionModel {
                status: ConnectionStatus::Disconnected,
                reconnect_pending: old(self)@.auto_reconnect,
                ..old(self)@
            }),
    {
        if self.status == ConnectionStatus::Disconnected {
            false
        } else {
            self.status = ConnectionStatus::Disconnected;
            self.reconnect_pending = self.auto_reconnect;
            self.auto_reconnect
        }
    }

    /// The backoff delay passed: a pending reconnect starts connecting, and
    /// the result asks the caller to open the socket; otherwise nothing
    /// changes.
    pub fn backoff_elapsed(&mut self) -> (r: bool)
        requires
            old(self).wf(),
        ensures
            final(self).wf(),
            r == old(self)@.reconnect_pending,
            r ==> final(self)@ == (SessionModel {
                status: ConnectionStatus::Connecting,
                reconnect_pending: false,
                ..old(self)@
            }),
            !r ==> final(self)@ == old(self)@,
    {
        if self.reconnect_pending {
            self.status = ConnectionStatus::Connecting;
            self.reconnect_pending = false;
            true
        } else {
            false
        }
    }

    /// The caller closes the session; asking twice is the same as once. The
    /// result asks the caller to close the socket, when one was open or
    /// opening. Items already in the inbox stay there to be received.
    pub fn disconnect(&mut self) -> (r: bool)
        requires
            old(self).wf(),
        ensures
            final(self).wf(),
            r == (old(self)@.status != ConnectionStatus::Disconnected),
            final(self)@ == (SessionModel {
                status: ConnectionStatus::Disconnected,
                reconnect_pending: false,
                ..old(self)@
            }),
    {
        let open = self.status != ConnectionStatus::Disconnected;
        self.status = ConnectionStatus::Disconnected;
        self.reconnect_pending = false;
        open
    }

    /// Subscribes to each of `subs`. The registry changes first, whatever
    /// the connection; when connected, the result is the envelope to send
    /// now, otherwise the next replay carries the subscriptions.
    pub fn subscribe(&mut self, subs: Vec<Subscription>) -> (r: Option<String>)
        requires
            old(self).wf(),
        ensures
            final(self).wf(),
            final(self)@ == (SessionModel {
                subscriptions: add_all(old(self)@.subscriptions, subs@),
                ..old(self)@
            }),
            old(self)@.status == ConnectionStatus::Connected ==> (r matches Some(m) && m@
                == envelope_json(ControlAction::Subscribe, subs@)),
            old(self)@.status != ConnectionStatus::Connected ==> r is None,
    {
        let msg = if self.status == ConnectionStatus::Connected {
            Some(encode_envelope(ControlAction::Subscribe, &subs))
        } else {
            None
        };
        self.registry.add(subs);
        msg
    }

    /// Unsubscribes from the key of each of `subs`; keys not subscribed to
    /// are no error. When connected, the result is the envelope to send now.
    pub fn unsubscribe(&mut self, subs: Vec<Subscription>) -> (r: Option<String>)
        requires
            old(self).wf(),
        ensures
            final(self).wf(),
            final(self)@ == (SessionModel {
                subscriptions: remove_all(old(self)@.subscriptions, subs@),
                ..old(self)@
            }),
            old(self)@.status == ConnectionStatus::Connected ==> (r matches Some(m) && m@
                == envelope_json(ControlAction::Unsubscribe, subs@)),
            old(self)@.status != ConnectionStatus::Connected ==> r is None,
    {
        self.registry.remove(&subs);
        if self.status == ConnectionStatus::Connected {
            Some(encode_envelope(ControlAction::Unsubscribe, &subs))
        } else {
            None
        }
    }

    /// Puts an inbound item at the back of the inbox, or hands it back when
    /// the inbox is full, for the reader to offer again once there is room.
    pub fn deliver(&mut self, item: Inbound) -> (r: Result<(), Inbound>)
        requires
            old(self).wf(),
        ensures
            final(self).wf(),
            old(self)@.inbox.len() < old(self)@.capacity ==> r is Ok && final(self)@ == (
            SessionModel { inbox: old(self)@.inbox.push(item), ..old(self)@ }),
            old(self)@.inbox.len() >= old(self)@.capacity ==> r == Err::<(), Inbound>(item)
                && final(self)@ == old(self)@,
    {
        self.inbox.offer(item)
    }

    /// Reads one frame read off the socket and puts the outcome, a frame or
    /// an error, at the back of the inbox; a full inbox hands it back.
    pub fn on_frame(&mut self, raw: &str) -> (r: Result<(), Inbound>)
        requires
            old(self).wf(),
        ensures
            final(self).wf(),
            old(self)@.inbox.len() < old(self)@.capacity ==> r is Ok && final(self)@ == (
            SessionModel {
                inbox: old(self)@.inbox.push(final(self)@.inbox.last()),
                ..old(self)@
            }) && decodes_to(raw@, final(self)@.inbox.last()),
            old(self)@.inbox.len() >= old(self)@.capacity ==> (r matches Err(item) && decodes_to(
                raw@,
                item,
            )) && final(self)@ == old(self)@,
    {
        let item = decode_frame(raw);
        self.deliver(item)
    }

    /// The oldest item in the inbox; when it is empty, the end of the
    /// stream once the session is closed with no reconnect pending, and
    /// otherwise a wait.
    pub fn recv(&mut self) -> (r: Received)
        requires
            old(self).wf(),
        ensures
            final(self).wf(),
            old(self)@.inbox.len() > 0 ==> r == Received::Item(old(self)@.inbox[0])
                && final(self)@ == (SessionModel {
                inbox: old(self)@.inbox.drop_first(),
                ..old(self)@
            }),
            old(self)@.inbox.len() == 0 ==> final(self)@ == old(self)@,
            old(self)@.inbox.len() == 0 ==> (r is End || r is Wait),
            old(self)@.inbox.len() == 0 ==> (r is End <==> (old(self)@.status
                == ConnectionStatus::Disconnected && !old(self)@.reconnect_pending)),
    {
        match self.inbox.take() {
            Some(item) => Received::Item(item),
            None => {
                if self.status == ConnectionStatus::Disconnected && !self.reconnect_pending {
                    Received::End
                } else {
                    Received::Wait
                }
            },
        }
    }
}

/// The queue after appending each of `items` in order.
pub open spec fn push_all<T>(q: Seq<T>, items: Seq<T>) -> Seq<T>
    decreases items.len(),
{
    if items.len() == 0 {
        q
    } else {
        push_all(q, items.drop_last()).push(items.last())
    }
}

/// The items that `n` takes from the front of `q` hand out, in order.
pub open spec fn taken<T>(q: Seq<T>, n: nat) -> Seq<T>
    decreases n,
{
    if n == 0 || q.len() == 0 {
        Seq::empty()
    } else {
        seq![q[0]] + taken(q.drop_first(), (n - 1) as nat)
    }
}

proof fn lemma_push_all<T>(q: Seq<T>, items: Seq<T>)
    ensures
        push_all(q, items) == q + items,
    decreases items.len(),
{
    if items.len() > 0 {
        lemma_push_all(q, items.drop_last());
        assert(q + items =~= (q + items.drop_last()).push(items.last()));
    }
}

proof fn lemma_taken_all<T>(q: Seq<T>)
    ensures
        taken(q, q.len()) == q,
    decreases q.len(),
{
    if q.len() > 0 {
        lemma_taken_all(q.drop_first());
        assert(seq![q[0]] + q.drop_first() =~= q);
    }
}

/// Items come out of an inbox in the order they went in, errors and frames
/// alike: from an inbox holding `q`, appending `items` one by one and then
/// taking from the front as many times as there are items hands out `q`
/// and then `items`, each in its order.
pub proof fn lemma_arrival_order_kept<T>(q: Seq<T>, items: Seq<T>)
    ensures
        taken(push_all(q, items), q.len() + items.len()) == q + items,
{
    lemma_push_all(q, items);
    lemma_taken_all(q + items);
}

} // verus!
