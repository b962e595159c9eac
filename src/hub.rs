//! A fan-out hub with "latest value wins" delivery.
//!
//! Every subscriber owns a mailbox of at most one message. Publishing
//! overwrites the unread value of each subscriber whose filter accepts the
//! message, so a slow reader skips values but never sees them out of order.
//! Publishing `Terminate` closes the hub for good: it reaches every
//! subscriber, and from then on every read reports `Closed` and every
//! registration fails.
//!
//! The hub is a plain data structure; a caller that shares it between
//! threads keeps it behind one lock and waits on a condition variable
//! while `try_recv` reports `Empty`.
use vstd::prelude::*;
use crate::message::{Filter, MessageView, WorkerMessage};

verus! {

broadcast use vstd::string::to_string_from_display_ensures_for_str;

/// The handle that `register` returns: a stable index into the hub's table.
#[derive(Clone, Copy, Debug, PartialEq, Eq, Structural)]
pub struct SubscriptionId {
    index: usize,
}

impl View for SubscriptionId {
    type V = nat;

    closed spec fn view(&self) -> nat {
        self.index as nat
    }
}

impl SubscriptionId {
    pub fn index(&self) -> (r: usize)
        ensures
            r as nat == self@,
    {
        self.index
    }
}

#[derive(Clone, Copy, Debug, PartialEq, Eq, Structural)]
pub enum HubError {
    /// `Terminate` has been published.
    Closed,
}

/// What a non-blocking read finds in a mailbox.
#[derive(Debug)]
pub enum Received {
    Message(WorkerMessage),
    Empty,
    Closed,
}

pub enum ReceivedView {
    Message(MessageView),
    Empty,
    Closed,
}

impl View for Received {
    type V = ReceivedView;

    open spec fn view(&self) -> ReceivedView {
        match self {
            Received::Message(m) => ReceivedView::Message(m@),
            Received::Empty => ReceivedView::Empty,
            Received::Closed => ReceivedView::Closed,
        }
    }
}

/// One subscriber as the model sees it. `pending` and `received` are
/// positions in the hub's log of published messages: the message waiting in
/// the mailbox, and the messages taken out so far, in the order taken.
pub struct SlotView {
    pub name: Seq<char>,
    pub filter: Filter,
    pub pending: Option<nat>,
    pub received: Seq<nat>,
}

/// The hub as the model sees it: whether it is closed, every message
/// published while it was open, and its subscribers by handle.
pub struct HubView {
    pub closed: bool,
    pub log: Seq<MessageView>,
    pub slots: Seq<SlotView>,
}

/// `a` is `b` with some elements left out, the rest in the same order.
pub open spec fn is_subsequence<T>(a: Seq<T>, b: Seq<T>) -> bool {
    exists|idx: Seq<int>|
        {
            &&& idx.len() == a.len()
            &&& forall|j: int| 0 <= j < idx.len() ==> 0 <= #[trigger] idx[j] < b.len()
            &&& forall|j: int| 0 <= j < idx.len() ==> b[idx[j]] == #[trigger] a[j]
            &&& forall|j1: int, j2: int|
                0 <= j1 < j2 < idx.len() ==> #[trigger] idx[j1] < #[trigger] idx[j2]
        }
}

/// The slot after a message at log position `k` was published.
pub open spec fn deliver(s: SlotView, m: MessageView, k: nat) -> SlotView {
    if m is Terminate || s.filter.accepts(m) {
        SlotView { pending: Some(k), ..s }
    } else {
        s
    }
}

pub open spec fn slot_wf(s: SlotView, log: Seq<MessageView>) -> bool {
    &&& forall|j: int|
        0 <= j < s.received.len() ==> #[trigger] s.received[j] < log.len()
            && !(log[s.received[j] as int] is Terminate)
    &&& forall|j1: int, j2: int|
        0 <= j1 < j2 < s.received.len() ==> #[trigger] s.received[j1] < #[trigger] s.received[j2]
    &&& s.pending matches Some(k) ==> k < log.len() && (s.received.len() > 0 ==> s.received.last() < k)
}

impl HubView {
    pub open spec fn wf(self) -> bool {
        &&& forall|i: int| 0 <= i < self.slots.len() ==> slot_wf(#[trigger] self.slots[i], self.log)
        &&& forall|k: int| 0 <= k < self.log.len() - 1 ==> !(#[trigger] self.log[k] is Terminate)
        &&& self.closed <==> (self.log.len() > 0 && self.log.last() is Terminate)
        &&& self.closed ==> forall|i: int|
            0 <= i < self.slots.len() ==> #[trigger] self.slots[i].pending == Some(
                (self.log.len() - 1) as nat,
            )
    }

    pub open spec fn publish(self, m: MessageView) -> HubView {
        if self.closed {
            self
        } else {
            HubView {
                closed: m is Terminate,
                log: self.log.push(m),
                slots: self.slots.map_values(|s: SlotView| deliver(s, m, self.log.len())),
            }
        }
    }

    pub open spec fn register(self, name: Seq<char>, filter: Filter) -> HubView {
        HubView {
            slots: self.slots.push(SlotView { name, filter, pending: None, received: seq![] }),
            ..self
        }
    }

    pub open spec fn receive_outcome(self, i: int) -> ReceivedView {
        match self.slots[i].pending {
            None => ReceivedView::Empty,
            Some(k) => if self.log[k as int] is Terminate {
                ReceivedView::Closed
            } else {
                ReceivedView::Message(self.log[k as int])
            },
        }
    }

    pub open spec fn receive(self, i: int) -> HubView {
        match self.slots[i].pending {
            Some(k) => if self.log[k as int] is Terminate {
                self
            } else {
                HubView {
                    slots: self.slots.update(
                        i,
                        SlotView {
                            pending: None,
                            received: self.slots[i].received.push(k),
                            ..self.slots[i]
                        },
                    ),
                    ..self
                }
            },
            None => self,
        }
    }

    /// The messages that subscriber `i` has taken out, in the order taken.
    pub open spec fn received_values(self, i: int) -> Seq<MessageView> {
        self.slots[i].received.map_values(|k: nat| self.log[k as int])
    }
}

pub proof fn lemma_publish_wf(v: HubView, m: MessageView)
    requires
        v.wf(),
    ensures
        v.publish(m).wf(),
{
    if !v.closed {
        let w = v.publish(m);
        assert forall|i: int| 0 <= i < w.slots.len() implies slot_wf(#[trigger] w.slots[i], w.log) by {
            let s = v.slots[i];
            assert(slot_wf(s, v.log));
            assert forall|j: int| 0 <= j < s.received.len() implies #[trigger] s.received[j] < w.log.len()
                && !(w.log[s.received[j] as int] is Terminate) by {
                assert(w.log[s.received[j] as int] == v.log[s.received[j] as int]);
            }
        }
        assert(w.log.last() == m);
        assert forall|k: int| 0 <= k < w.log.len() - 1 implies !(#[trigger] w.log[k] is Terminate) by {
            assert(w.log[k] == v.log[k]);
        }
    }
}

pub proof fn lemma_register_wf(v: HubView, name: Seq<char>, filter: Filter)
    requires
        v.wf(),
        !v.closed,
    ensures
        v.register(name, filter).wf(),
{
    let w = v.register(name, filter);
    assert forall|i: int| 0 <= i < w.slots.len() implies slot_wf(#[trigger] w.slots[i], w.log) by {
        if i < v.slots.len() {
            assert(w.slots[i] == v.slots[i]);
        }
    }
}

pub proof fn lemma_receive_wf(v: HubView, i: int)
    requires
        v.wf(),
        0 <= i < v.slots.len(),
    ensures
        v.receive(i).wf(),
{
    let w = v.receive(i);
    assert(slot_wf(v.slots[i], v.log));
    if w != v {
        assert forall|n: int| 0 <= n < w.slots.len() implies slot_wf(#[trigger] w.slots[n], w.log) by {
            if n != i {
                assert(slot_wf(v.slots[n], v.log));
            } else {
                let s = v.slots[i];
                let t = w.slots[i];
                let k = s.pending.unwrap();
                assert forall|j: int| 0 <= j < t.received.len() implies #[trigger] t.received[j] < w.log.len()
                    && !(w.log[t.received[j] as int] is Terminate) by {
                    if j < s.received.len() {
                        assert(t.received[j] == s.received[j]);
                    }
                }
                assert forall|j1: int, j2: int| 0 <= j1 < j2 < t.received.len() implies #[trigger] t.received[j1]
                    < #[trigger] t.received[j2] by {
                    if j2 < s.received.len() {
                        assert(t.received[j1] == s.received[j1]);
                        assert(t.received[j2] == s.received[j2]);
                    } else {
                        assert(t.received[j1] == s.received[j1]);
                        assert(s.received[j1] <= s.received.last());
                    }
                }
            }
        }
        if v.closed {
            assert(v.slots[i].pending == Some((v.log.len() - 1) as nat));
        }
    }
}

/// Every subscriber takes out the published messages in the order they
/// were published, possibly with some skipped, and never one twice.
pub proof fn received_in_publish_order(v: HubView, i: int)
    requires
        v.wf(),
        0 <= i < v.slots.len(),
    ensures
        is_subsequence(v.received_values(i), v.log),
{
    let s = v.slots[i];
    assert(slot_wf(s, v.log));
    let idx = s.received.map_values(|k: nat| k as int);
    let a = v.received_values(i);
    assert forall|j1: int, j2: int| 0 <= j1 < j2 < idx.len() implies #[trigger] idx[j1] < #[trigger] idx[j2] by {
        assert(s.received[j1] < s.received[j2]);
    }
    assert forall|j: int| 0 <= j < idx.len() implies v.log[idx[j]] == #[trigger] a[j] by {}
    assert forall|j: int| 0 <= j < idx.len() implies 0 <= #[trigger] idx[j] < v.log.len() by {
        assert(s.received[j] < v.log.len());
    }
}

/// Publishing `Terminate` closes an open hub and puts `Terminate` in every
/// subscriber's mailbox, whatever its filter.
pub proof fn terminate_reaches_everyone(v: HubView)
    requires
        v.wf(),
        !v.closed,
    ensures
        v.publish(MessageView::Terminate).closed,
        forall|i: int|
            0 <= i < v.slots.len() ==> #[trigger] v.publish(MessageView::Terminate).receive_outcome(i)
                == ReceivedView::Closed,
{
    let w = v.publish(MessageView::Terminate);
    assert forall|i: int| 0 <= i < v.slots.len() implies #[trigger] w.receive_outcome(i) == ReceivedView::Closed by {
        assert(w.slots[i] == deliver(v.slots[i], MessageView::Terminate, v.log.len()));
        assert(w.log[v.log.len() as int] == MessageView::Terminate);
    }
}

/// A closed hub is final: every read reports `Closed` and changes nothing,
/// and publishing anything, a frame included, changes nothing.
pub proof fn closed_hub_is_final(v: HubView, m: MessageView)
    requires
        v.wf(),
        v.closed,
    ensures
        v.publish(m) == v,
        forall|i: int|
            0 <= i < v.slots.len() ==> #[trigger] v.receive_outcome(i) == ReceivedView::Closed
                && v.receive(i) == v,
{
    assert forall|i: int| 0 <= i < v.slots.len() implies #[trigger] v.receive_outcome(i) == ReceivedView::Closed
        && v.receive(i) == v by {
        assert(v.slots[i].pending == Some((v.log.len() - 1) as nat));
    }
}

struct Subscriber {
    name: String,
    filter: Filter,
    mailbox: Option<WorkerMessage>,
    pending: Ghost<Option<nat>>,
    received: Ghost<Seq<nat>>,
}

impl Subscriber {
    spec fn slot(&self) -> SlotView {
        SlotView {
            name: self.name@,
            filter: self.filter,
            pending: self.pending@,
            received: self.received@,
        }
    }

    spec fn mailbox_matches(&self, log: Seq<MessageView>) -> bool {
        &&& self.mailbox is Some <==> self.pending@ is Some
        &&& self.mailbox matches Some(m) ==> m@ == log[self.pending@.unwrap() as int]
    }
}

/// The hub: a table of subscribers, each with a one-message mailbox.
pub struct Hub {
    subscribers: Vec<Subscriber>,
    closed: bool,
    log: Ghost<Seq<MessageView>>,
}

impl View for Hub {
    type V = HubView;

    closed spec fn view(&self) -> HubView {
        HubView {
            closed: self.closed,
            log: self.log@,
            slots: self.subscribers@.map_values(|s: Subscriber| s.slot()),
        }
    }
}

impl Hub {
    pub closed spec fn mailboxes_match(&self) -> bool {
        forall|i: int|
            0 <= i < self.subscribers@.len() ==> (#[trigger] self.subscribers@[i]).mailbox_matches(
                self.log@,
            )
    }

    pub open spec fn wf(&self) -> bool {
        self@.wf() && self.mailboxes_match()
    }

    /// An open hub with no subscribers.
    pub fn new() -> (r: Hub)
        ensures
            r.wf(),
            r@ == (HubView { closed: false, log: seq![], slots: seq![] }),
    {
        let r = Hub { subscribers: Vec::new(), closed: false, log: Ghost(Seq::empty()) };
        assert(r@.slots =~= seq![]);
        r
    }

    pub fn is_closed(&self) -> (r: bool)
        ensures
            r == self@.closed,
    {
        self.closed
    }

    /// Adds a subscriber whose mailbox takes the messages that `filter`
    /// accepts. Fails once the hub is closed. The name serves diagnostics
    /// only; two subscribers may share one.
    pub fn register(&mut self, name: &str, filter: Filter) -> (r: Result<SubscriptionId, HubError>)
        requires
            old(self).wf(),
        ensures
            final(self).wf(),
            old(self)@.closed ==> r == Err::<SubscriptionId, HubError>(HubError::Closed) && final(self)@
                == old(self)@,
            !old(self)@.closed ==> (r matches Ok(id) && id@ == old(self)@.slots.len() && final(self)@
                == old(self)@.register(name@, filter)),
    {
        if self.closed {
            return Err(HubError::Closed);
        }
        proof {
            lemma_register_wf(self@, name@, filter);
        }
        let index = self.subscribers.len();
        let sub = Subscriber {
            name: name.to_string(),
            filter,
            mailbox: None,
            pending: Ghost(None),
            received: Ghost(Seq::empty()),
        };
        self.subscribers.push(sub);
        assert(self@.slots =~= old(self)@.register(name@, filter).slots);
        assert forall|i: int| 0 <= i < self.subscribers@.len() implies (
        #[trigger] self.subscribers@[i]).mailbox_matches(self.log@) by {
            if i < index {
                assert(self.subscribers@[i] == old(self).subscribers@[i]);
            }
        }
        Ok(SubscriptionId { index })
    }

    /// Puts `message` in the mailbox of every subscriber whose filter
    /// accepts it, replacing any unread value. `Terminate` goes to every
    /// subscriber and closes the hub. A closed hub ignores what is published.
    pub fn publish(&mut self, message: WorkerMessage)
        requires
            old(self).wf(),
        ensures
            final(self).wf(),
            final(self)@ == old(self)@.publish(message@),
    {
        if self.closed {
            return;
        }
        proof {
            lemma_publish_wf(self@, message@);
        }
        let ghost v0 = self@;
        let ghost subs0 = self.subscribers@;
        let ghost k = self.log@.len();
        let ghost log1 = self.log@.push(message@);
        let terminate = message.is_terminate();
        let n = self.subscribers.len();
        let mut i: usize = 0;
        while i < n
            invariant
                n == self.subscribers@.len(),
                subs0.len() == n,
                v0 == old(self)@,
                subs0 == old(self).subscribers@,
                k == v0.log.len(),
                log1 == v0.log.push(message@),
                terminate == (message@ is Terminate),
                self.log@ == v0.log,
                self.closed == v0.closed,
                !v0.closed,
                old(self).mailboxes_match(),
                v0.wf(),
                0 <= i <= n,
                forall|j: int|
                    0 <= j < i ==> (#[trigger] self.subscribers@[j]).slot() == deliver(
                        subs0[j].slot(),
                        message@,
                        k,
                    ) && self.subscribers@[j].mailbox_matches(log1),
                forall|j: int| i <= j < n ==> #[trigger] self.subscribers@[j] == subs0[j],
            decreases n - i,
        {
            assert(subs0[i as int].mailbox_matches(v0.log));
            assert(slot_wf(v0.slots[i as int], v0.log));
            if terminate || self.subscribers[i].filter.matches(&message) {
                let copy = message.duplicate();
                self.subscribers[i].mailbox = Some(copy);
                self.subscribers[i].pending = Ghost(Some(k));
            } else {
                assert(self.subscribers@[i as int].mailbox matches Some(m) ==> log1[
                    self.subscribers@[i as int].pending@.unwrap() as int] == v0.log[
                    self.subscribers@[i as int].pending@.unwrap() as int]);
            }
            i += 1;
        }
        self.log = Ghost(log1);
        if terminate {
            self.closed = true;
        }
        assert(self@.slots =~= v0.publish(message@).slots);
    }

    /// Takes the message waiting in the mailbox of `id`, without waiting.
    /// Reports `Empty` when nothing is waiting and `Closed` once the hub is
    /// closed; `Terminate` stays in the mailbox, so every later read reports
    /// `Closed` too.
    pub fn try_recv(&mut self, id: SubscriptionId) -> (r: Received)
        requires
            old(self).wf(),
            id@ < old(self)@.slots.len(),
        ensures
            final(self).wf(),
            r@ == old(self)@.receive_outcome(id@ as int),
            final(self)@ == old(self)@.receive(id@ as int),
            r is Empty <==> old(self)@.slots[id@ as int].pending is None,
    {
        let i = id.index;
        proof {
            lemma_receive_wf(self@, i as int);
        }
        assert(self.subscribers@[i as int].mailbox_matches(self.log@));
        if self.closed {
            assert(self@.slots[i as int].pending == Some((self@.log.len() - 1) as nat));
            return Received::Closed;
        }
        let ghost v0 = self@;
        let taken = self.subscribers[i].mailbox.take();
        match taken {
            None => {
                assert(self.subscribers@ =~= old(self).subscribers@);
                Received::Empty
            },
            Some(m) => {
                let ghost k = self.subscribers@[i as int].pending@.unwrap();
                assert(slot_wf(v0.slots[i as int], v0.log));
                assert(k < v0.log.len());
                assert(!(v0.log[k as int] is Terminate));
                self.subscribers[i].pending = Ghost(None);
                self.subscribers[i].received = Ghost(self.subscribers@[i as int].received@.push(k));
                assert(self@.slots =~= v0.receive(i as int).slots);
                assert forall|j: int| 0 <= j < self.subscribers@.len() implies (
                #[trigger] self.subscribers@[j]).mailbox_matches(self.log@) by {
                    if j != i {
                        assert(self.subscribers@[j] == old(self).subscribers@[j]);
                    }
                }
                Received::Message(m)
            },
        }
    }

    /// The name that subscriber `id` registered with.
    pub fn name_of(&self, id: SubscriptionId) -> (r: &str)
        requires
            id@ < self@.slots.len(),
        ensures
            r@ == self@.slots[id@ as int].name,
    {
        self.subscribers[id.index].name.as_str()
    }

    pub fn subscriber_count(&self) -> (r: usize)
        ensures
            r as nat == self@.slots.len(),
    {
        self.subscribers.len()
    }
}

} // verus!
