//! A broadcast bus: one shared input, one private output per subscriber.
//!
//! Subscribers join before the bus starts. Once started, the dispatcher hands
//! every message it receives to every subscriber still listening, and forgets
//! a subscriber as soon as a hand-over to it fails.

use crossbeam::channel::Receiver;
use crossbeam::channel::Sender;
use vstd::prelude::*;

verus! {

#[verifier::external_type_specification]
#[verifier::external_body]
#[verifier::reject_recursive_types(T)]
pub struct ExSender<T>(crossbeam::channel::Sender<T>);

#[verifier::external_type_specification]
#[verifier::external_body]
#[verifier::reject_recursive_types(T)]
pub struct ExReceiver<T>(crossbeam::channel::Receiver<T>);

/// `crossbeam::channel::unbounded` makes a channel without a capacity limit.
/// Nothing is claimed of the two ends.
#[verifier::external_body]
fn unbounded<T>() -> (ends: (Sender<T>, Receiver<T>)) {
    crossbeam::channel::unbounded()
}

/// `Sender::send` on the sending end of a channel. The result tells whether
/// the channel took the message; which of the two happens is not claimed.
#[verifier::external_body]
fn send<T>(sender: &Sender<T>, message: T) -> (taken: bool) {
    sender.send(message).is_ok()
}

/// `Receiver::recv` blocks until a message arrives, and gives `None` once the
/// channel is empty and every sender is gone. Nothing is claimed of the result.
#[verifier::external_body]
fn recv<T>(receiver: &Receiver<T>) -> (message: Option<T>) {
    receiver.recv().ok()
}

/// `Receiver::try_recv` gives a message only if one is waiting. Nothing is
/// claimed of the result.
#[verifier::external_body]
fn try_recv<T>(receiver: &Receiver<T>) -> (message: Option<T>) {
    receiver.try_recv().ok()
}

/// `Receiver::try_iter` yields the messages that are waiting, without
/// blocking. Nothing is claimed of what it yields.
#[verifier::external_body]
fn drain<T>(receiver: &Receiver<T>) -> (messages: Vec<T>) {
    receiver.try_iter().collect()
}

/// `Sender::clone` gives another sending end of the same channel.
#[verifier::external_body]
fn clone_sender<T>(sender: &Sender<T>) -> (copy: Sender<T>) {
    sender.clone()
}

/// `Receiver::clone` gives another receiving end of the same channel.
#[verifier::external_body]
fn clone_receiver<T>(receiver: &Receiver<T>) -> (copy: Receiver<T>) {
    receiver.clone()
}

/// A payload together with the identifier of the connector that sent it.
#[derive(Debug)]
pub struct Message<T> {
    pub sender_id: u64,
    pub payload: T,
}

impl<T> Message<T> {
    pub fn new(sender_id: u64, payload: T) -> (message: Self)
        ensures
            message.sender_id == sender_id,
            message.payload == payload,
    {
        Self { payload, sender_id }
    }

    /// Consumes the message into its payload.
    pub fn into_payload(self) -> (payload: T)
        ensures
            payload == self.payload,
    {
        self.payload
    }
}

impl<T: Clone> Clone for Message<T> {
    fn clone(&self) -> (copy: Self)
        ensures
            copy.sender_id == self.sender_id,
            cloned(self.payload, copy.payload),
    {
        Message { sender_id: self.sender_id, payload: self.payload.clone() }
    }
}

/// The payloads of `messages`, in order.
pub open spec fn payloads<T>(messages: Seq<Message<T>>) -> Seq<T> {
    messages.map_values(|message: Message<T>| message.payload)
}

/// Takes the payloads out of `messages`, in order.
pub fn into_payloads<T>(messages: Vec<Message<T>>) -> (events: Vec<T>)
    ensures
        events@ == payloads(messages@),
{
    let mut events: Vec<T> = Vec::new();
    for message in it: messages
        invariant
            it.seq() == messages@,
            events@ == payloads(it.seq().take(it.index() as int)),
    {
        events.push(message.into_payload());
    }
    events
}

/// A handle on the bus: it publishes to the shared input and listens on an
/// output of its own.
#[derive(Debug)]
#[verifier::reject_recursive_types(T)]
pub struct BusConnector<T> {
    sender: Sender<Message<T>>,
    receiver: Receiver<Message<T>>,
    id: u64,
}

impl<T> Clone for BusConnector<T> {
    /// Another handle with the same identifier, on the same input and output.
    fn clone(&self) -> (copy: Self)
        ensures
            copy.sender_id() == self.sender_id(),
    {
        BusConnector {
            sender: clone_sender(&self.sender),
            receiver: clone_receiver(&self.receiver),
            id: self.id,
        }
    }
}

impl<T> BusConnector<T> {
    /// The identifier under which this connector publishes.
    pub closed spec fn sender_id(&self) -> u64 {
        self.id
    }

    fn new(sender: Sender<Message<T>>, receiver: Receiver<Message<T>>, id: u64) -> (connector: Self)
        ensures
            connector.sender_id() == id,
    {
        Self { sender, receiver, id }
    }

    pub fn id(&self) -> (id: u64)
        ensures
            id == self.sender_id(),
    {
        self.id
    }

    /// The payload in an envelope that names this connector as its sender.
    pub fn wrap(&self, payload: T) -> (message: Message<T>)
        ensures
            message.sender_id == self.sender_id(),
            message.payload == payload,
    {
        Message::new(self.id, payload)
    }

    /// Waits for the next event. `None` means that the bus is gone and
    /// nothing is left to read.
    pub fn recv(&self) -> (event: Option<T>) {
        match recv(&self.receiver) {
            Some(message) => Some(message.into_payload()),
            None => None,
        }
    }

    /// Waits for one event, then takes what else is waiting, up to `quantity`
    /// events in all. With `quantity` zero it returns at once.
    pub fn get_n_events_blocking(&self, quantity: usize) -> (events: Vec<T>)
        ensures
            events@.len() <= quantity,
    {
        let mut events: Vec<T> = Vec::new();
        if quantity == 0 {
            return events;
        }
        match recv(&self.receiver) {
            Some(message) => {
                events.push(message.into_payload());
            },
            None => {
                return events;
            },
        }
        while events.len() < quantity
            invariant
                events@.len() <= quantity,
            decreases quantity - events@.len(),
        {
            match try_recv(&self.receiver) {
                Some(message) => {
                    events.push(message.into_payload());
                },
                None => {
                    return events;
                },
            }
        }
        events
    }

    /// Takes the events that are waiting, without blocking.
    pub fn try_get_events(&self) -> (events: Vec<T>) {
        into_payloads(drain(&self.receiver))
    }

    /// Publishes `ev` under this connector's identifier. The result is false
    /// when the bus is gone, in which case the event is lost.
    pub fn send_event(&self, ev: T) -> (taken: bool) {
        let message = self.wrap(ev);
        send(&self.sender, message)
    }
}

/// A bus that subscribers can still join.
#[derive(Debug)]
#[verifier::reject_recursive_types(T)]
pub struct Bus<T> {
    /// Bus input, sending end: every connector gets a copy.
    shared_sender: Sender<Message<T>>,
    /// Bus input, receiving end.
    receiver: Receiver<Message<T>>,
    /// Bus outputs, one per subscriber, each with the subscriber's identifier.
    senders: Vec<(u64, Sender<Message<T>>)>,
    /// Whether a message also goes back to the connector that sent it.
    forward_to_sender: bool,
}

/// The identifiers in a table of outputs, in order.
pub open spec fn identifiers<T>(senders: Seq<(u64, Sender<Message<T>>)>) -> Seq<u64> {
    senders.map_values(|entry: (u64, Sender<Message<T>>)| entry.0)
}

impl<T> Bus<T> {
    /// The identifiers of the subscribers, in the order in which they joined.
    pub closed spec fn subscribers(&self) -> Seq<u64> {
        identifiers(self.senders@)
    }

    /// Whether a message also goes back to the connector that sent it.
    pub closed spec fn forwards_to_sender(&self) -> bool {
        self.forward_to_sender
    }

    /// Whether the subscribers are numbered from zero in the order in which
    /// they joined. It holds of every bus that `new` made: no two connectors
    /// of one bus share an identifier.
    pub open spec fn numbered(&self) -> bool {
        forall|i: int| 0 <= i < self.subscribers().len() ==> self.subscribers()[i] == i
    }

    /// A bus without subscribers, which gives every message back to its sender too.
    pub fn new() -> (bus: Self)
        ensures
            bus.subscribers() == Seq::<u64>::empty(),
            bus.forwards_to_sender(),
            bus.numbered(),
    {
        let (public_sender, receiver) = unbounded();
        let bus = Bus {
            shared_sender: public_sender,
            receiver,
            senders: Vec::new(),
            forward_to_sender: true,
        };
        bus
    }

    /// The same bus, with the delivery of a message to its own sender switched
    /// on or off.
    pub fn forward_to_sender(self, forward: bool) -> (bus: Self)
        ensures
            bus.subscribers() == self.subscribers(),
            bus.forwards_to_sender() == forward,
    {
        Bus {
            shared_sender: self.shared_sender,
            receiver: self.receiver,
            senders: self.senders,
            forward_to_sender: forward,
        }
    }

    /// Adds a subscriber. Its identifier is the number of subscribers that
    /// joined before it, so identifiers count up from zero and none is given
    /// twice.
    pub fn join_bus(&mut self) -> (connector: BusConnector<T>)
        ensures
            connector.sender_id() == old(self).subscribers().len(),
            final(self).subscribers() == old(self).subscribers().push(connector.sender_id()),
            final(self).forwards_to_sender() == old(self).forwards_to_sender(),
            old(self).numbered() ==> final(self).numbered(),
    {
        let (sender, receiver) = unbounded();
        let id = self.senders.len() as u64;
        self.senders.push((id, sender));
        assert(final(self).subscribers() =~= old(self).subscribers().push(id));
        BusConnector::new(clone_sender(&self.shared_sender), receiver, id)
    }
}

/// What became of the hand-over of one message to one subscriber.
#[derive(Clone, Copy, Debug, PartialEq, Eq, Structural)]
pub enum Delivery {
    /// The subscriber's channel took the message.
    Delivered,
    /// The subscriber sent the message itself and does not get it back.
    Skipped,
    /// The subscriber no longer listens: the message is lost to it.
    Disconnected,
}

/// Whether the message of `sender_id` is kept from `subscriber`.
pub open spec fn suppressed(forward_to_sender: bool, subscriber: u64, sender_id: u64) -> bool {
    !forward_to_sender && subscriber == sender_id
}

/// The subscribers that stay after a round of hand-overs: all but those that
/// were found disconnected, in their old order.
pub open spec fn survivors(subscribers: Seq<u64>, report: Seq<Delivery>) -> Seq<u64>
    recommends
        subscribers.len() == report.len(),
    decreases subscribers.len(),
{
    if subscribers.len() == 0 || report.len() == 0 {
        Seq::empty()
    } else {
        let before = survivors(subscribers.drop_last(), report.drop_last());
        if report.last() == Delivery::Disconnected {
            before
        } else {
            before.push(subscribers.last())
        }
    }
}

/// A subscriber stays exactly if its hand-over did not find it disconnected:
/// a message is lost to a subscriber only because it had stopped listening.
pub proof fn lemma_survivors(subscribers: Seq<u64>, report: Seq<Delivery>)
    requires
        subscribers.len() == report.len(),
    ensures
        forall|i: int|
            0 <= i < subscribers.len() && report[i] != Delivery::Disconnected
                ==> survivors(subscribers, report).contains(#[trigger] subscribers[i]),
        forall|id: u64| #[trigger]
            survivors(subscribers, report).contains(id) ==> exists|i: int|
                0 <= i < subscribers.len() && subscribers[i] == id && report[i]
                    != Delivery::Disconnected,
        survivors(subscribers, report).len() <= subscribers.len(),
    decreases subscribers.len(),
{
    if subscribers.len() > 0 {
        let shorter = subscribers.drop_last();
        let earlier = report.drop_last();
        lemma_survivors(shorter, earlier);
        let before = survivors(shorter, earlier);
        let after = survivors(subscribers, report);
        let last = subscribers.len() - 1;
        assert forall|i: int|
            0 <= i < subscribers.len() && report[i] != Delivery::Disconnected implies after.contains(
            #[trigger] subscribers[i],
        ) by {
            if i < last {
                let j = choose|j: int| 0 <= j < before.len() && before[j] == shorter[i];
                assert(after[j] == subscribers[i]);
            } else {
                assert(after[after.len() - 1] == subscribers[i]);
            }
        }
        assert forall|id: u64| #[trigger] after.contains(id) implies exists|i: int|
            0 <= i < subscribers.len() && subscribers[i] == id && report[i]
                != Delivery::Disconnected by {
            let j = choose|j: int| 0 <= j < after.len() && after[j] == id;
            if j < before.len() {
                assert(before.contains(id));
                let i = choose|i: int|
                    0 <= i < shorter.len() && shorter[i] == id && earlier[i]
                        != Delivery::Disconnected;
                assert(subscribers[i] == id);
            }
        }
    }
}

/// A bus that has started: no subscriber can join any more, and the input
/// closes once every connector is gone.
#[derive(Debug)]
#[verifier::reject_recursive_types(T)]
pub struct Dispatcher<T> {
    receiver: Receiver<Message<T>>,
    senders: Vec<(u64, Sender<Message<T>>)>,
    forward_to_sender: bool,
}

impl<T> Bus<T> {
    /// Starts the bus. Its own sending end of the input is given up here, so
    /// that the input closes when the last connector is dropped.
    pub fn start(self) -> (dispatcher: Dispatcher<T>)
        ensures
            dispatcher.subscribers() == self.subscribers(),
            dispatcher.forwards_to_sender() == self.forwards_to_sender(),
    {
        Dispatcher {
            receiver: self.receiver,
            senders: self.senders,
            forward_to_sender: self.forward_to_sender,
        }
    }
}

impl<T> Dispatcher<T> {
    /// The identifiers of the subscribers that have not been found
    /// disconnected, in the order in which they joined.
    pub closed spec fn subscribers(&self) -> Seq<u64> {
        identifiers(self.senders@)
    }

    /// Whether a message also goes back to the connector that sent it.
    pub closed spec fn forwards_to_sender(&self) -> bool {
        self.forward_to_sender
    }

    /// The number of subscribers that have not been found disconnected.
    pub fn subscriber_count(&self) -> (count: usize)
        ensures
            count == self.subscribers().len(),
    {
        self.senders.len()
    }

    /// Waits for the next message on the input. `None` means that every
    /// connector is gone and the bus has nothing left to do.
    pub fn next_message(&self) -> (message: Option<Message<T>>) {
        recv(&self.receiver)
    }

}

impl<T: Clone> Dispatcher<T> {
    /// Hands a copy of `message` to every subscriber, in the order in which
    /// they joined, but for its own sender where that is switched off. The
    /// report has one entry per subscriber; those found disconnected are
    /// forgotten.
    pub fn dispatch(&mut self, message: &Message<T>) -> (report: Vec<Delivery>)
        ensures
            report@.len() == old(self).subscribers().len(),
            forall|i: int|
                0 <= i < report@.len() ==> (report@[i] == Delivery::Skipped <==> suppressed(
                    old(self).forwards_to_sender(),
                    old(self).subscribers()[i],
                    message.sender_id,
                )),
            final(self).subscribers() == survivors(old(self).subscribers(), report@),
            final(self).forwards_to_sender() == old(self).forwards_to_sender(),
    {
        let ghost all = self.subscribers();
        let mut report: Vec<Delivery> = Vec::new();
        let mut i: usize = 0;
        while i < self.senders.len()
            invariant
                i <= self.senders@.len(),
                report@.len() <= all.len(),
                self.senders@.len() - i == all.len() - report@.len(),
                self.forward_to_sender == old(self).forward_to_sender,
                all == old(self).subscribers(),
                i == survivors(all.take(report@.len() as int), report@).len(),
                identifiers(self.senders@) == survivors(all.take(report@.len() as int), report@)
                    + all.skip(report@.len() as int),
                forall|j: int|
                    0 <= j < report@.len() ==> (report@[j] == Delivery::Skipped <==> suppressed(
                        old(self).forward_to_sender,
                        all[j],
                        message.sender_id,
                    )),
            decreases self.senders@.len() - i,
        {
            let ghost k = report@.len() as int;
            let ghost before = survivors(all.take(k), report@);
            let ghost table = identifiers(self.senders@);
            let ghost earlier = report@;
            assert(table[i as int] == all.skip(k)[0]);
            assert(all.take(k + 1).drop_last() =~= all.take(k));
            let skip = !self.forward_to_sender && self.senders[i].0 == message.sender_id;
            let delivery = if skip {
                Delivery::Skipped
            } else if send(&self.senders[i].1, message.clone()) {
                Delivery::Delivered
            } else {
                Delivery::Disconnected
            };
            report.push(delivery);
            assert(report@.drop_last() =~= earlier);
            if delivery == Delivery::Disconnected {
                self.senders.remove(i);
                assert forall|j: int| 0 <= j < self.senders@.len() implies identifiers(
                    self.senders@,
                )[j] == (before + all.skip(k + 1))[j] by {
                    if j < i {
                        assert(table[j] == before[j]);
                    } else {
                        assert(table[j + 1] == all.skip(k)[j + 1 - i]);
                    }
                }
            } else {
                i += 1;
            }
        }
        report
    }
}

} // verus!
