//! The decisions of the WebSocket feed handler.
//!
//! The handler owns the connection, keeps the set of active subscriptions and
//! turns raw frames into messages. Here it is a state machine: a command or a
//! frame goes in, the subscription messages to send and what to hand
//! downstream come out; the caller performs the sends and the delivery, in
//! that order.
use vstd::prelude::*;

use crate::common::enums::SinopacQuoteType;
use super::messages::WsSubscribeMsg;

verus! {

/// A command from the client to the feed handler.
#[derive(Clone, Debug)]
pub enum FeedCommand {
    /// The handler now owns a live connection.
    AttachClient,
    /// Subscribe to quote data for a contract.
    Subscribe {
        /// The contract code.
        code: String,
        /// The quote type.
        quote_type: SinopacQuoteType,
    },
    /// Unsubscribe from quote data for a contract.
    Unsubscribe {
        /// The contract code.
        code: String,
        /// The quote type.
        quote_type: SinopacQuoteType,
    },
    /// Disconnect and stop.
    Disconnect,
}

/// What a command asks of the connection.
#[derive(Clone, Debug)]
pub struct CommandOutcome {
    /// A message to send on the connection.
    pub send: Option<WsSubscribeMsg>,
    /// Whether to close the connection and stop the handler.
    pub stop: bool,
}

/// A raw frame from the connection, already read by the caller.
#[derive(Clone, Debug)]
pub enum FrameEvent<T> {
    /// The transport's reconnection signal.
    Reconnected,
    /// A text frame that parsed as a gateway message.
    Parsed(T),
    /// A text frame that did not parse as a gateway message.
    Unparseable,
    /// A close frame.
    Close,
    /// A control frame the transport answers itself (ping, pong, binary).
    Other,
    /// The frame stream has ended.
    StreamEnded,
}

/// What the handler hands downstream after a frame.
#[derive(Clone, Debug)]
pub enum Delivery<T> {
    /// A gateway message.
    Message(T),
    /// The reconnection sentinel, after the re-subscriptions.
    Reconnected,
    /// Nothing; wait for the next frame.
    Continue,
    /// The handler stops.
    Stop,
}

/// The sends and the delivery that follow a frame.
#[derive(Clone, Debug)]
pub struct FrameOutcome<T> {
    /// Messages to send, in order, before the delivery.
    pub sends: Vec<WsSubscribeMsg>,
    /// What to hand downstream.
    pub delivery: Delivery<T>,
}

/// A subscription as a plain value: contract code and quote type.
pub type SubscriptionKey = (Seq<char>, SinopacQuoteType);

/// The subscribe message for a contract and quote type.
pub open spec fn is_subscribe_msg(m: WsSubscribeMsg, key: SubscriptionKey) -> bool {
    &&& m.action@ == "subscribe"@
    &&& m.contract_code@ == key.0
    &&& m.quote_type == key.1
}

/// The unsubscribe message for a contract and quote type.
pub open spec fn is_unsubscribe_msg(m: WsSubscribeMsg, key: SubscriptionKey) -> bool {
    &&& m.action@ == "unsubscribe"@
    &&& m.contract_code@ == key.0
    &&& m.quote_type == key.1
}

/// The state of the feed handler: whether it holds a connection and the
/// subscriptions to restore after a reconnection.
pub struct FeedState {
    subscriptions: Vec<(String, SinopacQuoteType)>,
    has_client: bool,
}

impl FeedState {
    /// The tracked subscriptions in the order they were made.
    pub closed spec fn keys(self) -> Seq<SubscriptionKey> {
        self.subscriptions@.map_values(|p: (String, SinopacQuoteType)| (p.0@, p.1))
    }

    /// The set of tracked subscriptions.
    pub open spec fn subscribed(self) -> Set<SubscriptionKey> {
        self.keys().to_set()
    }

    /// Whether the handler holds a connection.
    pub closed spec fn connected(self) -> bool {
        self.has_client
    }

    /// Each subscription is tracked once; every `FeedState` keeps this.
    #[verifier::type_invariant]
    pub open spec fn wf(self) -> bool {
        self.keys().no_duplicates()
    }

    /// A handler without a connection or subscriptions.
    pub fn new() -> (r: Self)
        ensures
            r.wf(),
            r.keys() == Seq::<SubscriptionKey>::empty(),
            !r.connected(),
    {
        let r = FeedState { subscriptions: Vec::new(), has_client: false };
        assert(r.keys() =~= Seq::<SubscriptionKey>::empty());
        r
    }

    /// Whether the handler holds a connection.
    pub fn is_connected(&self) -> (r: bool)
        ensures
            r == self.connected(),
    {
        self.has_client
    }

    /// The number of tracked subscriptions.
    pub fn subscription_count(&self) -> (r: usize)
        ensures
            r == self.keys().len(),
    {
        self.subscriptions.len()
    }

    fn position_of(&self, code: &String, quote_type: SinopacQuoteType) -> (r: Option<usize>)
        ensures
            match r {
                Some(i) => i < self.keys().len() && self.keys()[i as int] == (code@, quote_type),
                None => !self.keys().contains((code@, quote_type)),
            },
    {
        let n = self.subscriptions.len();
        let mut i: usize = 0;
        while i < n
            invariant
                n == self.subscriptions@.len(),
                n == self.keys().len(),
                i <= n,
                forall|j: int| 0 <= j < i ==> self.keys()[j] != (code@, quote_type),
            decreases n - i,
        {
            let entry = &self.subscriptions[i];
            assert(self.keys()[i as int] == (entry.0@, entry.1));
            if entry.0 == *code && entry.1 == quote_type {
                return Some(i);
            }
            i = i + 1;
        }
        None
    }

    /// Applies a command from the client.
    ///
    /// A subscribe or unsubscribe is sent only while a connection is held, and
    /// is tracked in every case so that it is restored after a reconnection;
    /// a disconnect drops the connection and stops the handler.
    pub fn on_command(&mut self, cmd: FeedCommand) -> (r: CommandOutcome)
        ensures
            final(self).wf(),
            match cmd {
                FeedCommand::AttachClient => {
                    &&& final(self).keys() == old(self).keys()
                    &&& final(self).connected()
                    &&& r.send is None
                    &&& !r.stop
                },
                FeedCommand::Subscribe { code, quote_type } => {
                    &&& final(self).subscribed() == old(self).subscribed().insert((code@, quote_type))
                    &&& final(self).connected() == old(self).connected()
                    &&& (old(self).connected() <==> r.send is Some)
                    &&& (r.send matches Some(m) ==> is_subscribe_msg(m, (code@, quote_type)))
                    &&& !r.stop
                },
                FeedCommand::Unsubscribe { code, quote_type } => {
                    &&& final(self).subscribed() == old(self).subscribed().remove((code@, quote_type))
                    &&& final(self).connected() == old(self).connected()
                    &&& (old(self).connected() <==> r.send is Some)
                    &&& (r.send matches Some(m) ==> is_unsubscribe_msg(m, (code@, quote_type)))
                    &&& !r.stop
                },
                FeedCommand::Disconnect => {
                    &&& final(self).keys() == old(self).keys()
                    &&& !final(self).connected()
                    &&& r.send is None
                    &&& r.stop
                },
            },
    {
        proof {
            use_type_invariant(&*self);
        }
        match cmd {
            FeedCommand::AttachClient => {
                self.has_client = true;
                CommandOutcome { send: None, stop: false }
            },
            FeedCommand::Subscribe { code, quote_type } => {
                let msg = WsSubscribeMsg {
                    action: String::from_str("subscribe"),
                    contract_code: code.clone(),
                    quote_type,
                };
                let send = if self.has_client { Some(msg) } else { None };
                let ghost before = self.keys();
                match self.position_of(&code, quote_type) {
                    Some(i) => {
                        assert(before[i as int] == (code@, quote_type));
                        assert(before.contains((code@, quote_type)));
                        assert(self.keys() == before);
                        assert(before.to_set().insert((code@, quote_type)) =~= before.to_set());
                        assert(self.subscribed() == before.to_set());
                    },
                    None => {
                        let ghost key = (code@, quote_type);
                        let mut subs: Vec<(String, SinopacQuoteType)> = Vec::new();
                        std::mem::swap(&mut subs, &mut self.subscriptions);
                        subs.push((code, quote_type));
                        proof {
                            let next = FeedState { subscriptions: subs, has_client: self.has_client };
                            assert(next.keys() =~= before.push(key));
                            assert(before.push(key).no_duplicates()) by {
                                assert forall|a: int, b: int|
                                    0 <= a < before.push(key).len() && 0 <= b < before.push(key).len()
                                        && a != b implies before.push(key)[a] != before.push(key)[b] by {
                                    if a == before.len() {
                                        assert(before[b] == before.push(key)[b]);
                                    } else if b == before.len() {
                                        assert(before[a] == before.push(key)[a]);
                                    }
                                }
                            }
                        }
                        self.subscriptions = subs;
                        assert(self.keys() =~= before.push(key));
                        assert forall|k: SubscriptionKey|
                            #[trigger] self.subscribed().contains(k)
                                == before.to_set().insert(key).contains(k) by {
                            if before.contains(k) {
                                let j = choose|j: int| 0 <= j < before.len() && before[j] == k;
                                assert(before.push(key)[j] == k);
                            }
                            if k == key {
                                assert(before.push(key)[before.len() as int] == k);
                            }
                            if before.push(key).contains(k) {
                                let j = choose|j: int|
                                    0 <= j < before.push(key).len() && before.push(key)[j] == k;
                                if j < before.len() {
                                    assert(before[j] == k);
                                }
                            }
                        }
                        assert(self.subscribed() =~= before.to_set().insert(key));
                    },
                }
                proof {
                    reveal_strlit("subscribe");
                }
                CommandOutcome { send, stop: false }
            },
            FeedCommand::Unsubscribe { code, quote_type } => {
                let msg = WsSubscribeMsg {
                    action: String::from_str("unsubscribe"),
                    contract_code: code.clone(),
                    quote_type,
                };
                let send = if self.has_client { Some(msg) } else { None };
                let ghost before = self.keys();
                match self.position_of(&code, quote_type) {
                    Some(i) => {
                        let mut subs: Vec<(String, SinopacQuoteType)> = Vec::new();
                        std::mem::swap(&mut subs, &mut self.subscriptions);
                        subs.remove(i);
                        proof {
                            let next = FeedState { subscriptions: subs, has_client: self.has_client };
                            assert(next.keys() =~= before.remove(i as int));
                            assert(before.remove(i as int).no_duplicates()) by {
                                assert forall|a: int, b: int|
                                    0 <= a < before.remove(i as int).len() && 0 <= b < before.remove(i as int).len()
                                        && a != b implies before.remove(i as int)[a] != before.remove(i as int)[b] by {
                                    let a2 = if a < i { a } else { a + 1 };
                                    let b2 = if b < i { b } else { b + 1 };
                                    assert(before.remove(i as int)[a] == before[a2]);
                                    assert(before.remove(i as int)[b] == before[b2]);
                                }
                            }
                        }
                        self.subscriptions = subs;
                        assert(self.keys() =~= before.remove(i as int));
                        assert forall|k: SubscriptionKey|
                            #[trigger] self.subscribed().contains(k)
                                == before.to_set().remove((code@, quote_type)).contains(k) by {
                            if before.remove(i as int).contains(k) {
                                let j = choose|j: int|
                                    0 <= j < before.remove(i as int).len()
                                        && before.remove(i as int)[j] == k;
                                if j < i {
                                    assert(before[j] == k);
                                } else {
                                    assert(before[j + 1] == k);
                                }
                            }
                            if before.contains(k) && k != (code@, quote_type) {
                                let j = choose|j: int| 0 <= j < before.len() && before[j] == k;
                                if j < i {
                                    assert(before.remove(i as int)[j] == k);
                                } else {
                                    assert(before.remove(i as int)[j - 1] == k);
                                }
                            }
                        }
                        assert(self.subscribed() =~= before.to_set().remove((code@, quote_type)));
                    },
                    None => {
                        assert(self.subscribed() =~= before.to_set().remove((code@, quote_type)));
                    },
                }
                proof {
                    reveal_strlit("unsubscribe");
                }
                CommandOutcome { send, stop: false }
            },
            FeedCommand::Disconnect => {
                self.has_client = false;
                CommandOutcome { send: None, stop: true }
            },
        }
    }

    /// The subscribe messages that restore every tracked subscription, in the
    /// order the subscriptions were made.
    fn resubscriptions(&self) -> (r: Vec<WsSubscribeMsg>)
        ensures
            r@.len() == self.keys().len(),
            forall|i: int| 0 <= i < r@.len() ==> is_subscribe_msg(#[trigger] r@[i], self.keys()[i]),
    {
        let n = self.subscriptions.len();
        let mut out: Vec<WsSubscribeMsg> = Vec::new();
        let mut i: usize = 0;
        proof {
            reveal_strlit("subscribe");
        }
        while i < n
            invariant
                n == self.subscriptions@.len(),
                n == self.keys().len(),
                i <= n,
                out@.len() == i,
                forall|j: int| 0 <= j < i ==> is_subscribe_msg(#[trigger] out@[j], self.keys()[j]),
            decreases n - i,
        {
            let entry = &self.subscriptions[i];
            assert(self.keys()[i as int] == (entry.0@, entry.1));
            out.push(WsSubscribeMsg {
                action: String::from_str("subscribe"),
                contract_code: entry.0.clone(),
                quote_type: entry.1,
            });
            i = i + 1;
        }
        out
    }

    /// Applies a frame read from the connection.
    ///
    /// After the transport reconnects, every tracked subscription is sent
    /// again (while a connection is held) and then the reconnection sentinel
    /// is delivered. A parsed message is delivered as it is; a frame that does
    /// not parse, or a control frame, is skipped without stopping the feed; a
    /// close frame or the end of the stream stops it. No frame changes the
    /// tracked subscriptions.
    pub fn on_frame<T>(&mut self, frame: FrameEvent<T>) -> (r: FrameOutcome<T>)
        ensures
            final(self).wf(),
            final(self).keys() == old(self).keys(),
            final(self).connected() == old(self).connected(),
            match frame {
                FrameEvent::Reconnected => {
                    &&& r.delivery is Reconnected
                    &&& old(self).connected() ==> {
                        &&& r.sends@.len() == old(self).keys().len()
                        &&& forall|i: int| 0 <= i < r.sends@.len()
                            ==> is_subscribe_msg(#[trigger] r.sends@[i], old(self).keys()[i])
                    }
                    &&& !old(self).connected() ==> r.sends@.len() == 0
                },
                FrameEvent::Parsed(m) => r.sends@.len() == 0 && r.delivery == Delivery::Message(m),
                FrameEvent::Unparseable => r.sends@.len() == 0 && r.delivery is Continue,
                FrameEvent::Other => r.sends@.len() == 0 && r.delivery is Continue,
                FrameEvent::Close => r.sends@.len() == 0 && r.delivery is Stop,
                FrameEvent::StreamEnded => r.sends@.len() == 0 && r.delivery is Stop,
            },
    {
        proof {
            use_type_invariant(&*self);
        }
        match frame {
            FrameEvent::Reconnected => {
                let sends = if self.has_client { self.resubscriptions() } else { Vec::new() };
                FrameOutcome { sends, delivery: Delivery::Reconnected }
            },
            FrameEvent::Parsed(m) => FrameOutcome { sends: Vec::new(), delivery: Delivery::Message(m) },
            FrameEvent::Unparseable => FrameOutcome { sends: Vec::new(), delivery: Delivery::Continue },
            FrameEvent::Other => FrameOutcome { sends: Vec::new(), delivery: Delivery::Continue },
            FrameEvent::Close => FrameOutcome { sends: Vec::new(), delivery: Delivery::Stop },
            FrameEvent::StreamEnded => FrameOutcome { sends: Vec::new(), delivery: Delivery::Stop },
        }
    }
}

/// After a reconnection, the re-sent subscribe messages cover exactly the
/// tracked subscriptions: each tracked subscription is sent once, and nothing
/// else is sent.
pub proof fn lemma_resubscription_restores_subscriptions(state: FeedState, sends: Seq<WsSubscribeMsg>)
    requires
        state.wf(),
        sends.len() == state.keys().len(),
        forall|i: int| 0 <= i < sends.len() ==> is_subscribe_msg(#[trigger] sends[i], state.keys()[i]),
    ensures
        sends.map_values(|m: WsSubscribeMsg| (m.contract_code@, m.quote_type)).to_set()
            == state.subscribed(),
        sends.map_values(|m: WsSubscribeMsg| (m.contract_code@, m.quote_type)).no_duplicates(),
        forall|i: int| 0 <= i < sends.len() ==> (#[trigger] sends[i]).action@ == "subscribe"@,
{
    let keys = sends.map_values(|m: WsSubscribeMsg| (m.contract_code@, m.quote_type));
    assert(keys =~= state.keys());
}

/// Unsubscribing undoes a subscription that was not tracked before, and
/// subscribing again to a tracked subscription changes nothing.
pub proof fn lemma_subscription_set_laws(before: FeedState, middle: FeedState, after: FeedState, key: SubscriptionKey)
    requires
        middle.subscribed() == before.subscribed().insert(key),
        after.subscribed() == middle.subscribed().remove(key),
    ensures
        !before.subscribed().contains(key) ==> after.subscribed() == before.subscribed(),
        before.subscribed().contains(key) ==> middle.subscribed() == before.subscribed(),
{
    if !before.subscribed().contains(key) {
        assert(after.subscribed() =~= before.subscribed());
    } else {
        assert(middle.subscribed() =~= before.subscribed());
    }
}

} // verus!
