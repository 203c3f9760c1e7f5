//! The listener's side: what to do about a message that came in.
//!
//! The listener decides; its caller acts. For each message the listener says
//! whether anything is to be sent and where. While a batch is being sent it
//! hands out one request at a time and takes back how that request went, so
//! that the transactions go out in their order and one that fails holds up
//! none of those behind it.

use vstd::prelude::*;

use crate::hex;
use crate::message::{
    batch_of_values, decode, encodings, hex_texts, lemma_payload_of_message, message_of,
    payload_of, Message, MessageView, Payload, PayloadView,
};
use crate::network::{endpoint_of, known_network, magic_of, Network, Unsupported};
use crate::transaction::Transaction;

verus! {

/// A batch on its way to the endpoint of its network.
#[derive(Debug)]
pub struct Delivery {
    network: Network,
    batch: Vec<Transaction>,
    attempted: usize,
}

/// The model of a delivery: the address it goes to, the body of the request
/// for each transaction, and how many of the requests have been made.
#[verifier::ext_equal]
pub struct DeliveryView {
    pub url: Seq<char>,
    pub bodies: Seq<Seq<char>>,
    pub attempted: nat,
}

/// What the listener does about a message.
#[derive(Debug)]
pub enum Action {
    /// Nothing, in silence: the message is no relay message, or it names a
    /// network and carries no transaction.
    Skip,
    /// Report that the message names no network that can be read.
    UnknownNetwork,
    /// Report that the network is not a known one, and send nothing of the
    /// batch.
    Unsupported(Unsupported),
    /// Send the batch.
    Deliver(Delivery),
}

/// The model of an action.
#[verifier::ext_equal]
pub enum ActionView {
    Skip,
    UnknownNetwork,
    Unsupported(Seq<u8>),
    Deliver(DeliveryView),
}

/// One request to an endpoint: an HTTP POST of `body` to `url`.
#[derive(Clone, Debug, PartialEq, Eq)]
pub struct Request {
    pub url: &'static str,
    pub body: String,
}

/// What came back for a request.
#[derive(Clone, Copy, Debug, PartialEq, Eq, Structural)]
pub enum Reply {
    /// An HTTP response with this status code.
    Status(u16),
    /// No response: the request did not get through.
    Failed,
}

/// How one request went: which transaction of the batch it was for, counted
/// from zero, and whether the endpoint took it.
#[derive(Clone, Copy, Debug, PartialEq, Eq, Structural)]
pub struct Report {
    pub index: usize,
    pub accepted: bool,
}

/// Whether a reply says that the endpoint took the transaction: a response
/// with a status from 200 to 299, and nothing else.
pub open spec fn is_success(reply: Reply) -> bool {
    reply matches Reply::Status(code) && 200 <= code <= 299
}

impl View for Delivery {
    type V = DeliveryView;

    closed spec fn view(&self) -> DeliveryView {
        DeliveryView {
            url: endpoint_of(self.network),
            bodies: hex_texts(encodings(self.batch@)),
            attempted: self.attempted as nat,
        }
    }
}

impl View for Action {
    type V = ActionView;

    open spec fn view(&self) -> ActionView {
        match self {
            Action::Skip => ActionView::Skip,
            Action::UnknownNetwork => ActionView::UnknownNetwork,
            Action::Unsupported(e) => ActionView::Unsupported(e.magic@),
            Action::Deliver(delivery) => ActionView::Deliver(delivery@),
        }
    }
}

/// What is to be done about a payload. Without a network nothing can be
/// sent, and that is reported. An empty batch asks for nothing. A batch for
/// a network that is not known is reported and not sent, no part of it. Any
/// other batch goes to the endpoint of its network, every transaction as
/// the hexadecimal text of its encoding, in the order of the batch.
pub open spec fn action_for(payload: PayloadView) -> ActionView {
    match payload.network {
        None => ActionView::UnknownNetwork,
        Some(magic) => if payload.batch.len() == 0 {
            ActionView::Skip
        } else {
            match known_network(magic) {
                None => ActionView::Unsupported(magic),
                Some(network) => ActionView::Deliver(
                    DeliveryView {
                        url: endpoint_of(network),
                        bodies: hex_texts(payload.batch),
                        attempted: 0,
                    },
                ),
            }
        },
    }
}

/// What is to be done about a message.
pub open spec fn action_on(message: MessageView) -> ActionView {
    match payload_of(message) {
        Some(payload) => action_for(payload),
        None => ActionView::Skip,
    }
}

impl Delivery {
    #[verifier::type_invariant]
    spec fn well_formed(self) -> bool {
        self.attempted <= self.batch.len()
    }

    /// The address that the requests go to.
    pub fn url(&self) -> (url: &'static str)
        ensures
            url@ == self@.url,
    {
        self.network.endpoint()
    }

    /// How many transactions the batch holds.
    pub fn len(&self) -> (n: usize)
        ensures
            n == self@.bodies.len(),
    {
        self.batch.len()
    }

    /// How many requests have been made.
    pub fn attempted(&self) -> (n: usize)
        ensures
            n == self@.attempted,
            n <= self@.bodies.len(),
    {
        proof {
            use_type_invariant(self);
        }
        self.attempted
    }

    /// The transaction that the next request is for, if any is left.
    pub fn pending(&self) -> (r: Option<&Transaction>)
        ensures
            r is Some <==> self@.attempted < self@.bodies.len(),
            r matches Some(tx) ==> hex::hex_text(tx@) == self@.bodies[self@.attempted as int],
    {
        proof {
            use_type_invariant(self);
        }
        if self.attempted < self.batch.len() {
            Some(&self.batch[self.attempted])
        } else {
            None
        }
    }

    /// The request to make next: the first transaction that no request has
    /// been made for, or nothing once every transaction has had its
    /// request.
    pub fn next_request(&self) -> (r: Option<Request>)
        ensures
            r is Some <==> self@.attempted < self@.bodies.len(),
            r matches Some(request) ==> {
                &&& request.url@ == self@.url
                &&& request.body@ == self@.bodies[self@.attempted as int]
            },
    {
        match self.pending() {
            Some(tx) => Some(Request { url: self.network.endpoint(), body: tx.to_hex() }),
            None => None,
        }
    }

    /// Takes note of what came back for the pending request and moves on to
    /// the next transaction, whether the endpoint took this one or not.
    /// Where no request is pending there is nothing to note.
    pub fn record(&mut self, reply: Reply) -> (r: Option<Report>)
        ensures
            final(self)@.url == old(self)@.url,
            final(self)@.bodies == old(self)@.bodies,
            old(self)@.attempted < old(self)@.bodies.len() ==> {
                &&& final(self)@.attempted == old(self)@.attempted + 1
                &&& r == Some(
                    Report { index: old(self)@.attempted as usize, accepted: is_success(reply) },
                )
            },
            old(self)@.attempted >= old(self)@.bodies.len() ==> {
                &&& final(self)@.attempted == old(self)@.attempted
                &&& r is None
            },
    {
        proof {
            use_type_invariant(&*self);
        }
        if self.attempted < self.batch.len() {
            let index = self.attempted;
            self.attempted = index + 1;
            Some(Report { index, accepted: reply.is_success() })
        } else {
            None
        }
    }
}

impl Reply {
    /// Whether the endpoint took the transaction.
    pub fn is_success(&self) -> (accepted: bool)
        ensures
            accepted == is_success(*self),
    {
        match self {
            Reply::Status(code) => 200 <= *code && *code <= 299,
            Reply::Failed => false,
        }
    }
}

impl Action {
    /// What the operator is told, for the actions that report something.
    pub fn notice(&self) -> (r: Option<String>)
        ensures
            match self@ {
                ActionView::UnknownNetwork => r matches Some(text) && text@
                    == "Network: unknown"@,
                ActionView::Unsupported(magic) => r matches Some(text) && text@ == "Magic: "@
                    + hex::hex_text(magic) + " is unknown"@,
                _ => r is None,
            },
    {
        match self {
            Action::UnknownNetwork => Some(String::from_str("Network: unknown")),
            Action::Unsupported(e) => Some(e.message()),
            _ => None,
        }
    }
}

/// Decides what to do about the payload of a relay message.
pub fn plan(payload: Payload) -> (action: Action)
    ensures
        action@ == action_for(payload@),
{
    let Payload { network, batch } = payload;
    match network {
        None => Action::UnknownNetwork,
        Some(id) => {
            if batch.len() == 0 {
                Action::Skip
            } else {
                match id.classify() {
                    None => Action::Unsupported(Unsupported { magic: id }),
                    Some(network) => Action::Deliver(Delivery { network, batch, attempted: 0 }),
                }
            }
        },
    }
}

/// Decides what to do about a message as it comes from the pub/sub
/// network.
pub fn handle(message: &Message) -> (action: Action)
    ensures
        action@ == action_on(message@),
{
    match decode(message) {
        Some(payload) => plan(payload),
        None => Action::Skip,
    }
}

/// From publisher to endpoint: a message built for a known network makes
/// the listener post what decodes of its transaction values, and nothing
/// else, to the endpoint of that network and in the order of the values.
/// Where none of the values decodes the listener does nothing.
pub proof fn lemma_published_is_delivered(network: Network, values: Seq<Seq<char>>)
    ensures
        action_on(message_of(magic_of(network), values)) == (if batch_of_values(values).len()
            == 0 {
            ActionView::Skip
        } else {
            ActionView::Deliver(
                DeliveryView {
                    url: endpoint_of(network),
                    bodies: hex_texts(batch_of_values(values)),
                    attempted: 0,
                },
            )
        }),
{
    crate::network::lemma_table_is_exact(network);
    lemma_payload_of_message(magic_of(network), values);
}

} // verus!
