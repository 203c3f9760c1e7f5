//! The message that carries a batch of transactions over the pub/sub
//! network, and the codec between it and what it carries.
//!
//! A message has a kind, a list of tags and a body. Each tag is a key and an
//! ordered list of text values. A relay message has the reserved kind, one
//! tag with the network's magic bytes and one tag with the transactions, all
//! of it in hexadecimal so that it can be read on the wire.

use vstd::prelude::*;

use crate::hex;
use crate::network::{parse_magic, NetworkId};
use crate::transaction::{is_canonical, transaction_of, Transaction};

verus! {

/// The kind that every relay message has, and no other message.
pub const KIND: u64 = 28333;

/// A tag of a message: a key and its values, in order.
#[derive(Clone, Debug, PartialEq, Eq)]
pub struct Tag {
    pub key: String,
    pub values: Vec<String>,
}

/// A message as the pub/sub network hands it over.
#[derive(Clone, Debug, PartialEq, Eq)]
pub struct Message {
    pub kind: u64,
    pub tags: Vec<Tag>,
    pub content: String,
}

/// What a relay message carries: the network, where the message names one
/// that can be read, and the transactions that could be decoded.
#[derive(Clone, Debug, PartialEq, Eq)]
pub struct Payload {
    pub network: Option<NetworkId>,
    pub batch: Vec<Transaction>,
}

/// The model of a tag.
#[verifier::ext_equal]
pub struct TagView {
    pub key: Seq<char>,
    pub values: Seq<Seq<char>>,
}

/// The model of a message.
#[verifier::ext_equal]
pub struct MessageView {
    pub kind: u64,
    pub tags: Seq<TagView>,
    pub content: Seq<char>,
}

/// The model of a payload: magic bytes, and the consensus encoding of each
/// transaction.
#[verifier::ext_equal]
pub struct PayloadView {
    pub network: Option<Seq<u8>>,
    pub batch: Seq<Seq<u8>>,
}

/// The texts that a list of strings holds.
pub open spec fn texts(strings: Seq<String>) -> Seq<Seq<char>> {
    Seq::new(strings.len(), |i: int| strings[i]@)
}

/// The models of a list of tags.
pub open spec fn tag_views(tags: Seq<Tag>) -> Seq<TagView> {
    Seq::new(tags.len(), |i: int| tags[i]@)
}

/// The consensus encodings of a list of transactions.
pub open spec fn encodings(batch: Seq<Transaction>) -> Seq<Seq<u8>> {
    Seq::new(batch.len(), |i: int| batch[i]@)
}

/// The hexadecimal text of each of a list of byte strings.
pub open spec fn hex_texts(batch: Seq<Seq<u8>>) -> Seq<Seq<char>> {
    Seq::new(batch.len(), |i: int| hex::hex_text(batch[i]))
}

impl View for Tag {
    type V = TagView;

    open spec fn view(&self) -> TagView {
        TagView { key: self.key@, values: texts(self.values@) }
    }
}

impl View for Message {
    type V = MessageView;

    open spec fn view(&self) -> MessageView {
        MessageView { kind: self.kind, tags: tag_views(self.tags@), content: self.content@ }
    }
}

impl View for Payload {
    type V = PayloadView;

    open spec fn view(&self) -> PayloadView {
        PayloadView {
            network: match self.network {
                Some(id) => Some(id@),
                None => None,
            },
            batch: encodings(self.batch@),
        }
    }
}

/// The key of the tag that names the network.
pub open spec fn magic_key() -> Seq<char> {
    "magic"@
}

/// The key of the tag that lists the transactions.
pub open spec fn transactions_key() -> Seq<char> {
    "transactions"@
}

/// The first tag with the given key, if any tag has it.
pub open spec fn first_tag(tags: Seq<TagView>, key: Seq<char>) -> Option<TagView>
    decreases tags.len(),
{
    if tags.len() == 0 {
        None
    } else if tags[0].key == key {
        Some(tags[0])
    } else {
        first_tag(tags.drop_first(), key)
    }
}

/// The network that a list of tags names: the first value of the first
/// network tag, where that value is the text of four magic bytes.
pub open spec fn network_of(tags: Seq<TagView>) -> Option<Seq<u8>> {
    match first_tag(tags, magic_key()) {
        Some(tag) => if tag.values.len() > 0 {
            parse_magic(tag.values[0])
        } else {
            None
        },
        None => None,
    }
}

/// What reads one value of a transaction list.
pub open spec fn reader() -> spec_fn(Seq<char>) -> Option<Seq<u8>> {
    |text: Seq<char>| transaction_of(text)
}

/// The transactions that a list of values stands for: those of the values
/// that decode, in the order of the list. A value that does not decode
/// leaves no trace.
pub open spec fn batch_of_values(values: Seq<Seq<char>>) -> Seq<Seq<u8>> {
    values.filter_map(reader())
}

/// The transactions that a message carries: those of its first transaction
/// tag or, where it has no such tag and its body is not empty, the one that
/// the body may stand for.
pub open spec fn batch_of(message: MessageView) -> Seq<Seq<u8>> {
    match first_tag(message.tags, transactions_key()) {
        Some(tag) => batch_of_values(tag.values),
        None => if message.content.len() > 0 {
            batch_of_values(seq![message.content])
        } else {
            Seq::empty()
        },
    }
}

/// What a message carries, or nothing where it is not a relay message.
pub open spec fn payload_of(message: MessageView) -> Option<PayloadView> {
    if message.kind == KIND {
        Some(PayloadView { network: network_of(message.tags), batch: batch_of(message) })
    } else {
        None
    }
}

/// The relay message for a network and a list of transaction texts.
pub open spec fn message_of(magic: Seq<u8>, values: Seq<Seq<char>>) -> MessageView {
    MessageView {
        kind: KIND,
        tags: seq![
            TagView { key: magic_key(), values: seq![hex::hex_text(magic)] },
            TagView { key: transactions_key(), values: values },
        ],
        content: Seq::empty(),
    }
}

impl Tag {
    /// A tag with the given key and values.
    pub fn new(key: &str, values: Vec<String>) -> (tag: Tag)
        ensures
            tag@ == (TagView { key: key@, values: texts(values@) }),
    {
        Tag { key: String::from_str(key), values }
    }
}

impl Message {
    /// The first tag with the given key.
    pub fn tag(&self, key: &str) -> (r: Option<&Tag>)
        ensures
            match r {
                Some(tag) => first_tag(self@.tags, key@) == Some(tag@),
                None => first_tag(self@.tags, key@) is None,
            },
    {
        let wanted = String::from_str(key);
        let ghost all = self@.tags;
        let mut i: usize = 0;
        assert(all.skip(0) =~= all);
        while i < self.tags.len()
            invariant
                i <= self.tags.len(),
                all == tag_views(self.tags@),
                wanted@ == key@,
                first_tag(all, key@) == first_tag(all.skip(i as int), key@),
            decreases self.tags.len() - i,
        {
            let tag = &self.tags[i];
            if tag.key == wanted {
                return Some(tag);
            }
            assert(all.skip(i as int).drop_first() =~= all.skip(i + 1));
            i += 1;
        }
        None
    }
}

/// Takes the outcome of reading one value into a batch: a transaction goes
/// to the end of the batch, a value that gave none leaves the batch as it
/// was.
pub fn keep(batch: &mut Vec<Transaction>, outcome: Option<Transaction>)
    ensures
        encodings(final(batch)@) == encodings(old(batch)@) + (match outcome {
            Some(tx) => seq![tx@],
            None => Seq::empty(),
        }),
{
    match outcome {
        Some(tx) => batch.push(tx),
        None => {},
    }
}

/// Reads the values of a transaction tag, one by one. A value that is not
/// lower-case hexadecimal, or whose bytes are no transaction, is passed over.
pub fn decode_values(values: &Vec<String>) -> (batch: Vec<Transaction>)
    ensures
        encodings(batch@) == batch_of_values(texts(values@)),
{
    let ghost all = texts(values@);
    let mut batch: Vec<Transaction> = Vec::new();
    let mut i: usize = 0;
    while i < values.len()
        invariant
            i <= values.len(),
            all == texts(values@),
            encodings(batch@) == all.take(i as int).filter_map(reader()),
        decreases values.len() - i,
    {
        proof {
            all.lemma_filter_map_take_succ(reader(), i as int);
        }
        keep(&mut batch, Transaction::from_hex(values[i].as_str()));
        i += 1;
    }
    assert(all.take(i as int) =~= all);
    batch
}

/// Reads a message. A message of another kind is not a relay message and
/// gives nothing, whatever its tags hold. In a relay message a network tag
/// that is missing, empty or unreadable leaves the network unknown, and a
/// transaction that cannot be decoded is left out of the batch.
pub fn decode(message: &Message) -> (r: Option<Payload>)
    ensures
        r is None <==> message.kind != KIND,
        match r {
            Some(payload) => payload_of(message@) == Some(payload@),
            None => payload_of(message@) is None,
        },
{
    if message.kind != KIND {
        return None;
    }
    let network = match message.tag("magic") {
        Some(tag) => {
            if tag.values.len() > 0 {
                NetworkId::parse(tag.values[0].as_str())
            } else {
                None
            }
        },
        None => None,
    };
    let batch = match message.tag("transactions") {
        Some(tag) => decode_values(&tag.values),
        None => {
            if message.content.as_str().is_empty() {
                Vec::new()
            } else {
                let mut body: Vec<String> = Vec::new();
                body.push(message.content.clone());
                assert(texts(body@) =~= seq![message@.content]);
                decode_values(&body)
            }
        },
    };
    Some(Payload { network, batch })
}

/// Builds the relay message for a network and a batch of transactions: one
/// network tag with the magic bytes, one transaction tag with a value for
/// each transaction in the order given, and an empty body.
pub fn encode(network: &NetworkId, batch: &Vec<Transaction>) -> (message: Message)
    ensures
        message@ == message_of(network@, hex_texts(encodings(batch@))),
{
    let mut values: Vec<String> = Vec::new();
    let mut i: usize = 0;
    while i < batch.len()
        invariant
            i <= batch.len(),
            texts(values@) == hex_texts(encodings(batch@)).take(i as int),
        decreases batch.len() - i,
    {
        let ghost before = texts(values@);
        values.push(batch[i].to_hex());
        assert(texts(values@) =~= before.push(hex::hex_text(batch@[i as int]@)));
        i += 1;
    }
    assert(hex_texts(encodings(batch@)).take(i as int) =~= hex_texts(encodings(batch@)));
    wire_message(network, values)
}

/// The relay message with the given network and the given values in its
/// transaction tag.
pub fn wire_message(network: &NetworkId, values: Vec<String>) -> (message: Message)
    ensures
        message@ == message_of(network@, texts(values@)),
{
    let mut magic: Vec<String> = Vec::new();
    magic.push(network.to_hex());
    let mut tags: Vec<Tag> = Vec::new();
    tags.push(Tag::new("magic", magic));
    tags.push(Tag::new("transactions", values));
    let message = Message { kind: KIND, tags, content: String::new() };
    assert(message@.tags =~~= message_of(network@, texts(values@)).tags);
    message
}

/// The batch of two lists of values, one after the other, is the batch of
/// the first followed by the batch of the second.
pub proof fn lemma_batch_of_concat(a: Seq<Seq<char>>, b: Seq<Seq<char>>)
    ensures
        batch_of_values(a + b) == batch_of_values(a) + batch_of_values(b),
    decreases b.len(),
{
    if b.len() > 0 {
        lemma_batch_of_concat(a, b.drop_last());
        assert((a + b).drop_last() =~= a + b.drop_last());
    }
}

/// Where every value decodes, the batch holds what each value decodes to,
/// one for one and in the same order.
pub proof fn lemma_batch_of_decodable(values: Seq<Seq<char>>)
    requires
        forall|i: int| 0 <= i < values.len() ==> transaction_of(#[trigger] values[i]) is Some,
    ensures
        batch_of_values(values) == Seq::new(
            values.len(),
            |i: int| transaction_of(values[i]).unwrap(),
        ),
    decreases values.len(),
{
    if values.len() > 0 {
        lemma_batch_of_decodable(values.drop_last());
    }
}

/// A value that does not decode leaves no trace: the batch is that of the
/// list without it.
pub proof fn lemma_malformed_is_dropped(values: Seq<Seq<char>>, k: int)
    requires
        0 <= k < values.len(),
        transaction_of(values[k]) is None,
    ensures
        batch_of_values(values) == batch_of_values(values.remove(k)),
{
    let front = values.take(k);
    let back = values.skip(k + 1);
    assert(values =~= front + seq![values[k]] + back);
    lemma_batch_of_concat(front + seq![values[k]], back);
    lemma_batch_of_concat(front, seq![values[k]]);
    lemma_batch_of_concat(front, back);
    Seq::lemma_filter_map_singleton(values[k], reader());
}

/// Partial failure: where exactly one of the values of a transaction list
/// does not decode, the batch holds what the others decode to, one fewer
/// than the values, in the order in which they stand in the list.
pub proof fn lemma_one_malformed(values: Seq<Seq<char>>, k: int)
    requires
        0 <= k < values.len(),
        transaction_of(values[k]) is None,
        forall|i: int|
            0 <= i < values.len() && i != k ==> transaction_of(#[trigger] values[i]) is Some,
    ensures
        batch_of_values(values).len() == values.len() - 1,
        batch_of_values(values) == Seq::new(
            (values.len() - 1) as nat,
            |i: int| transaction_of(values.remove(k)[i]).unwrap(),
        ),
{
    lemma_malformed_is_dropped(values, k);
    lemma_batch_of_decodable(values.remove(k));
}

/// What a relay message built for a network carries: that network, and the
/// batch of the values in its transaction tag.
pub proof fn lemma_payload_of_message(magic: Seq<u8>, values: Seq<Seq<char>>)
    requires
        magic.len() == 4,
    ensures
        payload_of(message_of(magic, values)) == Some(
            PayloadView { network: Some(magic), batch: batch_of_values(values) },
        ),
{
    let message = message_of(magic, values);
    reveal_strlit("magic");
    reveal_strlit("transactions");
    assert(transactions_key().len() == 12);
    hex::lemma_bytes_of_text(magic);
    assert(first_tag(message.tags.drop_first(), transactions_key()) == Some(message.tags[1]));
}

/// Round trip: the message built for a network and a list of transactions,
/// each of them in its consensus encoding, carries that network and those
/// transactions, in the same order.
pub proof fn lemma_round_trip(magic: Seq<u8>, batch: Seq<Seq<u8>>)
    requires
        magic.len() == 4,
        forall|i: int| 0 <= i < batch.len() ==> is_canonical(#[trigger] batch[i]),
    ensures
        payload_of(message_of(magic, hex_texts(batch))) == Some(
            PayloadView { network: Some(magic), batch: batch },
        ),
{
    let values = hex_texts(batch);
    lemma_payload_of_message(magic, values);
    assert forall|i: int| 0 <= i < values.len() implies transaction_of(#[trigger] values[i])
        == Some(batch[i]) by {
        hex::lemma_bytes_of_text(batch[i]);
    }
    lemma_batch_of_decodable(values);
}

} // verus!
