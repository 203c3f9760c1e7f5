//! Transactions, held in the byte encoding that the bitcoin network agrees on.
//!
//! Whether bytes are a transaction is bitcoin's to say. This module asks
//! the `bitcoin` crate and keeps what it answers as plain bytes.

use bitcoin::consensus::Decodable;
use vstd::prelude::*;

use crate::hex;

verus! {

/// What bitcoin's consensus decoder makes of `raw`: nothing where it reads
/// no transaction from the front of `raw`, else the consensus encoding of
/// the transaction that it reads.
pub uninterp spec fn consensus_form(raw: Seq<u8>) -> Option<Seq<u8>>;

/// Bytes that are the consensus encoding of the transaction they decode to.
pub open spec fn is_canonical(bytes: Seq<u8>) -> bool {
    consensus_form(bytes) == Some(bytes)
}

/// The transaction that a tag value or a message body stands for, if any:
/// lower-case hexadecimal text whose bytes decode.
pub open spec fn transaction_of(text: Seq<char>) -> Option<Seq<u8>> {
    if hex::is_lower_hex(text) {
        consensus_form(hex::hex_bytes(text))
    } else {
        None
    }
}

/// A decoded transaction, kept as its consensus encoding.
#[derive(Clone, Debug, PartialEq, Eq)]
pub struct Transaction {
    bytes: Vec<u8>,
}

impl View for Transaction {
    type V = Seq<u8>;

    closed spec fn view(&self) -> Seq<u8> {
        self.bytes@
    }
}

/// Runs `bitcoin::Transaction::consensus_decode` on `raw` and, where it
/// yields a transaction, hands that transaction back as the bytes that
/// `bitcoin::consensus::serialize` writes for it. Nothing is proved of
/// either call: the contract only gives the outcome its name.
#[verifier::external_body]
fn consensus_reencode(raw: &[u8]) -> (form: Option<Vec<u8>>)
    ensures
        match form {
            Some(bytes) => consensus_form(raw@) == Some(bytes@),
            None => consensus_form(raw@) is None,
        },
{
    let mut reader = raw;
    match bitcoin::Transaction::consensus_decode(&mut reader) {
        Ok(tx) => Some(bitcoin::consensus::serialize(&tx)),
        Err(_) => None,
    }
}

fn same_bytes(a: &[u8], b: &[u8]) -> (same: bool)
    ensures
        same == (a@ == b@),
{
    if a.len() != b.len() {
        return false;
    }
    let mut i: usize = 0;
    while i < a.len()
        invariant
            a@.len() == b@.len(),
            i <= a.len(),
            a@.take(i as int) == b@.take(i as int),
        decreases a.len() - i,
    {
        if a[i] != b[i] {
            return false;
        }
        i += 1;
    }
    assert(a@.take(i as int) =~= a@ && b@.take(i as int) =~= b@);
    true
}

impl Transaction {
    /// Decodes a transaction from the front of `raw`. Bytes that follow the
    /// transaction are not looked at and are not kept.
    pub fn decode(raw: &[u8]) -> (r: Option<Transaction>)
        ensures
            match r {
                Some(tx) => consensus_form(raw@) == Some(tx@),
                None => consensus_form(raw@) is None,
            },
    {
        match consensus_reencode(raw) {
            Some(bytes) => Some(Transaction { bytes }),
            None => None,
        }
    }

    /// Decodes a transaction from lower-case hexadecimal text.
    pub fn from_hex(text: &str) -> (r: Option<Transaction>)
        ensures
            match r {
                Some(tx) => transaction_of(text@) == Some(tx@),
                None => transaction_of(text@) is None,
            },
    {
        match hex::decode(text) {
            Some(raw) => Transaction::decode(raw.as_slice()),
            None => None,
        }
    }

    /// Whether the transaction's bytes decode to the transaction itself,
    /// found by decoding them once more.
    pub fn is_canonical(&self) -> (r: bool)
        ensures
            r == is_canonical(self@),
    {
        match consensus_reencode(self.bytes.as_slice()) {
            Some(again) => same_bytes(again.as_slice(), self.bytes.as_slice()),
            None => false,
        }
    }

    /// The consensus encoding of the transaction.
    pub fn bytes(&self) -> (r: &Vec<u8>)
        ensures
            r@ == self@,
    {
        &self.bytes
    }

    /// The transaction as lower-case hexadecimal text: the form in which it
    /// travels in a message and in which it is handed to an endpoint.
    pub fn to_hex(&self) -> (text: String)
        ensures
            text@ == hex::hex_text(self@),
    {
        hex::encode(self.bytes.as_slice())
    }
}

} // verus!
