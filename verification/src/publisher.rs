//! The publisher's side: from what a caller wants sent to the message that
//! goes out.
//!
//! A publisher speaks for one caller whom it trusts to mean what they say,
//! so a single malformed entry turns the whole submission down before
//! anything is built or sent.

use vstd::prelude::*;

use crate::hex;
use crate::message::{message_of, texts, wire_message, Message};
use crate::network::NetworkId;

verus! {

/// Why a submission was turned down.
#[derive(Clone, Copy, Debug, PartialEq, Eq, Structural)]
pub enum PublishError {
    /// The entry at `index`, counted from zero, is not lower-case
    /// hexadecimal text; every entry before it is.
    MalformedHex { index: usize },
}

/// Whether the entry at `index` is the first that is not lower-case
/// hexadecimal text.
pub open spec fn is_first_malformed(entries: Seq<Seq<char>>, index: int) -> bool {
    &&& 0 <= index < entries.len()
    &&& !hex::is_lower_hex(entries[index])
    &&& forall|j: int| 0 <= j < index ==> hex::is_lower_hex(#[trigger] entries[j])
}

/// Whether every entry is lower-case hexadecimal text.
pub open spec fn all_well_formed(entries: Seq<Seq<char>>) -> bool {
    forall|j: int| 0 <= j < entries.len() ==> hex::is_lower_hex(#[trigger] entries[j])
}

impl PublishError {
    /// What to tell the caller.
    pub fn message(&self) -> (text: String)
        ensures
            text@ == "hex decoding error"@,
    {
        String::from_str("hex decoding error")
    }
}

/// Looks for an entry that is not lower-case hexadecimal text, from the
/// front.
pub fn first_malformed(entries: &Vec<String>) -> (r: Option<usize>)
    ensures
        match r {
            Some(index) => is_first_malformed(texts(entries@), index as int),
            None => all_well_formed(texts(entries@)),
        },
{
    let mut i: usize = 0;
    while i < entries.len()
        invariant
            i <= entries.len(),
            forall|j: int| 0 <= j < i ==> hex::is_lower_hex(#[trigger] texts(entries@)[j]),
        decreases entries.len() - i,
    {
        if !hex::validate(entries[i].as_str()) {
            return Some(i);
        }
        i += 1;
    }
    None
}

/// Builds the message for a submission: the target network and the
/// transactions, each as hexadecimal text, in the caller's order. The
/// entries go into the message as they were given. Where one of them is
/// malformed no message is built.
pub fn compose(network: &NetworkId, transactions: Vec<String>) -> (r: Result<
    Message,
    PublishError,
>)
    ensures
        match r {
            Ok(message) => {
                &&& all_well_formed(texts(transactions@))
                &&& message@ == message_of(network@, texts(transactions@))
            },
            Err(PublishError::MalformedHex { index }) => is_first_malformed(
                texts(transactions@),
                index as int,
            ),
        },
{
    match first_malformed(&transactions) {
        Some(index) => Err(PublishError::MalformedHex { index }),
        None => Ok(wire_message(network, transactions)),
    }
}

} // verus!
