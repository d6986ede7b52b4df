//! The message protocol: the messages, what a signature covers, and the
//! lists that a node keeps about its peers.
//!
//! Nothing here touches a socket. A function that would send returns an
//! [`Action`] instead, and the program around the library carries it out.

use vstd::prelude::*;
use vstd::utf8::encode_utf8;
use crate::block::{data_views, Block, BlockView, DataPoint, DataPointView};
use crate::blockchain::block_views;
use crate::decimal::{signed_decimal, signed_decimal_string};
use crate::deflate::{compress, deflated};
use crate::signature::{accepts, ed25519_accepts};

pub use crate::client::{Client, Command, Keypair, Order};
pub use crate::frame::{find_zero_run, strip_trailing};
pub use crate::listener::Listener;

verus! {

/// The size of the buffer that one connection is read into.
pub const BUFFER_SIZE: usize = 8192;

/// The deflate level of every datagram.
pub const COMPRESSION_LEVEL: u8 = 9;

/// The age in seconds after which a message is stale, and the number of
/// signatures that the replay window keeps.
pub const TTL: usize = 3600;

/// Whether this node puts accepted transfers into its own chain.
pub const VALIDATOR: bool = true;

/// The peers that a node knows before it has heard of any.
pub fn boot_nodes() -> (nodes: Vec<String>)
    ensures
        text_views(nodes@) == seq!["127.0.0.1:60000"@],
{
    let mut nodes: Vec<String> = Vec::new();
    nodes.push("127.0.0.1:60000".to_owned());
    nodes
}

/// The views of a run of texts.
pub open spec fn text_views(texts: Seq<String>) -> Seq<Seq<char>> {
    texts.map_values(|t: String| t@)
}

/// The views of a run of byte strings.
pub open spec fn bytes_views(items: Seq<Vec<u8>>) -> Seq<Seq<u8>> {
    items.map_values(|b: Vec<u8>| b@)
}

/// The bytes of the text `NONE`, which stand where a message has no key or
/// no signature.
pub open spec fn none_bytes() -> Seq<u8> {
    seq![78u8, 79u8, 78u8, 69u8]
}

pub(crate) fn none_marker() -> (bytes: Vec<u8>)
    ensures
        bytes@ == none_bytes(),
{
    let mut bytes: Vec<u8> = Vec::new();
    bytes.push(78u8);
    bytes.push(79u8);
    bytes.push(78u8);
    bytes.push(69u8);
    bytes
}

pub(crate) fn clone_bytes(bytes: &Vec<u8>) -> (copy: Vec<u8>)
    ensures
        copy@ == bytes@,
{
    let copy = bytes.clone();
    copy
}

pub(crate) fn clone_texts(texts: &Vec<String>) -> (copy: Vec<String>)
    ensures
        text_views(copy@) == text_views(texts@),
        copy@.len() == texts@.len(),
{
    let copy = texts.clone();
    copy
}

/// One message of the protocol. Every field is always there; a kind that has
/// no use for a field leaves it empty.
#[derive(Debug)]
pub struct Message {
    /// The kind of message, as the wire names it.
    pub destiny: String,
    /// The sender's public key, or the bytes of `NONE`.
    pub pubkey: Vec<u8>,
    /// The signature, or the bytes of `NONE`.
    pub signed: Vec<u8>,
    pub data: Vec<DataPoint>,
    pub blocks: Vec<Block>,
    pub contacts: Vec<String>,
    /// When the message was made, in seconds since the Unix epoch.
    pub timestamp: i64,
    /// The address that the sender listens on.
    pub contact: String,
}

/// What a [`Message`] holds.
pub struct MessageView {
    pub destiny: Seq<char>,
    pub pubkey: Seq<u8>,
    pub signed: Seq<u8>,
    pub data: Seq<DataPointView>,
    pub blocks: Seq<BlockView>,
    pub contacts: Seq<Seq<char>>,
    pub timestamp: i64,
    pub contact: Seq<char>,
}

impl View for Message {
    type V = MessageView;

    open spec fn view(&self) -> MessageView {
        MessageView {
            destiny: self.destiny@,
            pubkey: self.pubkey@,
            signed: self.signed@,
            data: data_views(self.data@),
            blocks: block_views(self.blocks@),
            contacts: text_views(self.contacts@),
            timestamp: self.timestamp,
            contact: self.contact@,
        }
    }
}

impl Clone for Message {
    fn clone(&self) -> (res: Self)
        ensures
            res@ == self@,
    {
        let data = self.data.clone();
        let blocks = self.blocks.clone();
        assert(block_views(blocks@) =~= block_views(self.blocks@));
        Message {
            destiny: self.destiny.clone(),
            pubkey: clone_bytes(&self.pubkey),
            signed: clone_bytes(&self.signed),
            data,
            blocks,
            contacts: clone_texts(&self.contacts),
            timestamp: self.timestamp,
            contact: self.contact.clone(),
        }
    }
}

/// The kinds of message.
#[derive(Debug, Clone, Copy, PartialEq, Eq)]
pub enum Destiny {
    CreateTransaction,
    GetChain,
    GiveChain,
    GetContacts,
    GiveContacts,
    /// A tag that names no kind.
    Unknown,
}

/// The kind that a tag names.
pub open spec fn destiny_of(tag: Seq<char>) -> Destiny {
    if tag == "create-transaction"@ {
        Destiny::CreateTransaction
    } else if tag == "get-chain"@ {
        Destiny::GetChain
    } else if tag == "give-chain"@ {
        Destiny::GiveChain
    } else if tag == "get-contacts"@ {
        Destiny::GetContacts
    } else if tag == "give-contacts"@ {
        Destiny::GiveContacts
    } else {
        Destiny::Unknown
    }
}

pub(crate) fn same_text(a: &str, b: &str) -> (same: bool)
    ensures
        same == (a@ == b@),
{
    a.to_owned() == b.to_owned()
}

impl Destiny {
    /// Reads a tag.
    pub fn parse(tag: &str) -> (kind: Destiny)
        ensures
            kind == destiny_of(tag@),
    {
        if same_text(tag, "create-transaction") {
            Destiny::CreateTransaction
        } else if same_text(tag, "get-chain") {
            Destiny::GetChain
        } else if same_text(tag, "give-chain") {
            Destiny::GiveChain
        } else if same_text(tag, "get-contacts") {
            Destiny::GetContacts
        } else if same_text(tag, "give-contacts") {
            Destiny::GiveContacts
        } else {
            Destiny::Unknown
        }
    }
}

/// The text that the signature of a `create-transaction` message covers: the
/// transfer as JSON, the timestamp in decimal, and the sender's contact, with
/// nothing between them.
pub open spec fn signing_text(data: DataPointView, timestamp: i64, contact: Seq<char>) -> Seq<
    char,
> {
    data.json() + signed_decimal(timestamp as int) + contact
}

/// Writes the text that the signature of a `create-transaction` message
/// covers.
pub fn signing_preimage(data: &DataPoint, timestamp: i64, contact: &str) -> (text: String)
    ensures
        text@ == signing_text(data@, timestamp, contact@),
{
    let mut text = data.to_string();
    text.append(signed_decimal_string(timestamp).as_str());
    text.append(contact);
    text
}

/// Whether `signed` is a signature of `pubkey` over the UTF-8 bytes of
/// `msg`. A key or a signature of the wrong length, or one that cannot be
/// read, gives `false`.
pub fn validate_sig(pubkey: &Vec<u8>, msg: String, signed: &Vec<u8>) -> (ok: bool)
    ensures
        ok == ed25519_accepts(pubkey@, encode_utf8(msg@), signed@),
        ok ==> pubkey@.len() == 32 && signed@.len() == 64,
{
    accepts(pubkey.as_slice(), msg.as_str().as_bytes(), signed.as_slice())
}

/// What a node is to do after a decision.
#[derive(Debug)]
pub enum Action {
    /// Nothing leaves the node.
    Nothing,
    /// Write `payload`, a compressed datagram, to each of `targets`.
    Relay { targets: Vec<String>, payload: Vec<u8> },
    /// Write `message` as JSON, compress it, and write that to each of
    /// `targets`.
    Reply { targets: Vec<String>, message: Message },
}

/// What an [`Action`] holds.
pub enum ActionView {
    Nothing,
    Relay { targets: Seq<Seq<char>>, payload: Seq<u8> },
    Reply { targets: Seq<Seq<char>>, message: MessageView },
}

impl View for Action {
    type V = ActionView;

    open spec fn view(&self) -> ActionView {
        match self {
            Action::Nothing => ActionView::Nothing,
            Action::Relay { targets, payload } => ActionView::Relay {
                targets: text_views(targets@),
                payload: payload@,
            },
            Action::Reply { targets, message } => ActionView::Reply {
                targets: text_views(targets@),
                message: message@,
            },
        }
    }
}

/// Plans the flood of `buf` to every peer of `contact_list`: the bytes are
/// compressed once, and the same datagram goes to each peer in turn.
pub fn forward(contact_list: &Vec<String>, buf: &[u8]) -> (action: Action)
    ensures
        action@ == (ActionView::Relay {
            targets: text_views(contact_list@),
            payload: deflated(buf@, COMPRESSION_LEVEL),
        }),
{
    let payload = compress(buf, COMPRESSION_LEVEL);
    Action::Relay { targets: clone_texts(contact_list), payload }
}

/// A list of contacts with `contact` in it: added at the end unless it is
/// there already.
pub open spec fn with_contact(list: Seq<Seq<char>>, contact: Seq<char>) -> Seq<Seq<char>> {
    if list.contains(contact) {
        list
    } else {
        list.push(contact)
    }
}

/// A list of contacts with each of `contacts` in it, in their order, but for
/// `own`, the node's own address.
pub open spec fn with_contacts(list: Seq<Seq<char>>, own: Seq<char>, contacts: Seq<Seq<char>>)
    -> Seq<Seq<char>>
    decreases contacts.len(),
{
    if contacts.len() == 0 {
        list
    } else {
        let before = with_contacts(list, own, contacts.drop_last());
        if contacts.last() == own {
            before
        } else {
            with_contact(before, contacts.last())
        }
    }
}

/// A list of contacts with every `contact` taken out.
pub open spec fn without_contact(list: Seq<Seq<char>>, contact: Seq<char>) -> Seq<Seq<char>>
    decreases list.len(),
{
    if list.len() == 0 {
        Seq::empty()
    } else {
        let before = without_contact(list.drop_last(), contact);
        if list.last() == contact {
            before
        } else {
            before.push(list.last())
        }
    }
}

/// Whether no contact stands twice in the list.
pub open spec fn distinct(list: Seq<Seq<char>>) -> bool {
    forall|i: int, j: int| 0 <= i < j < list.len() ==> list[i] != list[j]
}

/// The replay window cut down to its newest `TTL` signatures.
pub open spec fn trimmed(window: Seq<Seq<u8>>) -> Seq<Seq<u8>> {
    if window.len() > TTL {
        window.subrange(window.len() - TTL, window.len() as int)
    } else {
        window
    }
}

/// The replay window after `signed` was seen.
pub open spec fn remembered(window: Seq<Seq<u8>>, signed: Seq<u8>) -> Seq<Seq<u8>> {
    trimmed(window.push(signed))
}

/// Whether a message made at `timestamp` is stale at `now`.
pub open spec fn stale(timestamp: i64, now: i64) -> bool {
    timestamp + TTL < now
}

pub(crate) fn has_text(list: &Vec<String>, text: &str) -> (found: bool)
    ensures
        found == text_views(list@).contains(text@),
{
    let mut i: usize = 0;
    while i < list.len()
        invariant
            i <= list.len(),
            forall|j: int| 0 <= j < i ==> text_views(list@)[j] != text@,
        decreases list.len() - i,
    {
        if same_text(list[i].as_str(), text) {
            assert(text_views(list@)[i as int] == text@);
            return true;
        }
        i += 1;
    }
    false
}

pub(crate) fn same_bytes(a: &Vec<u8>, b: &Vec<u8>) -> (same: bool)
    ensures
        same == (a@ == b@),
{
    if a.len() != b.len() {
        return false;
    }
    let mut i: usize = 0;
    while i < a.len()
        invariant
            i <= a.len(),
            a.len() == b.len(),
            forall|j: int| 0 <= j < i ==> a@[j] == b@[j],
        decreases a.len() - i,
    {
        if a[i] != b[i] {
            return false;
        }
        i += 1;
    }
    assert(a@ =~= b@);
    true
}

pub(crate) fn has_bytes(list: &Vec<Vec<u8>>, bytes: &Vec<u8>) -> (found: bool)
    ensures
        found == bytes_views(list@).contains(bytes@),
{
    let mut i: usize = 0;
    while i < list.len()
        invariant
            i <= list.len(),
            forall|j: int| 0 <= j < i ==> bytes_views(list@)[j] != bytes@,
        decreases list.len() - i,
    {
        if same_bytes(&list[i], bytes) {
            assert(bytes_views(list@)[i as int] == bytes@);
            return true;
        }
        i += 1;
    }
    false
}

pub(crate) fn texts_without(list: &Vec<String>, text: &str) -> (rest: Vec<String>)
    ensures
        text_views(rest@) == without_contact(text_views(list@), text@),
{
    let mut rest: Vec<String> = Vec::new();
    let mut i: usize = 0;
    while i < list.len()
        invariant
            i <= list.len(),
            text_views(rest@) == without_contact(text_views(list@).take(i as int), text@),
        decreases list.len() - i,
    {
        let ghost views = text_views(list@);
        if !same_text(list[i].as_str(), text) {
            rest.push(list[i].clone());
        }
        proof {
            assert(views.take(i + 1).drop_last() =~= views.take(i as int));
        }
        i += 1;
    }
    proof {
        assert(text_views(list@).take(list.len() as int) =~= text_views(list@));
    }
    rest
}

} // verus!
