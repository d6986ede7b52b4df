//! The client: the node's own messages, and the commands that ask for
//! them.

use vstd::prelude::*;
use vstd::slice::slice_subrange;
use vstd::utf8::encode_utf8;
use crate::block::{BlockView, DataPoint, DataPointView};
use crate::blockchain::Chain;
use crate::clock::unix_now;
use crate::deflate::deflated;
use crate::p2p::{
    boot_nodes, clone_bytes, forward, none_bytes, none_marker, same_text, signing_preimage,
    signing_text, text_views, Action, ActionView, Message, MessageView, COMPRESSION_LEVEL,
};
use crate::signature::{ed25519_signature, sign};

verus! {

/// An Ed25519 key pair as its bytes: 32 of the secret key, 32 of the public
/// key.
#[derive(Debug)]
pub struct Keypair {
    pub secret: Vec<u8>,
    pub public: Vec<u8>,
}

impl Clone for Keypair {
    fn clone(&self) -> (res: Self)
        ensures
            res.secret@ == self.secret@,
            res.public@ == self.public@,
    {
        Keypair { secret: clone_bytes(&self.secret), public: clone_bytes(&self.public) }
    }
}

impl Keypair {
    /// The pair as one run of bytes, the secret key first.
    pub open spec fn bytes(&self) -> Seq<u8> {
        self.secret@ + self.public@
    }

    /// The pair as one run of bytes, the secret key first.
    pub fn to_bytes(&self) -> (bytes: Vec<u8>)
        ensures
            bytes@ == self.bytes(),
    {
        let mut bytes = clone_bytes(&self.secret);
        let mut public = clone_bytes(&self.public);
        bytes.append(&mut public);
        bytes
    }
}

/// An unsigned request: the signature is the bytes of `NONE`, and it carries
/// nothing.
pub open spec fn request_view(
    destiny: Seq<char>,
    pubkey: Seq<u8>,
    timestamp: i64,
    contact: Seq<char>,
) -> MessageView {
    MessageView {
        destiny,
        pubkey,
        signed: none_bytes(),
        data: Seq::empty(),
        blocks: Seq::empty(),
        contacts: Seq::empty(),
        timestamp,
        contact,
    }
}

/// A `create-transaction` message for one transfer.
pub open spec fn transaction_view(
    pubkey: Seq<u8>,
    signed: Seq<u8>,
    data: DataPointView,
    timestamp: i64,
    contact: Seq<char>,
) -> MessageView {
    MessageView {
        destiny: "create-transaction"@,
        pubkey,
        signed,
        data: seq![data],
        blocks: Seq::empty(),
        contacts: Seq::empty(),
        timestamp,
        contact,
    }
}

/// The token that follows the last `key` of a command line, or the empty
/// text where no `key` is followed by a token.
pub open spec fn value_after(tokens: Seq<Seq<char>>, key: Seq<char>) -> Seq<char>
    decreases tokens.len(),
{
    if tokens.len() < 2 {
        Seq::empty()
    } else if tokens[tokens.len() - 2] == key {
        tokens.last()
    } else {
        value_after(tokens.drop_last(), key)
    }
}

/// Whether a command line ends in a keyword that nothing follows.
pub open spec fn dangling(tokens: Seq<Seq<char>>) -> bool {
    tokens.len() > 0 && (tokens.last() == "amm"@ || tokens.last() == "to"@)
}

/// The views of the tokens of a command line.
pub open spec fn token_views(tokens: Seq<&str>) -> Seq<Seq<char>> {
    tokens.map_values(|t: &str| t@)
}

/// What a `new-trans` command asks for: the amount as it was typed, and the
/// receiver.
#[derive(Debug)]
pub struct Order {
    pub amount: String,
    pub to: String,
}

/// A command of the node's operator.
#[derive(Debug)]
pub enum Command {
    /// `new-trans`, with what it asks for.
    NewTrans(Order),
    /// `new-trans` with a keyword that nothing follows.
    Malformed,
    GetChain,
    GetContacts,
    /// A first token that names no command.
    Invalid(String),
    /// A line without a token.
    Empty,
}

/// What the client keeps: the state that it shares with the listener, and
/// the key pair that it signs with.
#[derive(Debug)]
pub struct Client {
    pub contact_list: Vec<String>,
    pub banned_list: Vec<Vec<u8>>,
    pub chain: Chain,
    pub keypair: Keypair,
    /// The address that this node listens on; empty until the listener is
    /// bound.
    pub contact: String,
}

impl Client {
    /// The state of a node at its start: a boot node knows no peer, any
    /// other node knows the boot nodes; nobody is banned, the chain is the
    /// genesis block alone, and the node's own address is not known yet.
    pub fn new(keypair: Keypair, boot_node: bool) -> (client: Client)
        ensures
            text_views(client.contact_list@) == if boot_node {
                Seq::<Seq<char>>::empty()
            } else {
                seq!["127.0.0.1:60000"@]
            },
            client.banned_list@.len() == 0,
            client.chain@.blocks == seq![crate::block::genesis_view()],
            client.chain@.data_buffer.len() == 0,
            client.chain@.wf(),
            client.keypair == keypair,
            client.contact@.len() == 0,
    {
        let contact_list = if boot_node {
            Vec::new()
        } else {
            boot_nodes()
        };
        Client {
            contact_list,
            banned_list: Vec::new(),
            keypair,
            chain: Chain::new(),
            contact: String::new(),
        }
    }

    /// Reads the arguments of `new-trans`: the token after the last `amm` is
    /// the amount, the token after the last `to` the receiver, in whatever
    /// order they stand; one that is missing is empty. `None` where the line
    /// ends in a keyword.
    pub fn parse_transaction(splitted: &[&str]) -> (order: Option<Order>)
        ensures
            match order {
                Some(o) => {
                    &&& !dangling(token_views(splitted@))
                    &&& o.amount@ == value_after(token_views(splitted@), "amm"@)
                    &&& o.to@ == value_after(token_views(splitted@), "to"@)
                },
                None => dangling(token_views(splitted@)),
            },
    {
        let ghost tokens = token_views(splitted@);
        let len = splitted.len();
        if len == 0 {
            return Some(Order { amount: String::new(), to: String::new() });
        }
        if same_text(splitted[len - 1], "amm") || same_text(splitted[len - 1], "to") {
            return None;
        }
        let mut amount = String::new();
        let mut to = String::new();
        let mut i: usize = 0;
        while i + 1 < len
            invariant
                0 < len == splitted@.len(),
                i + 1 <= len,
                tokens == token_views(splitted@),
                amount@ == value_after(tokens.take(i + 1), "amm"@),
                to@ == value_after(tokens.take(i + 1), "to"@),
            decreases len - i,
        {
            proof {
                reveal_strlit("amm");
                reveal_strlit("to");
                assert("amm"@.len() != "to"@.len());
                assert(tokens.take(i + 2).drop_last() =~= tokens.take(i + 1));
            }
            if same_text(splitted[i], "amm") {
                amount = splitted[i + 1].to_owned();
            } else if same_text(splitted[i], "to") {
                to = splitted[i + 1].to_owned();
            }
            i += 1;
        }
        proof {
            assert(tokens.take(len as int) =~= tokens);
        }
        Some(Order { amount, to })
    }

    /// Reads a command line that was split at white space.
    pub fn command(splitted: &[&str]) -> (command: Command)
        ensures
            match command {
                Command::Empty => splitted@.len() == 0,
                Command::NewTrans(o) => {
                    &&& splitted@.len() > 0
                    &&& splitted@[0]@ == "new-trans"@
                    &&& !dangling(token_views(splitted@).drop_first())
                    &&& o.amount@ == value_after(token_views(splitted@).drop_first(), "amm"@)
                    &&& o.to@ == value_after(token_views(splitted@).drop_first(), "to"@)
                },
                Command::Malformed => {
                    &&& splitted@.len() > 0
                    &&& splitted@[0]@ == "new-trans"@
                    &&& dangling(token_views(splitted@).drop_first())
                },
                Command::GetChain => {
                    &&& splitted@.len() > 0
                    &&& splitted@[0]@ != "new-trans"@
                    &&& splitted@[0]@ == "get-chain"@
                },
                Command::GetContacts => {
                    &&& splitted@.len() > 0
                    &&& splitted@[0]@ != "new-trans"@
                    &&& splitted@[0]@ != "get-chain"@
                    &&& splitted@[0]@ == "get-contacts"@
                },
                Command::Invalid(word) => {
                    &&& splitted@.len() > 0
                    &&& splitted@[0]@ != "new-trans"@
                    &&& splitted@[0]@ != "get-chain"@
                    &&& splitted@[0]@ != "get-contacts"@
                    &&& word@ == splitted@[0]@
                },
            },
    {
        if splitted.len() == 0 {
            return Command::Empty;
        }
        if same_text(splitted[0], "new-trans") {
            let rest = slice_subrange(splitted, 1, splitted.len());
            assert(token_views(rest@) =~= token_views(splitted@).drop_first());
            match Client::parse_transaction(rest) {
                Some(order) => Command::NewTrans(order),
                None => Command::Malformed,
            }
        } else if same_text(splitted[0], "get-chain") {
            Command::GetChain
        } else if same_text(splitted[0], "get-contacts") {
            Command::GetContacts
        } else {
            Command::Invalid(splitted[0].to_owned())
        }
    }

    /// Puts a signature and what it covers together into a
    /// `create-transaction` message.
    pub fn transaction_message(
        pubkey: Vec<u8>,
        signed: Vec<u8>,
        data: DataPoint,
        timestamp: i64,
        contact: String,
    ) -> (message: Message)
        ensures
            message@ == transaction_view(pubkey@, signed@, data@, timestamp, contact@),
    {
        let mut transfers: Vec<DataPoint> = Vec::new();
        transfers.push(data);
        let message = Message {
            destiny: "create-transaction".to_owned(),
            pubkey,
            signed,
            data: transfers,
            blocks: Vec::new(),
            contacts: Vec::new(),
            timestamp,
            contact,
        };
        assert(message@.data =~= seq![data@]);
        assert(message@.blocks =~= Seq::<BlockView>::empty());
        assert(message@.contacts =~= Seq::<Seq<char>>::empty());
        message
    }

    /// Makes the `create-transaction` message for `data` at `now`, signed
    /// with the client's key pair over the signing text of `data` as it is
    /// handed in. `None` where the key pair's bytes are no key pair.
    pub fn create_transaction_at(&self, data: DataPoint, now: i64) -> (message: Option<Message>)
        ensures
            match ed25519_signature(
                self.keypair.bytes(),
                encode_utf8(signing_text(data@, now, self.contact@)),
            ) {
                Some(signed) => message is Some && message->0@ == transaction_view(
                    self.keypair.public@,
                    signed,
                    data@,
                    now,
                    self.contact@,
                ),
                None => message is None,
            },
    {
        let text = signing_preimage(&data, now, self.contact.as_str());
        let pair = self.keypair.to_bytes();
        match sign(pair.as_slice(), text.as_str().as_bytes()) {
            Some(signed) => Some(
                Client::transaction_message(
                    clone_bytes(&self.keypair.public),
                    signed,
                    data,
                    now,
                    self.contact.clone(),
                ),
            ),
            None => None,
        }
    }

    /// As [`Client::create_transaction_at`], at the clock's time, which the
    /// message carries.
    pub fn create_transaction(&self, data: DataPoint) -> (message: Option<Message>)
        ensures
            match message {
                Some(m) => ed25519_signature(
                    self.keypair.bytes(),
                    encode_utf8(signing_text(data@, m.timestamp, self.contact@)),
                ) == Some(m.signed@) && m@ == transaction_view(
                    self.keypair.public@,
                    m.signed@,
                    data@,
                    m.timestamp,
                    self.contact@,
                ),
                None => exists|now: i64| #[trigger]
                    ed25519_signature(
                        self.keypair.bytes(),
                        encode_utf8(signing_text(data@, now, self.contact@)),
                    ) is None,
            },
    {
        let now = unix_now();
        let message = self.create_transaction_at(data, now);
        proof {
            if message is None {
                assert(ed25519_signature(
                    self.keypair.bytes(),
                    encode_utf8(signing_text(data@, now, self.contact@)),
                ) is None);
            }
        }
        message
    }

    /// Plans the flood of `buf` to every contact.
    pub fn send_all(&self, buf: &[u8]) -> (action: Action)
        ensures
            action@ == (ActionView::Relay {
                targets: text_views(self.contact_list@),
                payload: deflated(buf@, COMPRESSION_LEVEL),
            }),
    {
        forward(&self.contact_list, buf)
    }

    fn request(&self, destiny: &str, now: i64) -> (message: Message)
        ensures
            message@ == request_view(destiny@, self.keypair.public@, now, self.contact@),
    {
        let message = Message {
            destiny: destiny.to_owned(),
            pubkey: clone_bytes(&self.keypair.public),
            signed: none_marker(),
            data: Vec::new(),
            blocks: Vec::new(),
            contacts: Vec::new(),
            timestamp: now,
            contact: self.contact.clone(),
        };
        assert(message@.data =~= Seq::<DataPointView>::empty());
        assert(message@.blocks =~= Seq::<BlockView>::empty());
        assert(message@.contacts =~= Seq::<Seq<char>>::empty());
        message
    }

    /// Makes the `get-chain` request of `now`.
    pub fn get_chain_at(&self, now: i64) -> (message: Message)
        ensures
            message@ == request_view("get-chain"@, self.keypair.public@, now, self.contact@),
    {
        self.request("get-chain", now)
    }

    /// Makes the `get-chain` request of the clock's time.
    pub fn get_chain(&self) -> (message: Message)
        ensures
            message@ == request_view(
                "get-chain"@,
                self.keypair.public@,
                message.timestamp,
                self.contact@,
            ),
    {
        self.get_chain_at(unix_now())
    }

    /// Makes the `get-contacts` request of `now`.
    pub fn get_contacts_at(&self, now: i64) -> (message: Message)
        ensures
            message@ == request_view("get-contacts"@, self.keypair.public@, now, self.contact@),
    {
        self.request("get-contacts", now)
    }

    /// Makes the `get-contacts` request of the clock's time.
    pub fn get_contacts(&self) -> (message: Message)
        ensures
            message@ == request_view(
                "get-contacts"@,
                self.keypair.public@,
                message.timestamp,
                self.contact@,
            ),
    {
        self.get_contacts_at(unix_now())
    }
}

} // verus!
