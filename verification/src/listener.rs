//! The listener: what each received message does to the node's state, and
//! what the node is to send then.

use vstd::prelude::*;
use vstd::utf8::encode_utf8;
use crate::block::{Block, BlockView, DataPointView};
use crate::blockchain::{block_views, Chain, ChainView};
use crate::clock::unix_now;
use crate::deflate::{decompress, deflated, inflated};
use crate::digest::{hex_encode, hex_of};
use crate::frame::{
    find_zero_run, first_zero_run, framed, is_first_cut, lemma_first_cut_unique, strip_trailing,
};
use crate::p2p::{
    bytes_views, clone_texts, destiny_of, distinct, forward, has_bytes, has_text, none_bytes,
    none_marker, remembered, same_text, signing_preimage, signing_text, stale, text_views,
    texts_without, trimmed, validate_sig, with_contact, with_contacts, without_contact, Action,
    ActionView, Destiny, Message, MessageView, COMPRESSION_LEVEL, TTL, VALIDATOR,
};
use crate::signature::ed25519_accepts;

verus! {

/// What the listener keeps between messages.
#[derive(Debug)]
pub struct Listener {
    /// The peers that the node floods to. No address stands twice.
    pub contact_list: Vec<String>,
    /// The public keys whose messages are dropped on sight.
    pub banned_list: Vec<Vec<u8>>,
    pub chain: Chain,
    /// The signatures of the last `TTL` messages that were taken in, oldest
    /// first.
    pub processed: Vec<Vec<u8>>,
    /// The address that this node listens on.
    pub contact: String,
}

/// What a [`Listener`] holds.
pub struct ListenerView {
    pub contact_list: Seq<Seq<char>>,
    pub banned_list: Seq<Seq<u8>>,
    pub chain: ChainView,
    pub processed: Seq<Seq<u8>>,
    pub contact: Seq<char>,
}

impl View for Listener {
    type V = ListenerView;

    open spec fn view(&self) -> ListenerView {
        ListenerView {
            contact_list: text_views(self.contact_list@),
            banned_list: bytes_views(self.banned_list@),
            chain: self.chain@,
            processed: bytes_views(self.processed@),
            contact: self.contact@,
        }
    }
}

/// An unsigned message that answers a request: key and signature are the
/// bytes of `NONE`, and it carries no transfers.
pub open spec fn reply_view(
    destiny: Seq<char>,
    blocks: Seq<BlockView>,
    contacts: Seq<Seq<char>>,
    timestamp: i64,
    contact: Seq<char>,
) -> MessageView {
    MessageView {
        destiny,
        pubkey: none_bytes(),
        signed: none_bytes(),
        data: Seq::empty(),
        blocks,
        contacts,
        timestamp,
        contact,
    }
}

impl MessageView {
    /// Whether the message's signature is one of its key over the signing
    /// text of its first transfer.
    pub open spec fn signature_ok(self) -> bool {
        ed25519_accepts(
            self.pubkey,
            encode_utf8(signing_text(self.data[0], self.timestamp, self.contact)),
            self.signed,
        )
    }
}

impl ListenerView {
    /// Whether the message is dropped before its kind is looked at: its key
    /// is banned, or it is stale.
    pub open spec fn ignores(self, msg: MessageView, now: i64) -> bool {
        self.banned_list.contains(msg.pubkey) || stale(msg.timestamp, now)
    }

    /// The state with `signed` in the replay window.
    pub open spec fn remembering(self, signed: Seq<u8>) -> ListenerView {
        ListenerView { processed: remembered(self.processed, signed), ..self }
    }

    /// Whether a `create-transaction` message is turned away: it carries no
    /// transfer, its signature does not hold, or its signature is in the
    /// replay window.
    pub open spec fn rejects_transaction(self, msg: MessageView, sig_ok: bool) -> bool {
        msg.data.len() == 0 || !sig_ok || self.processed.contains(msg.signed)
    }

    /// A `create-transaction` that is not turned away: the sender becomes a
    /// contact; a validator with a chain to build on takes the first transfer
    /// in for the hex form of the signer's key; the received bytes go on to
    /// every contact but the sender.
    pub open spec fn on_create_transaction(self, msg: MessageView, raw: Seq<u8>, stamp: i64) -> (
        ListenerView,
        ActionView,
    ) {
        let contacts = with_contact(self.contact_list, msg.contact);
        let chain = if VALIDATOR && self.chain.blocks.len() > 0 {
            self.chain.after_add(hex_of(msg.pubkey), msg.data[0], stamp)
        } else {
            self.chain
        };
        (
            (ListenerView { contact_list: contacts, chain, ..self }).remembering(msg.signed),
            ActionView::Relay {
                targets: without_contact(contacts, msg.contact),
                payload: deflated(raw, COMPRESSION_LEVEL),
            },
        )
    }

    /// A `get-chain`: the sender becomes a contact, and the blocks go out to
    /// every contact but this node itself.
    pub open spec fn on_get_chain(self, msg: MessageView, now: i64) -> (ListenerView, ActionView) {
        let contacts = with_contact(self.contact_list, msg.contact);
        (
            (ListenerView { contact_list: contacts, ..self }).remembering(msg.signed),
            ActionView::Reply {
                targets: without_contact(contacts, self.contact),
                message: reply_view(
                    "give-chain"@,
                    self.chain.blocks,
                    Seq::empty(),
                    now,
                    self.contact,
                ),
            },
        )
    }

    /// A `give-chain` from a known contact: where every block that it
    /// carries is valid, those blocks become the chain, with an empty buffer;
    /// otherwise the sender's key is banned.
    pub open spec fn on_give_chain(self, msg: MessageView) -> (ListenerView, ActionView) {
        let received = ChainView { blocks: msg.blocks, data_buffer: Seq::empty() };
        let next = if received.all_valid() {
            ListenerView { chain: received, ..self }
        } else {
            ListenerView { banned_list: self.banned_list.push(msg.pubkey), ..self }
        };
        (next.remembering(msg.signed), ActionView::Nothing)
    }

    /// A `get-contacts`: the sender becomes a contact, and the contacts go
    /// out to every contact but this node itself.
    pub open spec fn on_get_contacts(self, msg: MessageView, now: i64) -> (
        ListenerView,
        ActionView,
    ) {
        let contacts = with_contact(self.contact_list, msg.contact);
        (
            (ListenerView { contact_list: contacts, ..self }).remembering(msg.signed),
            ActionView::Reply {
                targets: without_contact(contacts, self.contact),
                message: reply_view(
                    "give-contacts"@,
                    Seq::empty(),
                    contacts,
                    now,
                    self.contact,
                ),
            },
        )
    }

    /// A `give-contacts`: each address that it carries becomes a contact,
    /// but for this node's own.
    pub open spec fn on_give_contacts(self, msg: MessageView) -> (ListenerView, ActionView) {
        let contacts = with_contacts(self.contact_list, self.contact, msg.contacts);
        (
            (ListenerView { contact_list: contacts, ..self }).remembering(msg.signed),
            ActionView::Nothing,
        )
    }

    /// What one message does to the listener, and what the node is to do
    /// then. `raw` is the message as it was received, before it was read as
    /// JSON; `sig_ok` says whether its signature holds; `stamp` is the time
    /// that a block mined for it is stamped with.
    ///
    /// A message that is dropped leaves the state as it was, replay window
    /// included, and asks for nothing.
    pub open spec fn step(self, msg: MessageView, raw: Seq<u8>, now: i64, sig_ok: bool, stamp: i64)
        -> (ListenerView, ActionView) {
        if self.ignores(msg, now) {
            (self, ActionView::Nothing)
        } else {
            match destiny_of(msg.destiny) {
                Destiny::CreateTransaction => if self.rejects_transaction(msg, sig_ok) {
                    (self, ActionView::Nothing)
                } else {
                    self.on_create_transaction(msg, raw, stamp)
                },
                Destiny::GetChain => self.on_get_chain(msg, now),
                Destiny::GiveChain => if self.contact_list.contains(msg.contact) {
                    self.on_give_chain(msg)
                } else {
                    (self, ActionView::Nothing)
                },
                Destiny::GetContacts => self.on_get_contacts(msg, now),
                Destiny::GiveContacts => self.on_give_contacts(msg),
                Destiny::Unknown => (self, ActionView::Nothing),
            }
        }
    }
}

impl Listener {
    /// A listener that has seen no message yet.
    pub fn new(
        contact_list: Vec<String>,
        banned_list: Vec<Vec<u8>>,
        chain: Chain,
        contact: String,
    ) -> (listener: Listener)
        ensures
            listener@ == (ListenerView {
                contact_list: text_views(contact_list@),
                banned_list: bytes_views(banned_list@),
                chain: chain@,
                processed: Seq::empty(),
                contact: contact@,
            }),
    {
        let listener = Listener { contact_list, banned_list, processed: Vec::new(), chain, contact };
        assert(listener@.processed =~= Seq::<Seq<u8>>::empty());
        listener
    }

    /// Plans the answer to a `get-chain`: a `give-chain` message that
    /// carries `blocks` and names `contact` as its sender, for every peer but
    /// `contact`.
    pub fn give_chain_at(&self, blocks: Vec<Block>, contact: String, now: i64) -> (action: Action)
        ensures
            action@ == (ActionView::Reply {
                targets: without_contact(self@.contact_list, contact@),
                message: reply_view(
                    "give-chain"@,
                    block_views(blocks@),
                    Seq::empty(),
                    now,
                    contact@,
                ),
            }),
    {
        let targets = texts_without(&self.contact_list, contact.as_str());
        let message = Message {
            destiny: "give-chain".to_owned(),
            pubkey: none_marker(),
            data: Vec::new(),
            blocks,
            contacts: Vec::new(),
            signed: none_marker(),
            timestamp: now,
            contact,
        };
        assert(message@.data =~= Seq::<DataPointView>::empty());
        assert(message@.contacts =~= Seq::<Seq<char>>::empty());
        Action::Reply { targets, message }
    }

    /// As [`Listener::give_chain_at`], at the clock's time.
    pub fn give_chain(&self, blocks: Vec<Block>, contact: String) -> (action: Action)
        ensures
            action@ matches ActionView::Reply { targets, message } && action@ == (
            ActionView::Reply {
                targets: without_contact(self@.contact_list, contact@),
                message: reply_view(
                    "give-chain"@,
                    block_views(blocks@),
                    Seq::empty(),
                    message.timestamp,
                    contact@,
                ),
            }),
    {
        self.give_chain_at(blocks, contact, unix_now())
    }

    /// Plans the answer to a `get-contacts`: a `give-contacts` message that
    /// carries `contacts` and names `contact` as its sender, for every peer
    /// but `contact`.
    pub fn give_contacts_at(&self, contacts: Vec<String>, contact: String, now: i64) -> (action:
        Action)
        ensures
            action@ == (ActionView::Reply {
                targets: without_contact(self@.contact_list, contact@),
                message: reply_view(
                    "give-contacts"@,
                    Seq::empty(),
                    text_views(contacts@),
                    now,
                    contact@,
                ),
            }),
    {
        let targets = texts_without(&self.contact_list, contact.as_str());
        let message = Message {
            destiny: "give-contacts".to_owned(),
            pubkey: none_marker(),
            data: Vec::new(),
            blocks: Vec::new(),
            contacts,
            signed: none_marker(),
            timestamp: now,
            contact,
        };
        assert(message@.data =~= Seq::<DataPointView>::empty());
        assert(message@.blocks =~= Seq::<BlockView>::empty());
        Action::Reply { targets, message }
    }

    /// As [`Listener::give_contacts_at`], at the clock's time.
    pub fn give_contacts(&self, contacts: Vec<String>, contact: String) -> (action: Action)
        ensures
            action@ matches ActionView::Reply { targets, message } && action@ == (
            ActionView::Reply {
                targets: without_contact(self@.contact_list, contact@),
                message: reply_view(
                    "give-contacts"@,
                    Seq::empty(),
                    text_views(contacts@),
                    message.timestamp,
                    contact@,
                ),
            }),
    {
        self.give_contacts_at(contacts, contact, unix_now())
    }

    /// Makes `contact` a contact, unless it is one already.
    pub fn add_contact(&mut self, contact: String)
        ensures
            final(self)@ == (ListenerView {
                contact_list: with_contact(old(self)@.contact_list, contact@),
                ..old(self)@
            }),
    {
        if !has_text(&self.contact_list, contact.as_str()) {
            self.contact_list.push(contact);
            assert(self@.contact_list =~= old(self)@.contact_list.push(contact@));
        }
    }

    /// Makes each of `contacts` a contact, but for this node's own address.
    pub fn add_contacts(&mut self, contacts: Vec<String>)
        ensures
            final(self)@ == (ListenerView {
                contact_list: with_contacts(
                    old(self)@.contact_list,
                    old(self)@.contact,
                    text_views(contacts@),
                ),
                ..old(self)@
            }),
    {
        let ghost all = text_views(contacts@);
        let mut i: usize = 0;
        while i < contacts.len()
            invariant
                i <= contacts.len(),
                all == text_views(contacts@),
                self@ == (ListenerView {
                    contact_list: with_contacts(
                        old(self)@.contact_list,
                        old(self)@.contact,
                        all.take(i as int),
                    ),
                    ..old(self)@
                }),
            decreases contacts.len() - i,
        {
            proof {
                assert(all.take(i + 1).drop_last() =~= all.take(i as int));
            }
            if !same_text(contacts[i].as_str(), self.contact.as_str()) {
                self.add_contact(contacts[i].clone());
            }
            i += 1;
        }
        proof {
            assert(all.take(contacts.len() as int) =~= all);
        }
    }

    /// Whether `pubkey` is banned.
    pub fn banned(&self, pubkey: &Vec<u8>) -> (is: bool)
        ensures
            is == self@.banned_list.contains(pubkey@),
    {
        has_bytes(&self.banned_list, pubkey)
    }

    /// Whether a message made at `timestamp` is stale at `now`: older than
    /// `TTL` seconds.
    pub fn expired(timestamp: i64, now: i64) -> (is: bool)
        ensures
            is == stale(timestamp, now),
    {
        (timestamp as i128) + (TTL as i128) < (now as i128)
    }

    /// Whether a message made at `timestamp` is stale by the clock. The
    /// answer says what the clock read when it is put beside
    /// [`Listener::expired`].
    pub fn invalid_timestamp(&self, timestamp: i64) -> (is: bool)
        ensures
            exists|now: i64| is == #[trigger] stale(timestamp, now),
    {
        Listener::expired(timestamp, unix_now())
    }

    /// Bans `pubkey`.
    pub fn ban(&mut self, pubkey: Vec<u8>)
        ensures
            final(self)@ == (ListenerView {
                banned_list: old(self)@.banned_list.push(pubkey@),
                ..old(self)@
            }),
    {
        self.banned_list.push(pubkey);
        assert(self@.banned_list =~= old(self)@.banned_list.push(pubkey@));
    }

    /// Cuts the replay window down to its newest `TTL` signatures.
    pub fn cleanup(&mut self)
        ensures
            final(self)@ == (ListenerView {
                processed: trimmed(old(self)@.processed),
                ..old(self)@
            }),
    {
        let ghost all = self@.processed;
        let ghost mut dropped: int = 0;
        assert(all.subrange(0, all.len() as int) =~= all);
        while self.processed.len() > TTL
            invariant
                0 <= dropped <= all.len(),
                all == old(self)@.processed,
                all.len() <= TTL ==> dropped == 0,
                all.len() > TTL ==> dropped <= all.len() - TTL,
                self@ == (ListenerView {
                    processed: all.subrange(dropped, all.len() as int),
                    ..old(self)@
                }),
            decreases self.processed.len(),
        {
            let ghost before = self@.processed;
            self.processed.remove(0);
            proof {
                assert(self@.processed =~= before.remove(0));
                assert(before.remove(0) =~= all.subrange(dropped + 1, all.len() as int));
                dropped = dropped + 1;
            }
        }
        assert(self@.processed.len() == all.len() - dropped);
    }

    /// Reads the message out of a buffer that one connection was read into:
    /// its bytes as they were before they were compressed.
    pub fn get_message(buf: &[u8]) -> (message: Option<Vec<u8>>)
        ensures
            match message {
                Some(bytes) => framed(buf@) == Some(bytes@),
                None => framed(buf@) is None,
            },
    {
        let len = buf.len();
        match find_zero_run(buf) {
            Some(start) => {
                let mut trail: usize = 0;
                while trail <= len - start
                    invariant
                        len == buf@.len(),
                        first_zero_run(buf@) == Some(start as int),
                        start + 3 <= len,
                        forall|c: int|
                            start <= c < start + trail ==> inflated(
                                #[trigger] buf@.subrange(0, c),
                            ) is None,
                    decreases len - start + 1 - trail,
                {
                    let stripped = strip_trailing(buf, trail);
                    match decompress(stripped) {
                        Some(bytes) => {
                            proof {
                                lemma_first_cut_unique(buf@, start as int, start + trail);
                            }
                            return Some(bytes);
                        },
                        None => {},
                    }
                    if trail == len - start {
                        return None;
                    }
                    trail += 1;
                }
                None
            },
            None => None,
        }
    }

    /// Takes `signed` into the replay window, and cuts the window down to
    /// its newest `TTL` signatures.
    pub fn remember(&mut self, signed: Vec<u8>)
        ensures
            final(self)@ == old(self)@.remembering(signed@),
    {
        self.processed.push(signed);
        assert(self@.processed =~= old(self)@.processed.push(signed@));
        self.cleanup();
    }

    /// Decides what one message does, given whether its signature holds.
    /// `raw` is the message as it was received, before it was read as JSON,
    /// and `now` the time by which staleness is judged and replies are
    /// dated. A block that is mined for the message carries the clock's time
    /// after mining.
    pub fn apply(&mut self, msg: Message, raw: &[u8], now: i64, sig_ok: bool) -> (action: Action)
        ensures
            (final(self)@, action@) == old(self)@.step(
                msg@,
                raw@,
                now,
                sig_ok,
                final(self)@.chain.blocks[0].timestamp,
            ),
    {
        if self.banned(&msg.pubkey) || Listener::expired(msg.timestamp, now) {
            return Action::Nothing;
        }
        match Destiny::parse(msg.destiny.as_str()) {
            Destiny::CreateTransaction => {
                if msg.data.len() == 0 || !sig_ok || has_bytes(&self.processed, &msg.signed) {
                    return Action::Nothing;
                }
                self.add_contact(msg.contact.clone());
                if VALIDATOR && self.chain.len() > 0 {
                    let from = hex_encode(msg.pubkey.as_slice());
                    self.chain.add_data(from, msg.data[0].clone());
                }
                let action = self.forward(raw, msg.contact);
                self.remember(msg.signed);
                action
            },
            Destiny::GetChain => {
                self.add_contact(msg.contact);
                let blocks = self.chain.to_vec();
                let action = self.give_chain_at(blocks, self.contact.clone(), now);
                self.remember(msg.signed);
                action
            },
            Destiny::GiveChain => {
                if !has_text(&self.contact_list, msg.contact.as_str()) {
                    return Action::Nothing;
                }
                let mut received = Chain::from_vec(msg.blocks);
                if received.verify() {
                    self.chain = received;
                } else {
                    self.ban(msg.pubkey);
                }
                self.remember(msg.signed);
                Action::Nothing
            },
            Destiny::GetContacts => {
                self.add_contact(msg.contact);
                let contacts = clone_texts(&self.contact_list);
                let action = self.give_contacts_at(contacts, self.contact.clone(), now);
                self.remember(msg.signed);
                action
            },
            Destiny::GiveContacts => {
                self.add_contacts(msg.contacts);
                self.remember(msg.signed);
                Action::Nothing
            },
            Destiny::Unknown => Action::Nothing,
        }
    }

    /// Decides what one message does at `now`: as [`Listener::apply`], with
    /// the signature of a `create-transaction` checked against the signing
    /// text of its first transfer.
    pub fn handle_at(&mut self, msg: Message, raw: &[u8], now: i64) -> (action: Action)
        ensures
            (final(self)@, action@) == old(self)@.step(
                msg@,
                raw@,
                now,
                msg@.signature_ok(),
                final(self)@.chain.blocks[0].timestamp,
            ),
    {
        let sig_ok = match Destiny::parse(msg.destiny.as_str()) {
            Destiny::CreateTransaction => {
                if msg.data.len() > 0 {
                    let text = signing_preimage(&msg.data[0], msg.timestamp, msg.contact.as_str());
                    validate_sig(&msg.pubkey, text, &msg.signed)
                } else {
                    false
                }
            },
            _ => false,
        };
        self.apply(msg, raw, now, sig_ok)
    }

    /// Decides what one message does, judged by the clock: as
    /// [`Listener::handle_at`] at the time that the clock gave.
    pub fn handle(&mut self, msg: Message, raw: &[u8]) -> (action: Action)
        ensures
            exists|now: i64|
                (final(self)@, action@) == #[trigger] old(self)@.step(
                    msg@,
                    raw@,
                    now,
                    msg@.signature_ok(),
                    final(self)@.chain.blocks[0].timestamp,
                ),
    {
        let now = unix_now();
        let ghost before = self@;
        let ghost m = msg@;
        let action = self.handle_at(msg, raw, now);
        assert((self@, action@) == before.step(
            m,
            raw@,
            now,
            m.signature_ok(),
            self@.chain.blocks[0].timestamp,
        ));
        action
    }

    /// Plans the flood of `buf` to every contact but `contact`.
    pub fn forward(&self, buf: &[u8], contact: String) -> (action: Action)
        ensures
            action@ == (ActionView::Relay {
                targets: without_contact(self@.contact_list, contact@),
                payload: deflated(buf@, COMPRESSION_LEVEL),
            }),
    {
        let contacts = texts_without(&self.contact_list, contact.as_str());
        forward(&contacts, buf)
    }
}

// ---------------------------------------------------------------------------
// Laws
// ---------------------------------------------------------------------------
/// The replay window never holds more than `TTL` signatures once a
/// signature was taken in, the newest is always in it, and a full window
/// gives up exactly its oldest.
pub proof fn lemma_window_bound(window: Seq<Seq<u8>>, signed: Seq<u8>)
    ensures
        remembered(window, signed).len() <= TTL,
        remembered(window, signed).last() == signed,
        remembered(window, signed).contains(signed),
        window.len() < TTL ==> remembered(window, signed) == window.push(signed),
        window.len() == TTL ==> remembered(window, signed) == window.drop_first().push(signed),
{
    let pushed = window.push(signed);
    let kept = remembered(window, signed);
    assert(kept[kept.len() - 1] == signed);
    if window.len() == TTL {
        assert(kept =~= window.drop_first().push(signed));
    }
}

/// Replay suppression: a `create-transaction` that was taken in is turned
/// away when it comes again, whatever the time, the received bytes or the
/// verdict on its signature then are. The second arrival leaves the state,
/// chain included, as the first left it, and asks for nothing.
pub proof fn lemma_replay_changes_nothing(
    state: ListenerView,
    msg: MessageView,
    raw: Seq<u8>,
    now: i64,
    sig_ok: bool,
    stamp: i64,
    raw_again: Seq<u8>,
    now_again: i64,
    sig_ok_again: bool,
    stamp_again: i64,
)
    requires
        destiny_of(msg.destiny) == Destiny::CreateTransaction,
        !state.ignores(msg, now),
        !state.rejects_transaction(msg, sig_ok),
    ensures
        state.step(msg, raw, now, sig_ok, stamp).0.step(
            msg,
            raw_again,
            now_again,
            sig_ok_again,
            stamp_again,
        ) == (state.step(msg, raw, now, sig_ok, stamp).0, ActionView::Nothing),
{
    lemma_window_bound(state.processed, msg.signed);
}

/// One arrival of a message: the bytes it came in, the time, the verdict on
/// its signature, and the time that a block mined for it is stamped with.
pub struct Arrival {
    pub raw: Seq<u8>,
    pub now: i64,
    pub sig_ok: bool,
    pub stamp: i64,
}

impl ListenerView {
    /// The state after one arrival of `msg`.
    pub open spec fn after(self, msg: MessageView, arrival: Arrival) -> ListenerView {
        self.step(msg, arrival.raw, arrival.now, arrival.sig_ok, arrival.stamp).0
    }

    /// Whether an arrival of a `create-transaction` is taken in rather than
    /// dropped.
    pub open spec fn takes_in(self, msg: MessageView, arrival: Arrival) -> bool {
        !self.ignores(msg, arrival.now) && !self.rejects_transaction(msg, arrival.sig_ok)
    }

    /// How many of a run of arrivals of the same `create-transaction` are
    /// taken in.
    pub open spec fn taken_in(self, msg: MessageView, arrivals: Seq<Arrival>) -> nat
        decreases arrivals.len(),
    {
        if arrivals.len() == 0 {
            0
        } else {
            let rest = self.after(msg, arrivals.first()).taken_in(msg, arrivals.drop_first());
            if self.takes_in(msg, arrivals.first()) {
                1 + rest
            } else {
                rest
            }
        }
    }
}

/// Loop suppression at one node: however often the same `create-transaction`
/// arrives, by whatever way and at whatever times, the node takes it in at
/// most once. So it mines for it at most once and passes it on at most once.
pub proof fn lemma_taken_in_at_most_once(
    state: ListenerView,
    msg: MessageView,
    arrivals: Seq<Arrival>,
)
    requires
        destiny_of(msg.destiny) == Destiny::CreateTransaction,
    ensures
        state.taken_in(msg, arrivals) <= 1,
        state.processed.contains(msg.signed) ==> state.taken_in(msg, arrivals) == 0,
    decreases arrivals.len(),
{
    if arrivals.len() > 0 {
        let first = arrivals.first();
        let next = state.after(msg, first);
        lemma_taken_in_at_most_once(next, msg, arrivals.drop_first());
        if state.takes_in(msg, first) {
            lemma_window_bound(state.processed, msg.signed);
            assert(next.processed.contains(msg.signed));
        } else {
            assert(next == state);
        }
    }
}

/// The replay window after a run of signatures was taken in, one after the
/// other.
pub open spec fn remembered_all(window: Seq<Seq<u8>>, signatures: Seq<Seq<u8>>) -> Seq<Seq<u8>>
    decreases signatures.len(),
{
    if signatures.len() == 0 {
        window
    } else {
        remembered(remembered_all(window, signatures.drop_last()), signatures.last())
    }
}

/// The replay window holds the newest `TTL` signatures of all that were ever
/// taken in, in their order: no more, no fewer, no others.
pub proof fn lemma_window_is_newest(window: Seq<Seq<u8>>, signatures: Seq<Seq<u8>>)
    requires
        signatures.len() > 0,
    ensures
        remembered_all(window, signatures) == trimmed(window + signatures),
    decreases signatures.len(),
{
    let before = signatures.drop_last();
    let last = signatures.last();
    assert(window + signatures =~= (window + before).push(last));
    assert(remembered_all(window, signatures) == remembered(
        remembered_all(window, before),
        last,
    ));
    if before.len() == 0 {
        assert(remembered_all(window, before) == window);
        assert(window + before =~= window);
    } else {
        lemma_window_is_newest(window, before);
        let all = window + before;
        assert(trimmed(trimmed(all).push(last)) =~= trimmed(all.push(last)));
    }
}

/// A message that is dropped changes nothing: not the chain, not the
/// contacts, not the bans, not the replay window.
pub proof fn lemma_dropped_changes_nothing(
    state: ListenerView,
    msg: MessageView,
    raw: Seq<u8>,
    now: i64,
    sig_ok: bool,
    stamp: i64,
)
    requires
        state.ignores(msg, now) || destiny_of(msg.destiny) == Destiny::Unknown || (destiny_of(
            msg.destiny,
        ) == Destiny::CreateTransaction && state.rejects_transaction(msg, sig_ok)) || (
        destiny_of(msg.destiny) == Destiny::GiveChain && !state.contact_list.contains(
            msg.contact,
        )),
    ensures
        state.step(msg, raw, now, sig_ok, stamp) == (state, ActionView::Nothing),
{
}

/// Adding a contact keeps a list without repetitions free of them.
pub proof fn lemma_with_contact_distinct(list: Seq<Seq<char>>, contact: Seq<char>)
    requires
        distinct(list),
    ensures
        distinct(with_contact(list, contact)),
        with_contact(list, contact).contains(contact),
{
    let after = with_contact(list, contact);
    if !list.contains(contact) {
        assert(after[after.len() - 1] == contact);
        assert forall|i: int, j: int| 0 <= i < j < after.len() implies after[i] != after[j] by {
            if j == list.len() {
                assert(list[i] == after[i]);
                assert(list.contains(after[i]));
            }
        }
    }
}

/// Adding several contacts keeps a list without repetitions free of them.
pub proof fn lemma_with_contacts_distinct(
    list: Seq<Seq<char>>,
    own: Seq<char>,
    contacts: Seq<Seq<char>>,
)
    requires
        distinct(list),
    ensures
        distinct(with_contacts(list, own, contacts)),
    decreases contacts.len(),
{
    if contacts.len() > 0 {
        lemma_with_contacts_distinct(list, own, contacts.drop_last());
        lemma_with_contact_distinct(
            with_contacts(list, own, contacts.drop_last()),
            contacts.last(),
        );
    }
}

/// What every step keeps: a contact list without repetitions stays so, and
/// a replay window of at most `TTL` signatures stays so. The window changes
/// in one way only: by taking the message's signature in.
pub proof fn lemma_step_keeps_lists(
    state: ListenerView,
    msg: MessageView,
    raw: Seq<u8>,
    now: i64,
    sig_ok: bool,
    stamp: i64,
)
    ensures
        distinct(state.contact_list) ==> distinct(
            state.step(msg, raw, now, sig_ok, stamp).0.contact_list,
        ),
        state.processed.len() <= TTL ==> state.step(msg, raw, now, sig_ok, stamp).0.processed.len()
            <= TTL,
        state.step(msg, raw, now, sig_ok, stamp).0.processed == state.processed || state.step(
            msg,
            raw,
            now,
            sig_ok,
            stamp,
        ).0.processed == remembered(state.processed, msg.signed),
{
    lemma_window_bound(state.processed, msg.signed);
    if distinct(state.contact_list) {
        lemma_with_contact_distinct(state.contact_list, msg.contact);
        lemma_with_contacts_distinct(state.contact_list, state.contact, msg.contacts);
    }
}

/// Nobody is sent what he sent: the targets of a flood hold no `contact`,
/// and hold every other contact of the list.
pub proof fn lemma_without_contact(list: Seq<Seq<char>>, contact: Seq<char>, other: Seq<char>)
    ensures
        !without_contact(list, contact).contains(contact),
        other != contact ==> (without_contact(list, contact).contains(other) <==> list.contains(
            other,
        )),
    decreases list.len(),
{
    if list.len() > 0 {
        let before = without_contact(list.drop_last(), contact);
        lemma_without_contact(list.drop_last(), contact, other);
        let after = without_contact(list, contact);
        if list.last() != contact {
            assert(after == before.push(list.last()));
            assert forall|i: int| 0 <= i < after.len() implies after[i] != contact by {
                if i < before.len() {
                    assert(before.contains(after[i]));
                }
            }
            if other != contact {
                if after.contains(other) {
                    let i = choose|i: int| 0 <= i < after.len() && after[i] == other;
                    if i < before.len() {
                        assert(before.contains(other));
                        let k = choose|k: int|
                            0 <= k < list.drop_last().len() && list.drop_last()[k] == other;
                        assert(list[k] == other);
                    } else {
                        assert(list[list.len() - 1] == other);
                    }
                }
                if list.contains(other) {
                    let k = choose|k: int| 0 <= k < list.len() && list[k] == other;
                    if k < list.len() - 1 {
                        assert(list.drop_last()[k] == other);
                        assert(list.drop_last().contains(other));
                        let i = choose|i: int| 0 <= i < before.len() && before[i] == other;
                        assert(after[i] == other);
                    } else {
                        assert(after[after.len() - 1] == other);
                    }
                }
            }
        } else {
            if other != contact {
                if list.contains(other) {
                    let k = choose|k: int| 0 <= k < list.len() && list[k] == other;
                    assert(list.drop_last()[k] == other);
                    assert(list.drop_last().contains(other));
                }
                if before.contains(other) {
                    let k = choose|k: int|
                        0 <= k < list.drop_last().len() && list.drop_last()[k] == other;
                    assert(list[k] == other);
                }
            }
        }
    }
}

} // verus!
