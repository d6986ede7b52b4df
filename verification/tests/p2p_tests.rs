use gossip_ledger::block::{Amount, DataPoint};
use gossip_ledger::blockchain::{Chain, Posting};
use gossip_ledger::config::Config;
use gossip_ledger::p2p::{
    boot_nodes, find_zero_run, forward, signing_preimage, strip_trailing, validate_sig, Action,
    Client, Command, Destiny, Keypair, Listener, Message, BUFFER_SIZE, COMPRESSION_LEVEL, TTL,
    VALIDATOR,
};

const NOW: i64 = 1_700_000_000;
const BOOT: &str = "127.0.0.1:60000";

fn amount(x: f64) -> Amount {
    Amount { bits: x.to_bits(), plain: x.to_string(), json: serde_json::to_string(&x).unwrap() }
}

fn transfer(to: &str, x: f64) -> DataPoint {
    DataPoint::new(String::new(), to.to_string(), amount(x))
}

fn keypair(seed: u8) -> Keypair {
    let secret = ed25519_dalek::SecretKey::from_bytes(&[seed; 32]).unwrap();
    let public = ed25519_dalek::PublicKey::from(&secret);
    Keypair { secret: secret.to_bytes().to_vec(), public: public.to_bytes().to_vec() }
}

fn client(seed: u8, boot_node: bool, contact: &str) -> Client {
    let mut c = Client::new(keypair(seed), boot_node);
    c.contact = contact.to_string();
    c
}

fn listener(contacts: &[&str], contact: &str) -> Listener {
    Listener::new(
        contacts.iter().map(|c| c.to_string()).collect(),
        Vec::new(),
        Chain::new(),
        contact.to_string(),
    )
}

fn pad(stream: &[u8]) -> Vec<u8> {
    let mut buf = vec![0u8; BUFFER_SIZE];
    buf[..stream.len()].copy_from_slice(stream);
    buf
}

fn balance(account: &[Posting]) -> f64 {
    let mut b = 0.0;
    for p in account {
        match p {
            Posting::Debit(bits) => b -= f64::from_bits(*bits),
            Posting::Credit(bits) => b += f64::from_bits(*bits),
        }
    }
    b
}

fn unsigned(destiny: &str, signed: &[u8], contact: &str) -> Message {
    Message {
        destiny: destiny.to_string(),
        pubkey: b"NONE".to_vec(),
        signed: signed.to_vec(),
        data: Vec::new(),
        blocks: Vec::new(),
        contacts: Vec::new(),
        timestamp: NOW,
        contact: contact.to_string(),
    }
}

fn relay(action: Action) -> (Vec<String>, Vec<u8>) {
    match action {
        Action::Relay { targets, payload } => (targets, payload),
        other => panic!("no relay: {:?}", other),
    }
}

fn reply(action: Action) -> (Vec<String>, Message) {
    match action {
        Action::Reply { targets, message } => (targets, message),
        other => panic!("no reply: {:?}", other),
    }
}

fn nothing(action: Action) -> bool {
    matches!(action, Action::Nothing)
}

// --- constants ---------------------------------------------------------------

#[test]
fn built_in_constants() {
    assert_eq!(BUFFER_SIZE, 8192);
    assert_eq!(COMPRESSION_LEVEL, 9);
    assert_eq!(TTL, 3600);
    assert!(VALIDATOR);
    assert_eq!(boot_nodes(), vec![BOOT.to_string()]);
}

#[test]
fn listen_address_is_loopback_and_port() {
    assert_eq!(Config { port: 60000, boot_node: true }.listen_address(), "127.0.0.1:60000");
    assert_eq!(Config { port: 0, boot_node: false }.listen_address(), "127.0.0.1:0");
}

// --- framing -----------------------------------------------------------------

#[test]
fn the_first_run_of_three_zeros_is_found() {
    assert_eq!(find_zero_run(&[1, 0, 0, 0, 2]), Some(1));
    assert_eq!(find_zero_run(&[0, 0, 0]), Some(0));
    assert_eq!(find_zero_run(&[0, 0, 0, 0, 0]), Some(0));
    assert_eq!(find_zero_run(&[9, 0, 0, 1, 0, 0, 0, 0, 0, 0]), Some(4));
    assert_eq!(find_zero_run(&[0, 0, 1, 0, 0]), None);
    assert_eq!(find_zero_run(&[0, 0]), None);
    assert_eq!(find_zero_run(&[]), None);
}

#[test]
fn strip_trailing_cuts_after_the_run_starts() {
    let buf = [1u8, 2, 0, 0, 0, 0, 7];
    assert_eq!(strip_trailing(&buf, 0), &[1u8, 2][..]);
    assert_eq!(strip_trailing(&buf, 1), &[1u8, 2, 0][..]);
    assert_eq!(strip_trailing(&buf, 5), &buf[..]);
    assert_eq!(strip_trailing(&[0u8, 0, 0], 0), &[0u8; 0][..]);
}

#[test]
fn a_compressed_message_is_read_back_from_the_buffer() {
    let raw = b"{\"destiny\":\"get-chain\",\"timestamp\":1700000000}".to_vec();
    let stream = miniz_oxide::deflate::compress_to_vec(&raw, 9);
    assert_eq!(Listener::get_message(&pad(&stream)), Some(raw));
}

#[test]
fn an_empty_message_is_read_back_from_the_buffer() {
    let stream = miniz_oxide::deflate::compress_to_vec(&[], 9);
    assert_eq!(Listener::get_message(&pad(&stream)), Some(Vec::new()));
}

#[test]
fn a_stream_that_holds_zeros_is_read_back_by_growing_the_cut() {
    let mut with_zeros_inside = 0;
    for n in 0..300usize {
        let raw: Vec<u8> = (0..n).map(|i| ((i * i + n) % 7) as u8 * (n % 5) as u8).collect();
        let stream = miniz_oxide::deflate::compress_to_vec(&raw, 9);
        if stream.len() + 3 > BUFFER_SIZE {
            continue;
        }
        if find_zero_run(&stream).is_some() || stream.last() == Some(&0) {
            with_zeros_inside += 1;
        }
        assert_eq!(Listener::get_message(&pad(&stream)), Some(raw));
    }
    assert!(with_zeros_inside > 0);
}

#[test]
fn a_buffer_without_a_message_gives_none() {
    assert_eq!(Listener::get_message(&[1u8; 64]), None);
    assert_eq!(Listener::get_message(&[]), None);
    assert_eq!(Listener::get_message(&[0u8; 64]), None);
    assert_eq!(Listener::get_message(&vec![0u8; BUFFER_SIZE]), None);
    // bytes that are no deflate stream, then zeros
    assert_eq!(Listener::get_message(&[0xffu8, 0xff, 0xff, 0, 0, 0, 0, 0]), None);
}

#[test]
fn forward_compresses_once_for_every_contact() {
    let contacts = vec!["a:1".to_string(), "b:2".to_string()];
    let (targets, payload) = relay(forward(&contacts, b"hello hello hello"));
    assert_eq!(targets, contacts);
    assert_eq!(payload, miniz_oxide::deflate::compress_to_vec(b"hello hello hello", 9));
    assert_eq!(Listener::get_message(&pad(&payload)), Some(b"hello hello hello".to_vec()));
    let (none, _) = relay(forward(&Vec::new(), b"x"));
    assert!(none.is_empty());
}

// --- signatures --------------------------------------------------------------

#[test]
fn a_signature_holds_for_what_was_signed() {
    let c = client(1, true, BOOT);
    let m = c.create_transaction_at(transfer("bob", 5.0), NOW).unwrap();
    assert_eq!(m.signed.len(), 64);
    assert_eq!(m.pubkey.len(), 32);
    let text = signing_preimage(&m.data[0], m.timestamp, &m.contact);
    assert_eq!(text, format!("{{\"amount\":5.0,\"from\":\"\",\"to\":\"bob\"}}{}{}", NOW, BOOT));
    assert!(validate_sig(&m.pubkey, text, &m.signed));
}

#[test]
fn the_signature_is_the_one_that_ed25519_dalek_makes() {
    let c = client(1, true, BOOT);
    let m = c.create_transaction_at(transfer("bob", 5.0), NOW).unwrap();
    let pair = ed25519_dalek::Keypair::from_bytes(&c.keypair.to_bytes()).unwrap();
    let text = signing_preimage(&m.data[0], NOW, BOOT);
    let expected = ed25519_dalek::Signer::sign(&pair, text.as_bytes());
    assert_eq!(m.signed, expected.to_bytes().to_vec());
    assert_eq!(m.pubkey, pair.public.to_bytes().to_vec());
}

#[test]
fn any_flipped_bit_breaks_the_signature() {
    let c = client(2, true, BOOT);
    let m = c.create_transaction_at(transfer("bob", 5.0), NOW).unwrap();
    let text = signing_preimage(&m.data[0], m.timestamp, &m.contact);
    assert!(validate_sig(&m.pubkey, text.clone(), &m.signed));
    for bit in 0..m.signed.len() * 8 {
        let mut signed = m.signed.clone();
        signed[bit / 8] ^= 1 << (bit % 8);
        assert!(!validate_sig(&m.pubkey, text.clone(), &signed));
    }
    for bit in 0..m.pubkey.len() * 8 {
        let mut pubkey = m.pubkey.clone();
        pubkey[bit / 8] ^= 1 << (bit % 8);
        assert!(!validate_sig(&pubkey, text.clone(), &m.signed));
    }
    for i in 0..text.len() {
        for bit in 0..7 {
            let mut bytes = text.clone().into_bytes();
            bytes[i] ^= 1 << bit;
            if let Ok(other) = String::from_utf8(bytes) {
                assert!(!validate_sig(&m.pubkey, other, &m.signed));
            }
        }
    }
}

#[test]
fn keys_and_signatures_that_cannot_be_read_do_not_hold() {
    let c = client(3, true, BOOT);
    let m = c.create_transaction_at(transfer("bob", 5.0), NOW).unwrap();
    let text = signing_preimage(&m.data[0], m.timestamp, &m.contact);
    assert!(!validate_sig(&b"NONE".to_vec(), text.clone(), &m.signed));
    assert!(!validate_sig(&m.pubkey, text.clone(), &b"NONE".to_vec()));
    assert!(!validate_sig(&Vec::new(), text.clone(), &Vec::new()));
    assert!(!validate_sig(&m.pubkey, text.clone(), &m.signed[..63].to_vec()));
    assert!(!validate_sig(&client(4, true, BOOT).keypair.public, text, &m.signed));
}

#[test]
fn a_key_pair_that_cannot_be_read_signs_nothing() {
    let mut c = client(1, true, BOOT);
    c.keypair.secret.pop();
    assert!(c.create_transaction_at(transfer("bob", 5.0), NOW).is_none());
    assert!(c.create_transaction(transfer("bob", 5.0)).is_none());
}

// --- the client --------------------------------------------------------------

#[test]
fn a_boot_node_starts_without_contacts() {
    let c = Client::new(keypair(1), true);
    assert!(c.contact_list.is_empty());
    assert!(c.banned_list.is_empty());
    assert_eq!(c.chain.blocks.len(), 1);
    assert_eq!(c.chain.blocks[0].summary, "NONE");
    assert_eq!(c.contact, "");
    assert_eq!(c.keypair.public, keypair(1).public);
    assert_eq!(c.keypair.secret, keypair(1).secret);
}

#[test]
fn boot_bootstrap() {
    // a node that is no boot node knows the boot node from the start
    let joiner = client(2, false, "127.0.0.1:60001");
    assert_eq!(joiner.contact_list, vec![BOOT.to_string()]);
    // its first message tells the boot node of it
    let mut boot = listener(&[], BOOT);
    let hello = joiner.get_contacts_at(NOW);
    let (targets, answer) = reply(boot.handle_at(hello, b"raw", NOW));
    assert_eq!(boot.contact_list, vec!["127.0.0.1:60001".to_string()]);
    assert_eq!(targets, vec!["127.0.0.1:60001".to_string()]);
    assert_eq!(answer.destiny, "give-contacts");
    assert_eq!(answer.contacts, vec!["127.0.0.1:60001".to_string()]);
}

#[test]
fn new_trans_arguments_are_found_by_keyword() {
    let o = Client::parse_transaction(&["amm", "5", "to", "bob"]).unwrap();
    assert_eq!((o.amount.as_str(), o.to.as_str()), ("5", "bob"));
    let o = Client::parse_transaction(&["to", "bob", "amm", "5"]).unwrap();
    assert_eq!((o.amount.as_str(), o.to.as_str()), ("5", "bob"));
    let o = Client::parse_transaction(&["please", "to", "bob", "x", "amm", "0.5", "y"]).unwrap();
    assert_eq!((o.amount.as_str(), o.to.as_str()), ("0.5", "bob"));
    // the last of several wins
    let o = Client::parse_transaction(&["amm", "1", "amm", "2", "to", "a", "to", "b"]).unwrap();
    assert_eq!((o.amount.as_str(), o.to.as_str()), ("2", "b"));
    // what is missing is empty
    let o = Client::parse_transaction(&["to", "bob"]).unwrap();
    assert_eq!((o.amount.as_str(), o.to.as_str()), ("", "bob"));
    let o = Client::parse_transaction(&[]).unwrap();
    assert_eq!((o.amount.as_str(), o.to.as_str()), ("", ""));
    // a value is looked at as a keyword too
    let o = Client::parse_transaction(&["amm", "to", "bob"]).unwrap();
    assert_eq!((o.amount.as_str(), o.to.as_str()), ("to", "bob"));
    // a keyword that nothing follows
    assert!(Client::parse_transaction(&["amm", "5", "to"]).is_none());
    assert!(Client::parse_transaction(&["amm"]).is_none());
}

#[test]
fn commands_are_told_apart_by_their_first_token() {
    match Client::command(&["new-trans", "amm", "5", "to", "bob"]) {
        Command::NewTrans(o) => assert_eq!((o.amount.as_str(), o.to.as_str()), ("5", "bob")),
        other => panic!("{:?}", other),
    }
    assert!(matches!(Client::command(&["new-trans", "to"]), Command::Malformed));
    assert!(matches!(Client::command(&["get-chain"]), Command::GetChain));
    assert!(matches!(Client::command(&["get-chain", "now"]), Command::GetChain));
    assert!(matches!(Client::command(&["get-contacts"]), Command::GetContacts));
    assert!(matches!(Client::command(&[]), Command::Empty));
    match Client::command(&["mine", "faster"]) {
        Command::Invalid(word) => assert_eq!(word, "mine"),
        other => panic!("{:?}", other),
    }
}

#[test]
fn requests_are_unsigned_and_carry_key_and_contact() {
    let c = client(5, false, "127.0.0.1:60005");
    for (m, destiny) in [(c.get_chain_at(NOW), "get-chain"), (c.get_contacts_at(NOW), "get-contacts")]
    {
        assert_eq!(m.destiny, destiny);
        assert_eq!(m.pubkey, c.keypair.public);
        assert_eq!(m.signed, b"NONE".to_vec());
        assert!(m.data.is_empty() && m.blocks.is_empty() && m.contacts.is_empty());
        assert_eq!(m.timestamp, NOW);
        assert_eq!(m.contact, "127.0.0.1:60005");
    }
    let before = std::time::SystemTime::now()
        .duration_since(std::time::UNIX_EPOCH)
        .unwrap()
        .as_secs() as i64;
    let m = c.get_chain();
    assert!(before <= m.timestamp && m.timestamp <= before + 60);
    assert_eq!(m.destiny, "get-chain");
    let m = c.get_contacts();
    assert!(before <= m.timestamp && m.timestamp <= before + 60);
    assert_eq!(m.destiny, "get-contacts");
}

#[test]
fn a_transaction_message_carries_one_signed_transfer() {
    let c = client(5, false, "127.0.0.1:60005");
    let m = c.create_transaction_at(transfer("bob", 2.5), NOW).unwrap();
    assert_eq!(m.destiny, "create-transaction");
    assert_eq!(m.pubkey, c.keypair.public);
    assert_eq!(m.data.len(), 1);
    assert_eq!(m.data[0].from, "");
    assert_eq!(m.data[0].to, "bob");
    assert_eq!(m.data[0].amount.bits, 2.5f64.to_bits());
    assert!(m.blocks.is_empty() && m.contacts.is_empty());
    assert_eq!(m.timestamp, NOW);
    assert_eq!(m.contact, "127.0.0.1:60005");
    let by_clock = c.create_transaction(transfer("bob", 2.5)).unwrap();
    let text = signing_preimage(&by_clock.data[0], by_clock.timestamp, &by_clock.contact);
    assert!(validate_sig(&by_clock.pubkey, text, &by_clock.signed));
    let made = Client::transaction_message(vec![1], vec![2], transfer("x", 1.0), 3, "c".to_string());
    assert_eq!((made.pubkey, made.signed, made.timestamp), (vec![1], vec![2], 3));
    assert_eq!(made.contact, "c");
    assert_eq!(made.data[0].to, "x");
}

#[test]
fn send_all_goes_to_every_contact() {
    let mut c = client(5, false, "127.0.0.1:60005");
    c.contact_list.push("127.0.0.1:60007".to_string());
    let (targets, payload) = relay(c.send_all(b"some bytes"));
    assert_eq!(targets, vec![BOOT.to_string(), "127.0.0.1:60007".to_string()]);
    assert_eq!(Listener::get_message(&pad(&payload)), Some(b"some bytes".to_vec()));
}

// --- the listener ------------------------------------------------------------

#[test]
fn destinies_are_read_from_their_tags() {
    assert_eq!(Destiny::parse("create-transaction"), Destiny::CreateTransaction);
    assert_eq!(Destiny::parse("get-chain"), Destiny::GetChain);
    assert_eq!(Destiny::parse("give-chain"), Destiny::GiveChain);
    assert_eq!(Destiny::parse("get-contacts"), Destiny::GetContacts);
    assert_eq!(Destiny::parse("give-contacts"), Destiny::GiveContacts);
    assert_eq!(Destiny::parse("Get-Chain"), Destiny::Unknown);
    assert_eq!(Destiny::parse(""), Destiny::Unknown);
}

#[test]
fn fresh_node_mines_one_block() {
    let cfg = Config { port: 60000, boot_node: true };
    let mut me = Client::new(keypair(1), cfg.boot_node);
    me.contact = cfg.listen_address();
    let mut node =
        Listener::new(me.contact_list.clone(), Vec::new(), Chain::new(), cfg.listen_address());
    assert_eq!(node.contact, BOOT);
    let order = match Client::command(&["new-trans", "amm", "5", "to", "bob"]) {
        Command::NewTrans(order) => order,
        other => panic!("{:?}", other),
    };
    let sum: f64 = order.amount.parse().unwrap();
    let m = me.create_transaction_at(DataPoint::new(String::new(), order.to, amount(sum)), NOW).unwrap();
    let (targets, payload) = relay(node.handle_at(m, b"the message as received", NOW));
    assert!(targets.is_empty());
    assert_eq!(Listener::get_message(&pad(&payload)), Some(b"the message as received".to_vec()));

    assert_eq!(node.chain.blocks.len(), 2);
    assert_eq!(node.chain.last().previous_summary, "NONE");
    assert_eq!(node.chain.blocks[1].summary, "NONE");
    assert!(node.chain.last().summary.starts_with("0000"));
    assert!(node.chain.verify());
    let my_id = hex::encode(&me.keypair.public);
    assert_eq!(node.chain.last().data[0].from, my_id);
    assert_eq!(balance(&node.chain.check_balance("bob".to_string())), 5.0);
    assert_eq!(balance(&node.chain.check_balance(my_id)), -5.0);
    assert_eq!(node.processed.len(), 1);
}

#[test]
fn signature_rejection() {
    let me = client(1, true, BOOT);
    let mut node = listener(&["127.0.0.1:60009"], BOOT);
    // signed over another timestamp than the one that the message carries
    let mut m = me.create_transaction_at(transfer("bob", 5.0), NOW - 1).unwrap();
    m.timestamp = NOW;
    assert!(nothing(node.handle_at(m, b"raw", NOW)));
    assert_eq!(node.chain.blocks.len(), 1);
    assert!(node.processed.is_empty());
    assert_eq!(node.contact_list, vec!["127.0.0.1:60009".to_string()]);
    // signed over another contact, another transfer
    let mut m = me.create_transaction_at(transfer("bob", 5.0), NOW).unwrap();
    m.contact = "127.0.0.1:1".to_string();
    assert!(nothing(node.handle_at(m, b"raw", NOW)));
    let mut m = me.create_transaction_at(transfer("bob", 5.0), NOW).unwrap();
    m.data[0] = transfer("eve", 5.0);
    assert!(nothing(node.handle_at(m, b"raw", NOW)));
    // the sender that the transfer names is part of what is signed
    let mut m = me.create_transaction_at(transfer("bob", 5.0), NOW).unwrap();
    m.data[0].from = "somebody".to_string();
    assert!(nothing(node.handle_at(m, b"raw", NOW)));
    assert_eq!(node.chain.blocks.len(), 1);
    assert!(node.processed.is_empty());
}

#[test]
fn replay_rejection() {
    let me = client(1, false, "127.0.0.1:60001");
    let mut node = listener(&["127.0.0.1:60002"], BOOT);
    let m = me.create_transaction_at(transfer("bob", 5.0), NOW).unwrap();
    let (targets, _) = relay(node.handle_at(m.clone(), b"raw", NOW));
    assert_eq!(targets, vec!["127.0.0.1:60002".to_string()]);
    assert_eq!(node.chain.blocks.len(), 2);
    let tip = node.chain.last().summary.clone();
    assert!(nothing(node.handle_at(m.clone(), b"raw", NOW + 10)));
    assert!(nothing(node.apply(m, b"other bytes", NOW + 20, true)));
    assert_eq!(node.chain.blocks.len(), 2);
    assert_eq!(node.chain.last().summary, tip);
    assert_eq!(node.processed.len(), 1);
    assert_eq!(node.contact_list, vec!["127.0.0.1:60002".to_string(), "127.0.0.1:60001".to_string()]);
}

#[test]
fn chain_adoption() {
    // A is the boot node and has mined three blocks
    let mut a = listener(&[], BOOT);
    for (i, to) in ["bob", "carol", "dave"].iter().enumerate() {
        a.chain.add_data("alice".to_string(), transfer(to, i as f64 + 1.0));
    }
    assert_eq!(a.chain.blocks.len(), 4);
    // B is fresh and asks
    let b_client = client(2, false, "127.0.0.1:60001");
    let mut b = listener(&[BOOT], "127.0.0.1:60001");
    let (targets, give) = reply(a.handle_at(b_client.get_chain_at(NOW), b"raw", NOW));
    assert_eq!(targets, vec!["127.0.0.1:60001".to_string()]);
    assert_eq!(give.destiny, "give-chain");
    assert_eq!(give.pubkey, b"NONE".to_vec());
    assert_eq!(give.signed, b"NONE".to_vec());
    assert_eq!(give.contact, BOOT);
    assert_eq!(give.timestamp, NOW);
    assert_eq!(give.blocks.len(), 4);
    assert!(give.data.is_empty() && give.contacts.is_empty());

    // corrupted in flight: not adopted, the sender's key is banned
    let mut corrupted = give.clone();
    corrupted.blocks[1].summary = format!("0000{}", &give.blocks[1].summary[4..]).replace('a', "b");
    if corrupted.blocks[1].summary == give.blocks[1].summary {
        corrupted.blocks[1].summary.push('0');
    }
    let mut victim = listener(&[BOOT], "127.0.0.1:60001");
    assert!(nothing(victim.handle_at(corrupted, b"raw", NOW)));
    assert_eq!(victim.chain.blocks.len(), 1);
    assert_eq!(victim.banned_list, vec![give.pubkey.clone()]);
    assert!(victim.banned(&give.pubkey));
    // and whatever that key sends afterwards is dropped
    assert!(nothing(victim.handle_at(give.clone(), b"raw", NOW)));
    assert_eq!(victim.chain.blocks.len(), 1);

    // as sent: adopted block for block
    assert!(nothing(b.handle_at(give, b"raw", NOW)));
    assert_eq!(b.chain.blocks.len(), a.chain.blocks.len());
    for (mine, theirs) in b.chain.blocks.iter().zip(a.chain.blocks.iter()) {
        assert_eq!(mine.summary, theirs.summary);
    }
    assert!(b.banned_list.is_empty());
    assert_eq!(balance(&b.chain.check_balance("carol".to_string())), 2.0);
}

#[test]
fn a_chain_from_a_stranger_is_not_looked_at() {
    let mut a = listener(&[], BOOT);
    a.chain.add_data("alice".to_string(), transfer("bob", 1.0));
    let mut give = unsigned("give-chain", b"NONE", "127.0.0.1:60666");
    give.blocks = a.chain.to_vec();
    let mut b = listener(&[BOOT], "127.0.0.1:60001");
    assert!(nothing(b.handle_at(give, b"raw", NOW)));
    assert_eq!(b.chain.blocks.len(), 1);
    assert!(b.banned_list.is_empty());
    assert!(b.processed.is_empty());
    assert_eq!(b.contact_list, vec![BOOT.to_string()]);
}

#[test]
fn a_shorter_chain_replaces_a_longer_one() {
    let mut b = listener(&[BOOT], "127.0.0.1:60001");
    b.chain.add_data("alice".to_string(), transfer("bob", 1.0));
    b.chain.add_data("alice".to_string(), transfer("bob", 2.0));
    let mut give = unsigned("give-chain", b"NONE", BOOT);
    give.blocks = Chain::new().to_vec();
    assert!(nothing(b.handle_at(give, b"raw", NOW)));
    assert_eq!(b.chain.blocks.len(), 1);
    assert_eq!(b.processed, vec![b"NONE".to_vec()]);
}

#[test]
fn a_transfer_for_a_chain_without_blocks_is_passed_on_only() {
    let mut b = listener(&[BOOT], "127.0.0.1:60001");
    let give = unsigned("give-chain", b"NONE", BOOT);
    assert!(nothing(b.handle_at(give, b"raw", NOW)));
    assert_eq!(b.chain.blocks.len(), 0);
    let m = client(1, true, BOOT).create_transaction_at(transfer("bob", 5.0), NOW).unwrap();
    let (targets, _) = relay(b.handle_at(m, b"raw", NOW));
    assert!(targets.is_empty());
    assert_eq!(b.chain.blocks.len(), 0);
    assert_eq!(b.processed.len(), 2);
}

#[test]
fn replay_window_bound() {
    let mut node = listener(&[], BOOT);
    for i in 0..3601u32 {
        let m = unsigned("give-contacts", &i.to_be_bytes(), "127.0.0.1:60001");
        assert!(nothing(node.handle_at(m, b"raw", NOW)));
        assert!(node.processed.len() <= TTL);
    }
    assert_eq!(node.processed.len(), 3600);
    assert_eq!(node.processed[0], 1u32.to_be_bytes().to_vec());
    assert_eq!(node.processed[3599], 3600u32.to_be_bytes().to_vec());
    assert!(!node.processed.contains(&0u32.to_be_bytes().to_vec()));
}

#[test]
fn cleanup_keeps_the_newest() {
    let mut node = listener(&[], BOOT);
    node.processed = (0..3700u32).map(|i| i.to_be_bytes().to_vec()).collect();
    node.cleanup();
    assert_eq!(node.processed.len(), 3600);
    assert_eq!(node.processed[0], 100u32.to_be_bytes().to_vec());
    node.cleanup();
    assert_eq!(node.processed.len(), 3600);
    node.remember(vec![1, 2, 3]);
    assert_eq!(node.processed.len(), 3600);
    assert_eq!(node.processed[0], 101u32.to_be_bytes().to_vec());
    assert_eq!(node.processed[3599], vec![1, 2, 3]);
}

#[test]
fn loop_suppression_in_a_cluster_of_three() {
    let names = ["127.0.0.1:60000", "127.0.0.1:60001", "127.0.0.1:60002"];
    let mut nodes: Vec<Listener> = (0..3)
        .map(|i| {
            let others: Vec<&str> = names.iter().filter(|n| **n != names[i]).cloned().collect();
            listener(&others, names[i])
        })
        .collect();
    let origin = client(1, true, names[0]);
    let m = origin.create_transaction_at(transfer("bob", 5.0), NOW).unwrap();
    let raw = b"the transfer".to_vec();
    // A floods to B and C; whatever a node relays is delivered in turn
    let mut inbox: Vec<String> = match origin.send_all(&raw) {
        Action::Relay { .. } => vec![names[1].to_string(), names[2].to_string()],
        other => panic!("{:?}", other),
    };
    let mut taken = [0usize; 3];
    let mut delivered = 0;
    while let Some(target) = inbox.pop() {
        delivered += 1;
        assert!(delivered < 100);
        let i = names.iter().position(|n| *n == target).unwrap();
        let before = nodes[i].processed.len();
        match nodes[i].handle_at(m.clone(), &raw, NOW) {
            Action::Relay { targets, payload } => {
                assert_eq!(Listener::get_message(&pad(&payload)), Some(raw.clone()));
                assert!(!targets.contains(&m.contact));
                inbox.extend(targets);
            }
            Action::Nothing => {}
            other => panic!("{:?}", other),
        }
        taken[i] += nodes[i].processed.len() - before;
    }
    assert!(taken[1] <= 1 && taken[2] <= 1);
    assert_eq!(taken, [0, 1, 1]);
    assert_eq!(nodes[1].chain.blocks.len(), 2);
    assert_eq!(nodes[2].chain.blocks.len(), 2);
    assert_eq!(nodes[0].chain.blocks.len(), 1);
}

#[test]
fn stale_messages_are_dropped() {
    assert!(!Listener::expired(NOW - 3600, NOW));
    assert!(Listener::expired(NOW - 3601, NOW));
    assert!(!Listener::expired(NOW + 5, NOW));
    assert!(!Listener::expired(i64::MAX, NOW));
    assert!(Listener::expired(i64::MIN, NOW));
    assert!(!Listener::expired(i64::MAX, i64::MAX));
    let mut node = listener(&[], BOOT);
    let mut old = unsigned("get-chain", b"NONE", "127.0.0.1:60001");
    old.timestamp = NOW - 3601;
    assert!(nothing(node.handle_at(old, b"raw", NOW)));
    assert!(node.contact_list.is_empty());
    assert!(node.processed.is_empty());
    let mut edge = unsigned("get-chain", b"NONE", "127.0.0.1:60001");
    edge.timestamp = NOW - 3600;
    reply(node.handle_at(edge, b"raw", NOW));
    assert_eq!(node.contact_list.len(), 1);
    assert!(node.invalid_timestamp(0));
    assert!(!node.invalid_timestamp(i64::MAX));
}

#[test]
fn the_clock_judges_a_message_that_comes_without_a_time() {
    let me = client(1, true, BOOT);
    let mut node = listener(&[], BOOT);
    reply(node.handle(me.get_chain(), b"raw"));
    assert_eq!(node.processed.len(), 1);
    let mut old = me.get_chain();
    old.timestamp -= 3700;
    assert!(nothing(node.handle(old, b"raw")));
    assert_eq!(node.processed.len(), 1);
}

#[test]
fn banned_senders_are_dropped() {
    let me = client(1, true, "127.0.0.1:60001");
    let mut node = listener(&[], BOOT);
    node.ban(me.keypair.public.clone());
    assert!(node.banned(&me.keypair.public));
    assert!(!node.banned(&client(2, true, BOOT).keypair.public));
    let m = me.create_transaction_at(transfer("bob", 5.0), NOW).unwrap();
    assert!(nothing(node.handle_at(m, b"raw", NOW)));
    assert!(nothing(node.handle_at(me.get_chain_at(NOW), b"raw", NOW)));
    assert!(nothing(node.handle_at(me.get_contacts_at(NOW), b"raw", NOW)));
    assert_eq!(node.chain.blocks.len(), 1);
    assert!(node.contact_list.is_empty());
    assert!(node.processed.is_empty());
}

#[test]
fn unknown_kinds_and_empty_transactions_are_dropped() {
    let mut node = listener(&[], BOOT);
    assert!(nothing(node.handle_at(unsigned("steal-chain", b"x", "127.0.0.1:60001"), b"raw", NOW)));
    assert!(nothing(node.apply(unsigned("create-transaction", b"x", "127.0.0.1:60001"), b"raw", NOW, true)));
    assert!(nothing(node.handle_at(unsigned("create-transaction", b"x", "127.0.0.1:60001"), b"raw", NOW)));
    assert!(node.contact_list.is_empty());
    assert!(node.processed.is_empty());
    assert_eq!(node.chain.blocks.len(), 1);
}

#[test]
fn contacts_are_asked_for_and_given() {
    let mut node = listener(&["127.0.0.1:60001", "127.0.0.1:60002"], BOOT);
    let asker = client(3, false, "127.0.0.1:60003");
    let (targets, give) = reply(node.handle_at(asker.get_contacts_at(NOW), b"raw", NOW));
    let all = vec![
        "127.0.0.1:60001".to_string(),
        "127.0.0.1:60002".to_string(),
        "127.0.0.1:60003".to_string(),
    ];
    assert_eq!(node.contact_list, all);
    assert_eq!(targets, all);
    assert_eq!(give.destiny, "give-contacts");
    assert_eq!(give.contacts, all);
    assert_eq!(give.contact, BOOT);
    assert_eq!(give.pubkey, b"NONE".to_vec());
    assert_eq!(give.signed, b"NONE".to_vec());
    assert_eq!(give.timestamp, NOW);
    assert!(give.blocks.is_empty() && give.data.is_empty());

    // the asker takes them in, but for itself and for what it has
    let mut other = listener(&[BOOT], "127.0.0.1:60003");
    assert!(nothing(other.handle_at(give, b"raw", NOW)));
    assert_eq!(
        other.contact_list,
        vec![BOOT.to_string(), "127.0.0.1:60001".to_string(), "127.0.0.1:60002".to_string()]
    );
}

#[test]
fn contacts_are_added_once() {
    let mut node = listener(&[], BOOT);
    node.add_contact("a:1".to_string());
    node.add_contact("b:2".to_string());
    node.add_contact("a:1".to_string());
    assert_eq!(node.contact_list, vec!["a:1".to_string(), "b:2".to_string()]);
    node.add_contacts(vec![
        "c:3".to_string(),
        BOOT.to_string(),
        "a:1".to_string(),
        "c:3".to_string(),
        "d:4".to_string(),
    ]);
    assert_eq!(
        node.contact_list,
        vec!["a:1".to_string(), "b:2".to_string(), "c:3".to_string(), "d:4".to_string()]
    );
}

#[test]
fn the_listener_forwards_to_all_but_one() {
    let node = listener(&["a:1", "b:2", "c:3"], BOOT);
    let (targets, payload) = relay(node.forward(b"bytes", "b:2".to_string()));
    assert_eq!(targets, vec!["a:1".to_string(), "c:3".to_string()]);
    assert_eq!(payload, miniz_oxide::deflate::compress_to_vec(b"bytes", 9));
    let (targets, _) = relay(node.forward(b"bytes", "z:9".to_string()));
    assert_eq!(targets.len(), 3);
    let twice = listener(&["a:1", "b:2", "a:1"], BOOT);
    let (targets, _) = relay(twice.forward(b"bytes", "a:1".to_string()));
    assert_eq!(targets, vec!["b:2".to_string()]);
}

#[test]
fn replies_by_the_clock_carry_its_time() {
    let node = listener(&["a:1"], BOOT);
    let before = std::time::SystemTime::now()
        .duration_since(std::time::UNIX_EPOCH)
        .unwrap()
        .as_secs() as i64;
    let (targets, m) = reply(node.give_chain(Chain::new().to_vec(), BOOT.to_string()));
    assert_eq!(targets, vec!["a:1".to_string()]);
    assert_eq!(m.destiny, "give-chain");
    assert_eq!(m.blocks.len(), 1);
    assert!(before <= m.timestamp && m.timestamp <= before + 60);
    let (targets, m) = reply(node.give_contacts(vec!["x:1".to_string()], "a:1".to_string()));
    assert!(targets.is_empty());
    assert_eq!(m.destiny, "give-contacts");
    assert_eq!(m.contacts, vec!["x:1".to_string()]);
    assert_eq!(m.contact, "a:1");
    assert!(before <= m.timestamp && m.timestamp <= before + 60);
}

#[test]
fn a_new_listener_has_seen_nothing() {
    let node = Listener::new(
        vec!["a:1".to_string()],
        vec![vec![1, 2]],
        Chain::new(),
        BOOT.to_string(),
    );
    assert_eq!(node.contact_list, vec!["a:1".to_string()]);
    assert_eq!(node.banned_list, vec![vec![1u8, 2]]);
    assert_eq!(node.chain.blocks.len(), 1);
    assert!(node.processed.is_empty());
    assert_eq!(node.contact, BOOT);
}
