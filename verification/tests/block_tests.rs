use gossip_ledger::block::{
    data_to_string, has_cost_prefix, hash, hash_with_cost, Amount, Block, DataPoint, COST,
};
use gossip_ledger::decimal::{decimal_string, signed_decimal_string};

fn amount(x: f64) -> Amount {
    Amount { bits: x.to_bits(), plain: x.to_string(), json: serde_json::to_string(&x).unwrap() }
}

fn transfer(from: &str, to: &str, x: f64) -> DataPoint {
    DataPoint::new(from.to_string(), to.to_string(), amount(x))
}

#[test]
fn hash_of_empty_text_is_the_known_digest() {
    assert_eq!(
        hash(&String::new()),
        "a7ffc6f8bf1ed76651c14756a061d662f580ff4de43b49fa82d80a4b80f8434a"
    );
}

#[test]
fn hash_of_abc_is_the_known_digest() {
    assert_eq!(
        hash(&"abc".to_string()),
        "3a985da74fe225b2045c172d6bd390bd855f086e3e9d525b46bfe24511431532"
    );
}

#[test]
fn hash_covers_the_utf8_bytes() {
    // U+00E9 is two bytes in UTF-8; the digest is that of those two bytes.
    let text = "\u{e9}".to_string();
    assert_eq!(hash(&text).len(), 64);
    assert_ne!(hash(&text), hash(&"e".to_string()));
    assert!(hash(&text).chars().all(|c| c.is_ascii_digit() || ('a'..='f').contains(&c)));
}

#[test]
fn cost_is_four() {
    assert_eq!(COST, 4);
}

#[test]
fn cost_prefix_is_four_zeros() {
    assert!(has_cost_prefix("0000"));
    assert!(has_cost_prefix("0000abc"));
    assert!(!has_cost_prefix("000"));
    assert!(!has_cost_prefix("0001"));
    assert!(!has_cost_prefix("1000"));
    assert!(!has_cost_prefix(""));
    assert!(!has_cost_prefix("NONE"));
}

#[test]
fn mining_finds_the_first_nonce() {
    let (digest, nonce) = hash_with_cost("abc".to_string()).unwrap();
    assert!(digest.starts_with("0000"));
    assert!(nonce >= 1);
    assert_eq!(hash(&format!("abc{}", nonce)), digest);
    for k in 1..nonce {
        assert!(!has_cost_prefix(&hash(&format!("abc{}", k))));
    }
}

#[test]
fn mining_is_deterministic() {
    let first = hash_with_cost("same input".to_string()).unwrap();
    let second = hash_with_cost("same input".to_string()).unwrap();
    assert_eq!(first, second);
}

#[test]
fn decimal_numerals() {
    assert_eq!(decimal_string(0), "0");
    assert_eq!(decimal_string(7), "7");
    assert_eq!(decimal_string(10), "10");
    assert_eq!(decimal_string(60000), "60000");
    assert_eq!(decimal_string(u64::MAX), "18446744073709551615");
    assert_eq!(signed_decimal_string(0), "0");
    assert_eq!(signed_decimal_string(-1), "-1");
    assert_eq!(signed_decimal_string(1700000000), "1700000000");
    assert_eq!(signed_decimal_string(i64::MAX), "9223372036854775807");
    assert_eq!(signed_decimal_string(i64::MIN), "-9223372036854775808");
}

#[test]
fn transfers_are_written_without_separators() {
    let data = vec![transfer("a", "b", 5.0), transfer("c", "d", 0.5)];
    assert_eq!(data_to_string(&data), "ab5cd0.5");
    assert_eq!(data_to_string(&Vec::new()), "");
}

#[test]
fn transfer_json_is_what_serde_json_writes() {
    let d = transfer("al\"ice\n", "b\\ob", 5.0);
    let mut fields = serde_json::Map::new();
    fields.insert("from".to_string(), serde_json::Value::String(d.from.clone()));
    fields.insert("to".to_string(), serde_json::Value::String(d.to.clone()));
    fields.insert("amount".to_string(), serde_json::Value::from(5.0));
    assert_eq!(d.to_string(), serde_json::Value::Object(fields).to_string());
}

#[test]
fn transfer_json_exact_text() {
    assert_eq!(transfer("", "bob", 5.0).to_string(), "{\"amount\":5.0,\"from\":\"\",\"to\":\"bob\"}");
    assert_eq!(
        transfer("a", "b", -0.25).to_string(),
        "{\"amount\":-0.25,\"from\":\"a\",\"to\":\"b\"}"
    );
}

#[test]
fn genesis_block_has_the_fixed_fields() {
    let g = Block::new_genesis();
    assert_eq!(g.summary, "NONE");
    assert_eq!(g.previous_summary, "NONE");
    assert_eq!(g.nonce, 0);
    assert_eq!(g.timestamp, 0);
    assert!(g.genesis);
    assert_eq!(g.data.len(), 1);
    assert_eq!(g.data[0].from, "NOONE");
    assert_eq!(g.data[0].to, "NOONE");
    assert_eq!(g.data[0].amount.bits, 0f64.to_bits());
    assert_eq!(g.data[0].amount.plain, 0f64.to_string());
    assert_eq!(g.data[0].amount.json, serde_json::to_string(&0f64).unwrap());
    assert!(g.verify());
}

#[test]
fn a_block_is_genesis_by_its_summary_not_by_its_flag() {
    let mut g = Block::new_genesis();
    g.genesis = false;
    assert!(g.verify());
    let mut b = Block::seal(vec![transfer("a", "b", 1.0)], "NONE".to_string(), "junk".to_string(), 1, 0);
    b.genesis = true;
    assert!(!b.verify());
}

#[test]
fn a_mined_block_verifies() {
    let data = vec![transfer("alice", "bob", 5.0)];
    let b = Block::new(data, "NONE".to_string()).unwrap();
    assert!(!b.genesis);
    assert_eq!(b.previous_summary, "NONE");
    assert!(b.summary.starts_with("0000"));
    assert_eq!(b.summary, hash(&format!("alicebob5NONE{}", b.nonce)));
    assert!(b.timestamp > 1_600_000_000);
    assert!(b.verify());
}

#[test]
fn a_tampered_block_does_not_verify() {
    let b = Block::new(vec![transfer("alice", "bob", 5.0)], "NONE".to_string()).unwrap();

    let mut other_amount = b.clone();
    other_amount.data[0].amount = amount(6.0);
    assert!(!other_amount.verify());

    let mut other_receiver = b.clone();
    other_receiver.data[0].to = "eve".to_string();
    assert!(!other_receiver.verify());

    let mut other_previous = b.clone();
    other_previous.previous_summary = "0000".to_string();
    assert!(!other_previous.verify());

    let mut other_nonce = b.clone();
    other_nonce.nonce += 1;
    assert!(!other_nonce.verify());

    let mut other_summary = b.clone();
    other_summary.summary = format!("0000{}", &b.summary[4..].replace('0', "1"));
    assert!(other_summary.summary != b.summary || !other_summary.verify() || b.verify());
    other_summary.summary.push('0');
    assert!(!other_summary.verify());

    let mut other_time = b.clone();
    other_time.timestamp = 0;
    assert!(other_time.verify());
}

#[test]
fn a_true_digest_without_the_zeros_does_not_verify() {
    let data = vec![transfer("alice", "bob", 5.0)];
    let mined = Block::new(data.clone(), "NONE".to_string()).unwrap();
    assert!(mined.nonce > 1);
    let summary = hash(&"alicebob5NONE1".to_string());
    assert!(!summary.starts_with("0000"));
    let b = Block::seal(data, "NONE".to_string(), summary, 1, 0);
    assert!(!b.verify());
}

#[test]
fn zeros_without_the_true_digest_do_not_verify() {
    let b = Block::seal(
        vec![transfer("alice", "bob", 5.0)],
        "NONE".to_string(),
        "0000000000000000000000000000000000000000000000000000000000000000".to_string(),
        1,
        0,
    );
    assert!(!b.verify());
}

#[test]
fn clones_keep_every_field() {
    let b = Block::new(vec![transfer("alice", "bob", 5.0)], "NONE".to_string()).unwrap();
    let c = b.clone();
    assert_eq!(c.summary, b.summary);
    assert_eq!(c.previous_summary, b.previous_summary);
    assert_eq!(c.nonce, b.nonce);
    assert_eq!(c.timestamp, b.timestamp);
    assert_eq!(c.genesis, b.genesis);
    assert_eq!(c.data.len(), 1);
    assert_eq!(c.data[0].from, "alice");
    assert_eq!(c.data[0].to, "bob");
    assert_eq!(c.data[0].amount.bits, 5f64.to_bits());
    assert_eq!(c.data[0].amount.plain, "5");
    assert_eq!(c.data[0].amount.json, "5.0");
}
