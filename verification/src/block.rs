//! Transfers, blocks, and the proof of work that seals a block.

use vstd::prelude::*;
use vstd::utf8::encode_utf8;
use crate::clock::unix_now;
use crate::decimal::{decimal, decimal_string};
use crate::digest::{hex_encode, hex_of, sha3_256, sha3_256_digest};
use crate::json::{json_quote, json_quoted};

verus! {

/// The number of leading `0` digits that a sealed block's summary must show.
pub const COST: usize = 4;

/// A transferred amount. The ledger never computes with the number: it only
/// carries it, and writes it into digests and signing preimages. So an
/// amount holds the same number three times, and whoever makes one sees to it
/// that the three agree.
#[derive(Debug)]
pub struct Amount {
    /// The number itself, as the bit pattern of an IEEE 754 binary64 value.
    pub bits: u64,
    /// The number in plain decimal, as it enters a block's digest.
    pub plain: String,
    /// The number as the wire's JSON writes it, as it enters a signing
    /// preimage.
    pub json: String,
}

/// What an [`Amount`] holds.
pub struct AmountView {
    pub bits: u64,
    pub plain: Seq<char>,
    pub json: Seq<char>,
}

impl View for Amount {
    type V = AmountView;

    open spec fn view(&self) -> AmountView {
        AmountView { bits: self.bits, plain: self.plain@, json: self.json@ }
    }
}

impl Clone for Amount {
    fn clone(&self) -> (res: Self)
        ensures
            res == *self,
    {
        Amount { bits: self.bits, plain: self.plain.clone(), json: self.json.clone() }
    }
}

/// A transfer of `amount` from one identity to another.
#[derive(Debug)]
pub struct DataPoint {
    pub from: String,
    pub to: String,
    pub amount: Amount,
}

/// What a [`DataPoint`] holds.
pub struct DataPointView {
    pub from: Seq<char>,
    pub to: Seq<char>,
    pub amount: AmountView,
}

impl View for DataPoint {
    type V = DataPointView;

    open spec fn view(&self) -> DataPointView {
        DataPointView { from: self.from@, to: self.to@, amount: self.amount@ }
    }
}

impl Clone for DataPoint {
    fn clone(&self) -> (res: Self)
        ensures
            res == *self,
    {
        DataPoint { from: self.from.clone(), to: self.to.clone(), amount: self.amount.clone() }
    }
}

impl DataPointView {
    /// The transfer as a JSON object in one line, its three fields in the
    /// order of their names: the amount as its JSON text, sender and receiver
    /// as JSON string literals.
    pub open spec fn json(self) -> Seq<char> {
        "{\"amount\":"@ + self.amount.json + ",\"from\":"@ + json_quoted(self.from)
            + ",\"to\":"@ + json_quoted(self.to) + "}"@
    }
}

impl DataPoint {
    /// A transfer of `amount` from `from` to `to`.
    pub fn new(from: String, to: String, amount: Amount) -> (data: DataPoint)
        ensures
            data.from == from,
            data.to == to,
            data.amount == amount,
    {
        DataPoint { from, to, amount }
    }

    /// The transfer as JSON text, the form that is signed.
    pub fn to_string(&self) -> (text: String)
        ensures
            text@ == self@.json(),
    {
        let mut text = "{\"amount\":".to_owned();
        text.append(self.amount.json.as_str());
        text.append(",\"from\":");
        text.append(json_quote(self.from.as_str()).as_str());
        text.append(",\"to\":");
        text.append(json_quote(self.to.as_str()).as_str());
        text.append("}");
        text
    }
}

/// The views of a run of transfers.
pub open spec fn data_views(data: Seq<DataPoint>) -> Seq<DataPointView> {
    data.map_values(|d: DataPoint| d@)
}

/// What one transfer adds to the text that a block's digest covers: sender,
/// receiver and the amount in plain decimal, with nothing between them.
pub open spec fn entry_text(d: DataPointView) -> Seq<char> {
    d.from + d.to + d.amount.plain
}

/// The text of a block's transfers: their entries in order.
pub open spec fn tx_text(data: Seq<DataPointView>) -> Seq<char>
    decreases data.len(),
{
    if data.len() == 0 {
        Seq::empty()
    } else {
        tx_text(data.drop_last()) + entry_text(data.last())
    }
}

/// The digest of a text: SHA3-256 over its UTF-8 bytes, in lowercase
/// hexadecimal.
pub open spec fn digest_text(s: Seq<char>) -> Seq<char> {
    hex_of(sha3_256(encode_utf8(s)))
}

/// Whether a summary starts with `COST` zeros.
pub open spec fn meets_cost(summary: Seq<char>) -> bool {
    &&& summary.len() >= COST
    &&& forall|i: int| 0 <= i < COST ==> summary[i] == '0'
}

/// The digest tried for `nonce` while mining over `base`.
pub open spec fn pow_digest(base: Seq<char>, nonce: u64) -> Seq<char> {
    digest_text(base + decimal(nonce as nat))
}

/// Hashes a text: 64 hexadecimal digits.
pub fn hash(data: &String) -> (digest: String)
    ensures
        digest@ == digest_text(data@),
        digest@.len() == 64,
{
    let bytes = sha3_256_digest(data.as_str().as_bytes());
    hex_encode(bytes.as_slice())
}

/// Tests a summary for the proof-of-work prefix.
pub fn has_cost_prefix(summary: &str) -> (ok: bool)
    ensures
        ok == meets_cost(summary@),
{
    if summary.unicode_len() < COST {
        return false;
    }
    let mut i: usize = 0;
    while i < COST
        invariant
            i <= COST,
            summary@.len() >= COST,
            forall|j: int| 0 <= j < i ==> summary@[j] == '0',
        decreases COST - i,
    {
        if summary.get_char(i) != '0' {
            return false;
        }
        i += 1;
    }
    true
}

/// Whether `nonce` is the first, counting from 1, whose digest over `base`
/// meets the cost.
pub open spec fn is_first_nonce(base: Seq<char>, nonce: u64) -> bool {
    &&& nonce >= 1
    &&& meets_cost(pow_digest(base, nonce))
    &&& forall|k: u64| 1 <= k < nonce ==> !meets_cost(#[trigger] pow_digest(base, k))
}

/// The nonce that mining over `base` ends on, if any nonce of 64 bits does.
pub open spec fn mined_nonce(base: Seq<char>) -> Option<u64> {
    if exists|n: u64| is_first_nonce(base, n) {
        Some(choose|n: u64| is_first_nonce(base, n))
    } else {
        None
    }
}

/// The first nonce is the only first nonce.
pub proof fn lemma_first_nonce_unique(base: Seq<char>, a: u64, b: u64)
    requires
        is_first_nonce(base, a),
        is_first_nonce(base, b),
    ensures
        a == b,
        mined_nonce(base) == Some(a),
{
    if a < b {
        assert(!meets_cost(pow_digest(base, a)));
    }
    if b < a {
        assert(!meets_cost(pow_digest(base, b)));
    }
    let c = choose|n: u64| is_first_nonce(base, n);
    if c < a {
        assert(!meets_cost(pow_digest(base, c)));
    }
    if a < c {
        assert(!meets_cost(pow_digest(base, a)));
    }
}

/// Searches the nonces 1, 2, 3, ... for the first whose digest over
/// `data` followed by the nonce in decimal starts with `COST` zeros, and
/// returns that digest with the nonce. `None` means that no nonce of 64 bits
/// gives such a digest.
pub fn hash_with_cost(data: String) -> (mined: Option<(String, u64)>)
    ensures
        match mined {
            Some((digest, nonce)) => {
                &&& is_first_nonce(data@, nonce)
                &&& digest@ == pow_digest(data@, nonce)
                &&& mined_nonce(data@) == Some(nonce)
            },
            None => mined_nonce(data@) is None,
        },
{
    let mut nonce: u64 = 0;
    while nonce < u64::MAX
        invariant
            forall|k: u64| 1 <= k <= nonce ==> !meets_cost(#[trigger] pow_digest(data@, k)),
        decreases u64::MAX - nonce,
    {
        nonce += 1;
        let candidate = data.clone().concat(decimal_string(nonce).as_str());
        let digest = hash(&candidate);
        if has_cost_prefix(digest.as_str()) {
            proof {
                lemma_first_nonce_unique(data@, nonce, nonce);
            }
            return Some((digest, nonce));
        }
    }
    None
}

/// Writes the transfers of a block as the text that its digest covers.
pub fn data_to_string(data: &Vec<DataPoint>) -> (text: String)
    ensures
        text@ == tx_text(data_views(data@)),
{
    let mut text = String::new();
    let mut i: usize = 0;
    while i < data.len()
        invariant
            i <= data.len(),
            text@ == tx_text(data_views(data@).take(i as int)),
        decreases data.len() - i,
    {
        text.append(data[i].from.as_str());
        text.append(data[i].to.as_str());
        text.append(data[i].amount.plain.as_str());
        proof {
            let views = data_views(data@);
            assert(views.take(i + 1).drop_last() =~= views.take(i as int));
        }
        i += 1;
    }
    proof {
        assert(data_views(data@).take(data.len() as int) =~= data_views(data@));
    }
    text
}

/// The text `NONE`, which stands where a genesis block has no digest.
pub open spec fn none_text() -> Seq<char> {
    seq!['N', 'O', 'N', 'E']
}

/// The text `NOONE`, the identity on both sides of the genesis transfer.
pub open spec fn noone_text() -> Seq<char> {
    seq!['N', 'O', 'O', 'N', 'E']
}

/// One link of the chain: a batch of transfers sealed by proof of work.
#[derive(Debug)]
pub struct Block {
    pub summary: String,
    pub data: Vec<DataPoint>,
    pub previous_summary: String,
    pub nonce: u64,
    pub timestamp: i64,
    pub genesis: bool,
}

/// What a [`Block`] holds.
pub struct BlockView {
    pub summary: Seq<char>,
    pub data: Seq<DataPointView>,
    pub previous_summary: Seq<char>,
    pub nonce: u64,
    pub timestamp: i64,
    pub genesis: bool,
}

impl View for Block {
    type V = BlockView;

    open spec fn view(&self) -> BlockView {
        BlockView {
            summary: self.summary@,
            data: data_views(self.data@),
            previous_summary: self.previous_summary@,
            nonce: self.nonce,
            timestamp: self.timestamp,
            genesis: self.genesis,
        }
    }
}

impl BlockView {
    /// The text that mining ran over: the transfers, then the summary of the
    /// block before.
    pub open spec fn base(self) -> Seq<char> {
        tx_text(self.data) + self.previous_summary
    }

    /// The digest that the block's fields give: over the base followed by the
    /// nonce in decimal.
    pub open spec fn digest(self) -> Seq<char> {
        pow_digest(self.base(), self.nonce)
    }

    /// A block counts as genesis exactly when its summary is `NONE`,
    /// whatever its `genesis` field says.
    pub open spec fn is_genesis(self) -> bool {
        self.summary == none_text()
    }

    /// A genesis block is valid as it stands. Any other block is valid when
    /// its summary is the digest of its fields and meets the cost.
    pub open spec fn valid(self) -> bool {
        self.is_genesis() || (self.digest() == self.summary && meets_cost(self.summary))
    }
}

/// A block that is no genesis block is valid exactly when the digest of its
/// transfers, the summary before it and its nonce is its summary, and that
/// summary starts with `COST` zeros.
pub proof fn lemma_valid_without_genesis(block: BlockView)
    requires
        !block.is_genesis(),
    ensures
        block.valid() <==> (digest_text(
            tx_text(block.data) + block.previous_summary + decimal(block.nonce as nat),
        ) == block.summary && meets_cost(block.summary)),
{
}

/// The genesis block: the same fixed fields in every chain.
pub open spec fn genesis_view() -> BlockView {
    BlockView {
        summary: none_text(),
        data: seq![
            DataPointView {
                from: noone_text(),
                to: noone_text(),
                amount: AmountView { bits: 0, plain: seq!['0'], json: seq!['0', '.', '0'] },
            },
        ],
        previous_summary: none_text(),
        nonce: 0,
        timestamp: 0,
        genesis: true,
    }
}

/// The block that sealing `data` onto `previous` at `timestamp` gives, if
/// mining finds a nonce.
pub open spec fn sealed(data: Seq<DataPointView>, previous: Seq<char>, timestamp: i64) -> Option<
    BlockView,
> {
    let base = tx_text(data) + previous;
    match mined_nonce(base) {
        Some(nonce) => Some(
            BlockView {
                summary: pow_digest(base, nonce),
                data,
                previous_summary: previous,
                nonce,
                timestamp,
                genesis: false,
            },
        ),
        None => None,
    }
}

/// A sealed block is valid, is no genesis block, and points at `previous`.
pub proof fn lemma_sealed_valid(data: Seq<DataPointView>, previous: Seq<char>, timestamp: i64)
    requires
        sealed(data, previous, timestamp) is Some,
    ensures
        sealed(data, previous, timestamp)->0.valid(),
        !sealed(data, previous, timestamp)->0.is_genesis(),
        sealed(data, previous, timestamp)->0.previous_summary == previous,
        sealed(data, previous, timestamp)->0.data == data,
{
    let base = tx_text(data) + previous;
    let b = sealed(data, previous, timestamp)->0;
    assert(b.base() == base);
    assert(meets_cost(b.summary));
    assert(b.summary[0] == '0');
    assert(none_text()[0] == 'N');
}

impl Clone for Block {
    fn clone(&self) -> (res: Self)
        ensures
            res@ == self@,
            res.data@ == self.data@,
    {
        let data = self.data.clone();
        Block {
            summary: self.summary.clone(),
            data,
            previous_summary: self.previous_summary.clone(),
            nonce: self.nonce,
            timestamp: self.timestamp,
            genesis: self.genesis,
        }
    }
}

impl Block {
    /// Puts a mined digest and nonce together with what was mined over.
    pub fn seal(
        data: Vec<DataPoint>,
        previous_hash: String,
        summary: String,
        nonce: u64,
        timestamp: i64,
    ) -> (block: Block)
        ensures
            block@ == (BlockView {
                summary: summary@,
                data: data_views(data@),
                previous_summary: previous_hash@,
                nonce,
                timestamp,
                genesis: false,
            }),
    {
        Block { summary, data, previous_summary: previous_hash, nonce, timestamp, genesis: false }
    }

    /// Mines a block for `data` on top of the block whose summary is
    /// `previous_hash`, and stamps it with the clock's time after mining.
    /// `None` means that no nonce of 64 bits seals the block.
    pub fn new(data: Vec<DataPoint>, previous_hash: String) -> (block: Option<Block>)
        ensures
            match block {
                Some(b) => sealed(data_views(data@), previous_hash@, b.timestamp) == Some(b@),
                None => mined_nonce(tx_text(data_views(data@)) + previous_hash@) is None,
            },
    {
        let base = data_to_string(&data).concat(previous_hash.as_str());
        match hash_with_cost(base) {
            Some((summary, nonce)) => {
                let timestamp = unix_now();
                Some(Block::seal(data, previous_hash, summary, nonce, timestamp))
            },
            None => None,
        }
    }

    /// The genesis block.
    pub fn new_genesis() -> (block: Block)
        ensures
            block@ == genesis_view(),
    {
        proof {
            reveal_strlit("NONE");
            reveal_strlit("NOONE");
            reveal_strlit("0");
            reveal_strlit("0.0");
        }
        let sentinel = DataPoint {
            from: "NOONE".to_owned(),
            to: "NOONE".to_owned(),
            amount: Amount { bits: 0, plain: "0".to_owned(), json: "0.0".to_owned() },
        };
        let mut data: Vec<DataPoint> = Vec::new();
        data.push(sentinel);
        let block = Block {
            summary: "NONE".to_owned(),
            data,
            previous_summary: "NONE".to_owned(),
            nonce: 0,
            timestamp: 0,
            genesis: true,
        };
        assert(block@.summary =~= none_text());
        assert(block@.previous_summary =~= none_text());
        assert(block@.data =~= genesis_view().data) by {
            assert(sentinel@.from =~= noone_text());
            assert(sentinel@.to =~= noone_text());
            assert(sentinel@.amount.plain =~= seq!['0']);
            assert(sentinel@.amount.json =~= seq!['0', '.', '0']);
        }
        block
    }

    /// Whether the block is valid: a genesis block always, any other when
    /// its summary is the digest recomputed from its fields and starts with
    /// `COST` zeros.
    pub fn verify(&self) -> (ok: bool)
        ensures
            ok == self@.valid(),
    {
        proof {
            reveal_strlit("NONE");
        }
        let none = "NONE".to_owned();
        assert(none@ =~= none_text());
        if self.summary == none {
            return true;
        }
        let text = data_to_string(&self.data).concat(self.previous_summary.as_str()).concat(
            decimal_string(self.nonce).as_str(),
        );
        let digest = hash(&text);
        digest == self.summary && has_cost_prefix(self.summary.as_str())
    }
}

} // verus!
