//! The chain: blocks newest first, down to the genesis block, and the
//! transfers that wait for the next block.

use vstd::prelude::*;
use crate::block::{
    data_views, genesis_view, lemma_sealed_valid, sealed, Block, BlockView, DataPoint,
    DataPointView,
};

verus! {

/// How many transfers make a block.
pub const BLOCK_SIZE: usize = 1;

/// The views of a run of blocks.
pub open spec fn block_views(blocks: Seq<Block>) -> Seq<BlockView> {
    blocks.map_values(|b: Block| b@)
}

/// One line of an identity's account: an amount that it sent or received.
/// The amount is named by its bit pattern, as [`crate::block::Amount::bits`]
/// holds it.
#[derive(Debug, Clone, Copy, PartialEq, Eq)]
pub enum Posting {
    /// The identity sent the amount.
    Debit(u64),
    /// The identity received the amount.
    Credit(u64),
}

/// What one transfer means to `id`: a debit where `id` sent it, a credit
/// where `id` received it from somebody else, nothing otherwise.
pub open spec fn entry_postings(d: DataPointView, id: Seq<char>) -> Seq<Posting> {
    if d.from == id {
        seq![Posting::Debit(d.amount.bits)]
    } else if d.to == id {
        seq![Posting::Credit(d.amount.bits)]
    } else {
        Seq::empty()
    }
}

/// The postings of `id` in a run of transfers, in order.
pub open spec fn data_postings(data: Seq<DataPointView>, id: Seq<char>) -> Seq<Posting>
    decreases data.len(),
{
    if data.len() == 0 {
        Seq::empty()
    } else {
        data_postings(data.drop_last(), id) + entry_postings(data.last(), id)
    }
}

/// The postings of `id` in a run of blocks: block after block, each block's
/// transfers in order.
pub open spec fn postings(blocks: Seq<BlockView>, id: Seq<char>) -> Seq<Posting>
    decreases blocks.len(),
{
    if blocks.len() == 0 {
        Seq::empty()
    } else {
        postings(blocks.drop_last(), id) + data_postings(blocks.last().data, id)
    }
}

/// The account of an identity is additive over blocks: the postings of two
/// runs of blocks laid end to end are the postings of the first followed by
/// those of the second.
pub proof fn lemma_postings_additive(a: Seq<BlockView>, b: Seq<BlockView>, id: Seq<char>)
    ensures
        postings(a + b, id) == postings(a, id) + postings(b, id),
    decreases b.len(),
{
    if b.len() == 0 {
        assert(a + b =~= a);
        assert(postings(a, id) + postings(b, id) =~= postings(a, id));
    } else {
        lemma_postings_additive(a, b.drop_last(), id);
        assert((a + b).drop_last() =~= a + b.drop_last());
        assert((a + b).last() == b.last());
        assert(postings(a + b, id) =~= postings(a, id) + postings(b, id));
    }
}

/// The chain of blocks and the buffer of transfers that are not in a block
/// yet.
#[derive(Debug)]
pub struct Chain {
    /// The blocks, newest first: index 0 is the tip, the last is the genesis
    /// block.
    pub blocks: Vec<Block>,
    data_buffer: Vec<DataPoint>,
}

/// What a [`Chain`] holds.
pub struct ChainView {
    pub blocks: Seq<BlockView>,
    pub data_buffer: Seq<DataPointView>,
}

impl ChainView {
    /// Each block names the summary of the block after it in the sequence,
    /// which is the block before it in time.
    pub open spec fn linked(self) -> bool {
        forall|i: int|
            0 <= i < self.blocks.len() - 1 ==> (#[trigger] self.blocks[i]).previous_summary
                == self.blocks[i + 1].summary
    }

    /// Every block is valid.
    pub open spec fn all_valid(self) -> bool {
        forall|i: int| 0 <= i < self.blocks.len() ==> (#[trigger] self.blocks[i]).valid()
    }

    /// The chain ends in the genesis block, is linked, and holds valid blocks
    /// only.
    pub open spec fn wf(self) -> bool {
        &&& self.blocks.len() >= 1
        &&& self.blocks.last() == genesis_view()
        &&& self.linked()
        &&& self.all_valid()
    }

    /// The chain with `block` put on top.
    pub open spec fn with_block(self, block: BlockView) -> ChainView {
        ChainView { blocks: seq![block] + self.blocks, data_buffer: self.data_buffer }
    }

    /// The chain after the buffer was looked at: where it holds exactly
    /// `BLOCK_SIZE` transfers and mining at `timestamp` seals them, the new
    /// block is on top and the buffer is empty; otherwise nothing changes.
    pub open spec fn after_check(self, timestamp: i64) -> ChainView {
        if self.data_buffer.len() == BLOCK_SIZE {
            match sealed(self.data_buffer, self.blocks[0].summary, timestamp) {
                Some(block) => ChainView {
                    blocks: seq![block] + self.blocks,
                    data_buffer: Seq::empty(),
                },
                None => self,
            }
        } else {
            self
        }
    }

    /// The chain after a transfer was taken in for `from`: the transfer,
    /// with `from` as its sender, goes to the front of the buffer, and the
    /// buffer is looked at.
    pub open spec fn after_add(self, from: Seq<char>, data: DataPointView, timestamp: i64)
        -> ChainView {
        let entry = DataPointView { from, to: data.to, amount: data.amount };
        (ChainView { blocks: self.blocks, data_buffer: seq![entry] + self.data_buffer })
            .after_check(timestamp)
    }
}

/// Looking at the buffer keeps a well-formed chain well-formed.
pub proof fn lemma_check_keeps_wf(chain: ChainView, timestamp: i64)
    requires
        chain.wf(),
    ensures
        chain.after_check(timestamp).wf(),
{
    let after = chain.after_check(timestamp);
    if chain.data_buffer.len() == BLOCK_SIZE {
        let mined = sealed(chain.data_buffer, chain.blocks[0].summary, timestamp);
        if let Some(block) = mined {
            lemma_sealed_valid(chain.data_buffer, chain.blocks[0].summary, timestamp);
            assert(after.blocks.last() == chain.blocks.last());
            assert forall|i: int| 0 <= i < after.blocks.len() - 1 implies (
            #[trigger] after.blocks[i]).previous_summary == after.blocks[i + 1].summary by {
                if i > 0 {
                    assert(after.blocks[i] == chain.blocks[i - 1]);
                    assert(after.blocks[i + 1] == chain.blocks[i]);
                }
            }
            assert forall|i: int| 0 <= i < after.blocks.len() implies (
            #[trigger] after.blocks[i]).valid() by {
                if i > 0 {
                    assert(after.blocks[i] == chain.blocks[i - 1]);
                }
            }
        }
    }
}

/// Taking in a transfer keeps a well-formed chain well-formed: whatever is
/// added, each block still names the summary of the block before it in time.
pub proof fn lemma_add_keeps_wf(
    chain: ChainView,
    from: Seq<char>,
    data: DataPointView,
    timestamp: i64,
)
    requires
        chain.wf(),
    ensures
        chain.after_add(from, data, timestamp).wf(),
        chain.after_add(from, data, timestamp).linked(),
{
    let entry = DataPointView { from, to: data.to, amount: data.amount };
    let filled = ChainView { blocks: chain.blocks, data_buffer: seq![entry] + chain.data_buffer };
    lemma_check_keeps_wf(filled, timestamp);
}

/// One call of `add_data`, as the chain sees it: who signed, what was
/// handed in, and the time that a block mined for it is stamped with.
pub struct Addition {
    pub from: Seq<char>,
    pub data: DataPointView,
    pub timestamp: i64,
}

/// The chain that a new chain becomes by a run of additions.
pub open spec fn grown(additions: Seq<Addition>) -> ChainView
    decreases additions.len(),
{
    if additions.len() == 0 {
        ChainView { blocks: seq![genesis_view()], data_buffer: Seq::empty() }
    } else {
        let last = additions.last();
        grown(additions.drop_last()).after_add(last.from, last.data, last.timestamp)
    }
}

/// Whatever is added to a new chain, and in whatever order, every block but
/// the last names the summary of the block that follows it in the sequence,
/// the last is the genesis block, and every block is valid.
pub proof fn lemma_grown_chain_is_linked(additions: Seq<Addition>)
    ensures
        grown(additions).wf(),
        forall|k: int|
            0 <= k < grown(additions).blocks.len() - 1 ==> (#[trigger] grown(
                additions,
            ).blocks[k]).previous_summary == grown(additions).blocks[k + 1].summary,
    decreases additions.len(),
{
    if additions.len() > 0 {
        let last = additions.last();
        lemma_grown_chain_is_linked(additions.drop_last());
        lemma_add_keeps_wf(grown(additions.drop_last()), last.from, last.data, last.timestamp);
    } else {
        assert(genesis_view().valid());
    }
}

impl View for Chain {
    type V = ChainView;

    closed spec fn view(&self) -> ChainView {
        ChainView { blocks: block_views(self.blocks@), data_buffer: data_views(self.data_buffer@) }
    }
}

impl Chain {
    /// A chain of the genesis block alone, with an empty buffer.
    pub fn new() -> (chain: Chain)
        ensures
            chain@.blocks == seq![genesis_view()],
            chain@.data_buffer == Seq::<DataPointView>::empty(),
            chain@.wf(),
    {
        let mut chain = Chain { blocks: Vec::new(), data_buffer: Vec::new() };
        chain.create_genesis();
        chain
    }

    /// Wraps blocks that came from elsewhere, as they are. Nothing is
    /// checked: `verify` does that.
    pub fn from_vec(blocks: Vec<Block>) -> (chain: Chain)
        ensures
            chain@.blocks == block_views(blocks@),
            chain@.data_buffer == Seq::<DataPointView>::empty(),
    {
        let chain = Chain { blocks, data_buffer: Vec::new() };
        chain
    }

    /// Puts the genesis block at the old end of the chain.
    pub fn create_genesis(&mut self)
        ensures
            final(self)@.blocks == old(self)@.blocks.push(genesis_view()),
            final(self)@.data_buffer == old(self)@.data_buffer,
    {
        self.blocks.push(Block::new_genesis());
    }

    /// The number of blocks.
    pub fn len(&self) -> (n: usize)
        ensures
            n == self@.blocks.len(),
    {
        self.blocks.len()
    }

    /// The tip: the newest block.
    pub fn last(&self) -> (tip: &Block)
        requires
            self@.blocks.len() > 0,
        ensures
            tip@ == self@.blocks[0],
    {
        &self.blocks[0]
    }

    /// Puts `block` on top of the chain.
    pub fn prepend_block(&mut self, block: Block)
        ensures
            final(self)@ == old(self)@.with_block(block@),
    {
        self.blocks.insert(0, block);
        assert(self@.blocks =~= seq![block@] + old(self)@.blocks);
    }

    fn create_block(&mut self)
        requires
            old(self)@.blocks.len() > 0,
        ensures
            match sealed(
                old(self)@.data_buffer,
                old(self)@.blocks[0].summary,
                final(self)@.blocks[0].timestamp,
            ) {
                Some(block) => final(self)@ == (ChainView {
                    blocks: seq![block] + old(self)@.blocks,
                    data_buffer: Seq::empty(),
                }),
                None => final(self)@ == old(self)@,
            },
    {
        let data = self.data_buffer.clone();
        let previous = self.last().summary.clone();
        match Block::new(data, previous) {
            Some(block) => {
                self.prepend_block(block);
                self.data_buffer.clear();
                assert(self@.data_buffer =~= Seq::<DataPointView>::empty());
            },
            None => {},
        }
    }

    fn check_buffer(&mut self)
        requires
            old(self)@.blocks.len() > 0,
        ensures
            final(self)@ == old(self)@.after_check(final(self)@.blocks[0].timestamp),
    {
        if self.data_buffer.len() == BLOCK_SIZE {
            self.create_block();
        }
    }

    /// Takes in a transfer that `from` signed: `from` becomes its sender,
    /// whatever sender it named, and it goes to the front of the buffer. Once
    /// the buffer holds `BLOCK_SIZE` transfers they are mined into a new
    /// block on top of the tip, and the buffer is emptied. Should no nonce
    /// seal the block, the transfers stay in the buffer.
    pub fn add_data(&mut self, from: String, data: DataPoint)
        requires
            old(self)@.blocks.len() > 0,
        ensures
            final(self)@ == old(self)@.after_add(
                from@,
                data@,
                final(self)@.blocks[0].timestamp,
            ),
            old(self)@.wf() ==> final(self)@.wf(),
    {
        let mut data = data;
        data.from = from;
        self.data_buffer.insert(0, data);
        assert(self@.data_buffer =~= seq![data@] + old(self)@.data_buffer);
        self.check_buffer();
        proof {
            if old(self)@.wf() {
                lemma_add_keeps_wf(old(self)@, from@, data@, self@.blocks[0].timestamp);
            }
        }
    }

    /// Whether every block of the chain is valid.
    pub fn verify(&mut self) -> (ok: bool)
        ensures
            *final(self) == *old(self),
            ok == old(self)@.all_valid(),
    {
        let mut i: usize = 0;
        while i < self.blocks.len()
            invariant
                i <= self.blocks.len(),
                *self == *old(self),
                forall|j: int| 0 <= j < i ==> (#[trigger] self@.blocks[j]).valid(),
            decreases self.blocks.len() - i,
        {
            if !self.blocks[i].verify() {
                assert(!self@.blocks[i as int].valid());
                return false;
            }
            i += 1;
        }
        true
    }

    /// The account of `pubkey`: for each transfer in the chain's blocks that
    /// `pubkey` sent, a debit, and for each that it received from somebody
    /// else, a credit, in the order of the chain. The balance is the credits
    /// less the debits, added up in this order by whoever holds the numbers.
    pub fn check_balance(&mut self, pubkey: String) -> (account: Vec<Posting>)
        ensures
            *final(self) == *old(self),
            account@ == postings(old(self)@.blocks, pubkey@),
    {
        let mut account: Vec<Posting> = Vec::new();
        let mut i: usize = 0;
        while i < self.blocks.len()
            invariant
                i <= self.blocks.len(),
                *self == *old(self),
                account@ == postings(self@.blocks.take(i as int), pubkey@),
            decreases self.blocks.len() - i,
        {
            let ghost before = account@;
            let mut k: usize = 0;
            while k < self.blocks[i].data.len()
                invariant
                    i < self.blocks.len(),
                    k <= self.blocks[i as int].data.len(),
                    *self == *old(self),
                    account@ == before + data_postings(
                        self@.blocks[i as int].data.take(k as int),
                        pubkey@,
                    ),
                decreases self.blocks[i as int].data.len() - k,
            {
                let d = &self.blocks[i].data[k];
                if d.from == pubkey {
                    account.push(Posting::Debit(d.amount.bits));
                } else if d.to == pubkey {
                    account.push(Posting::Credit(d.amount.bits));
                }
                proof {
                    let data = self@.blocks[i as int].data;
                    assert(data.take(k + 1).drop_last() =~= data.take(k as int));
                }
                k += 1;
            }
            proof {
                let blocks = self@.blocks;
                assert(blocks[i as int].data.take(k as int) =~= blocks[i as int].data);
                assert(blocks.take(i + 1).drop_last() =~= blocks.take(i as int));
            }
            i += 1;
        }
        proof {
            assert(self@.blocks.take(i as int) =~= self@.blocks);
        }
        account
    }

    /// A copy of the blocks, newest first.
    pub fn to_vec(&mut self) -> (blocks: Vec<Block>)
        ensures
            *final(self) == *old(self),
            block_views(blocks@) == old(self)@.blocks,
    {
        let blocks = self.blocks.clone();
        blocks
    }
}

} // verus!
