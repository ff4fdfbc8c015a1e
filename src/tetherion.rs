//! Chains of blocks and their link-by-link validation.

use vstd::prelude::*;

use crate::block::{meets_difficulty, Block, Payload};
use crate::digest::{decimal, u64_text, usize_text};

verus! {

/// Why a block cannot follow another.
#[derive(Debug, PartialEq, Eq, Structural)]
pub enum InvalidBlockError {
    /// The block's id is not one more than the previous block's.
    InvalidBlockId { id: u64, previous_id: u64 },
    /// The block does not name the previous block's hash.
    InvalidPreviousHash { id: u64 },
    /// The block's hash does not meet the chain's difficulty.
    InvalidDifficulty { id: u64, difficulty: usize },
}

/// The human-readable text of an error.
pub open spec fn error_text(e: InvalidBlockError) -> Seq<char> {
    match e {
        InvalidBlockError::InvalidBlockId { id, previous_id } => "Block with ID "@ + decimal(
            id as nat,
        ) + " does not follow up previous block's ID "@ + decimal(previous_id as nat),
        InvalidBlockError::InvalidPreviousHash { id } => "Block with ID "@ + decimal(id as nat)
            + " has the wrong previous hash"@,
        InvalidBlockError::InvalidDifficulty { id, difficulty } => "Block with ID "@ + decimal(
            id as nat,
        ) + " does not satisfy difficulty of "@ + decimal(difficulty as nat),
    }
}

impl InvalidBlockError {
    /// The human-readable text of the error.
    pub fn message(&self) -> (r: String)
        ensures
            r@ == error_text(*self),
    {
        let mut text = String::from_str("Block with ID ");
        match self {
            InvalidBlockError::InvalidBlockId { id, previous_id } => {
                text.append(u64_text(*id).as_str());
                text.append(" does not follow up previous block's ID ");
                text.append(u64_text(*previous_id).as_str());
            },
            InvalidBlockError::InvalidPreviousHash { id } => {
                text.append(u64_text(*id).as_str());
                text.append(" has the wrong previous hash");
            },
            InvalidBlockError::InvalidDifficulty { id, difficulty } => {
                text.append(u64_text(*id).as_str());
                text.append(" does not satisfy difficulty of ");
                text.append(usize_text(*difficulty).as_str());
            },
        }
        text
    }
}

/// The outcome of checking `block` as the successor of `previous`: the id
/// first, then the link, then the difficulty.
pub open spec fn block_check<T: Payload>(
    previous: Block<T>,
    block: Block<T>,
    difficulty: usize,
) -> Result<(), InvalidBlockError> {
    if block.id != previous.id + 1 {
        Err(InvalidBlockError::InvalidBlockId { id: block.id, previous_id: previous.id })
    } else if block.previous_hash@ != previous.hash@ {
        Err(InvalidBlockError::InvalidPreviousHash { id: block.id })
    } else if !block.is_valid_spec(difficulty) {
        Err(InvalidBlockError::InvalidDifficulty { id: block.id, difficulty })
    } else {
        Ok(())
    }
}

/// The outcome of checking the pairs of `blocks` that end before index `upto`,
/// in order: the first failure, or success.
pub open spec fn chain_check_upto<T: Payload>(
    blocks: Seq<Block<T>>,
    difficulty: usize,
    upto: int,
) -> Result<(), InvalidBlockError>
    decreases upto,
{
    if upto <= 1 {
        Ok(())
    } else {
        match chain_check_upto(blocks, difficulty, upto - 1) {
            Err(e) => Err(e),
            Ok(()) => block_check(blocks[upto - 2], blocks[upto - 1], difficulty),
        }
    }
}

/// The outcome of checking every block after the first against the one before.
pub open spec fn chain_check<T: Payload>(blocks: Seq<Block<T>>, difficulty: usize) -> Result<
    (),
    InvalidBlockError,
> {
    chain_check_upto(blocks, difficulty, blocks.len() as int)
}

/// Every block after the first follows the one before it.
pub open spec fn chain_valid<T: Payload>(blocks: Seq<Block<T>>, difficulty: usize) -> bool {
    forall|i: int| 1 <= i < blocks.len() ==> #[trigger] block_check(blocks[i - 1], blocks[i], difficulty) is Ok
}

/// A chain of blocks, never empty, with the difficulty every block after the
/// first must meet.
#[derive(Debug)]
pub struct Tetherion<T> {
    blocks: Vec<Block<T>>,
    difficulty: usize,
}

impl<T: Payload> Tetherion<T> {
    /// The blocks, in chain order.
    pub closed spec fn spec_blocks(&self) -> Seq<Block<T>> {
        self.blocks@
    }

    pub closed spec fn spec_difficulty(&self) -> usize {
        self.difficulty
    }

    /// A chain is never empty.
    pub open spec fn wf(&self) -> bool {
        self.spec_blocks().len() >= 1
    }

    /// The outcome of validating the whole chain.
    pub open spec fn validity(&self) -> Result<(), InvalidBlockError> {
        chain_check(self.spec_blocks(), self.spec_difficulty())
    }

    pub open spec fn valid(&self) -> bool {
        chain_valid(self.spec_blocks(), self.spec_difficulty())
    }

    /// The timestamp of the first block.
    pub open spec fn spec_creation_timestamp(&self) -> i64 {
        self.spec_blocks()[0].timestamp
    }

    /// A chain holding just a freshly mined genesis block.
    pub fn new(genesis_data: T, difficulty: usize) -> (r: Self)
        ensures
            r.wf(),
            r.spec_difficulty() == difficulty,
            r.spec_blocks().len() == 1,
            r.spec_blocks()[0].id == 0,
            r.spec_blocks()[0].previous_hash@ == "genesis"@,
            r.spec_blocks()[0].data == genesis_data,
            r.spec_blocks()[0].mined(difficulty as nat),
            r.spec_blocks()[0].hash@.len() == 64,
            r.valid(),
            r.validity() is Ok,
    {
        let genesis = Block::genesis(genesis_data, difficulty);
        let blocks = vec![genesis];
        Tetherion { blocks, difficulty }
    }

    /// A chain made of the given blocks and difficulty, as received from a
    /// peer; nothing is checked. `None` when there are no blocks.
    pub fn from_parts(blocks: Vec<Block<T>>, difficulty: usize) -> (r: Option<Self>)
        ensures
            blocks@.len() == 0 <==> r is None,
            r matches Some(t) ==> t.wf() && t.spec_blocks() == blocks@ && t.spec_difficulty() == difficulty,
    {
        if blocks.len() == 0 {
            None
        } else {
            Some(Tetherion { blocks, difficulty })
        }
    }

    /// A copy of the chain, block for block.
    pub fn duplicate(&self) -> (r: Self)
        requires
            self.wf(),
        ensures
            r.wf(),
            r.spec_blocks() == self.spec_blocks(),
            r.spec_difficulty() == self.spec_difficulty(),
    {
        let n = self.blocks.len();
        let mut blocks: Vec<Block<T>> = Vec::new();
        let mut i: usize = 0;
        while i < n
            invariant
                i <= n,
                n == self.blocks@.len(),
                blocks@ == self.blocks@.subrange(0, i as int),
            decreases n - i,
        {
            blocks.push(self.blocks[i].duplicate());
            i = i + 1;
        }
        assert(blocks@ == self.blocks@);
        Tetherion { blocks, difficulty: self.difficulty }
    }

    /// The blocks, in chain order.
    pub fn blocks(&self) -> (r: &Vec<Block<T>>)
        ensures
            r@ == self.spec_blocks(),
    {
        &self.blocks
    }

    /// The difficulty every block after the first must meet.
    pub fn difficulty(&self) -> (r: usize)
        ensures
            r == self.spec_difficulty(),
    {
        self.difficulty
    }

    /// When the chain was started: the timestamp of its first block.
    pub fn creation_timestamp(&self) -> (r: i64)
        requires
            self.wf(),
        ensures
            r == self.spec_creation_timestamp(),
    {
        self.blocks[0].timestamp
    }

    /// Checks `block` as the successor of `previous_block`: the id first, then
    /// the link to the previous hash, then the difficulty.
    fn is_valid_block(previous_block: &Block<T>, block: &Block<T>, difficulty: usize) -> (r: Result<
        (),
        InvalidBlockError,
    >)
        ensures
            r == block_check(*previous_block, *block, difficulty),
    {
        if previous_block.id == u64::MAX || block.id != previous_block.id + 1 {
            Err(InvalidBlockError::InvalidBlockId { id: block.id, previous_id: previous_block.id })
        } else if block.previous_hash != previous_block.hash {
            Err(InvalidBlockError::InvalidPreviousHash { id: block.id })
        } else if !block.is_valid(difficulty) {
            Err(InvalidBlockError::InvalidDifficulty { id: block.id, difficulty })
        } else {
            Ok(())
        }
    }

    /// Appends `block` if it follows the last block; otherwise leaves the chain
    /// as it was and says why.
    pub fn add_block(&mut self, block: Block<T>) -> (r: Result<(), InvalidBlockError>)
        requires
            old(self).wf(),
        ensures
            final(self).wf(),
            r == block_check(old(self).spec_blocks().last(), block, old(self).spec_difficulty()),
            r is Ok ==> final(self).spec_blocks() == old(self).spec_blocks().push(block),
            r is Err ==> *final(self) == *old(self),
            final(self).spec_difficulty() == old(self).spec_difficulty(),
            old(self).valid() ==> final(self).valid(),
    {
        let last = self.blocks.len() - 1;
        let checked = Tetherion::is_valid_block(&self.blocks[last], &block, self.difficulty);
        match checked {
            Ok(()) => {
                proof {
                    if chain_valid(self.blocks@, self.difficulty) {
                        lemma_push_keeps_valid(self.blocks@, block, self.difficulty);
                    }
                }
                self.blocks.push(block);
                Ok(())
            },
            Err(e) => Err(e),
        }
    }

    /// Validates every block after the first against the one before it and
    /// returns the first failure found. The chain is not changed.
    pub fn is_valid(&self) -> (r: Result<(), InvalidBlockError>)
        requires
            self.wf(),
        ensures
            r == self.validity(),
            r is Ok <==> self.valid(),
    {
        let n = self.blocks.len();
        let mut i: usize = 1;
        while i < n
            invariant
                1 <= i <= n,
                n == self.blocks@.len(),
                chain_check_upto(self.blocks@, self.difficulty, i as int) is Ok,
                forall|j: int| 1 <= j < i ==> #[trigger] block_check(self.blocks@[j - 1], self.blocks@[j], self.difficulty) is Ok,
            decreases n - i,
        {
            let checked = Tetherion::is_valid_block(&self.blocks[i - 1], &self.blocks[i], self.difficulty);
            match checked {
                Ok(()) => {},
                Err(e) => {
                    proof {
                        lemma_check_failure_sticks(self.blocks@, self.difficulty, i as int + 1);
                    }
                    return Err(e);
                },
            }
            i = i + 1;
        }
        Ok(())
    }
}

/// Validating a chain succeeds exactly when every block follows the one before.
pub proof fn lemma_validity_ok_iff_valid<T: Payload>(blocks: Seq<Block<T>>, difficulty: usize)
    ensures
        chain_check(blocks, difficulty) is Ok <==> chain_valid(blocks, difficulty),
{
    lemma_check_upto_ok(blocks, difficulty, blocks.len() as int);
}

proof fn lemma_check_upto_ok<T: Payload>(blocks: Seq<Block<T>>, difficulty: usize, upto: int)
    requires
        upto <= blocks.len(),
    ensures
        chain_check_upto(blocks, difficulty, upto) is Ok <==> forall|i: int|
            1 <= i < upto ==> #[trigger] block_check(blocks[i - 1], blocks[i], difficulty) is Ok,
    decreases upto,
{
    if upto > 1 {
        lemma_check_upto_ok(blocks, difficulty, upto - 1);
    }
}

/// Once a prefix check fails, every longer check reports the same failure.
proof fn lemma_check_failure_sticks<T: Payload>(blocks: Seq<Block<T>>, difficulty: usize, from: int)
    requires
        chain_check_upto(blocks, difficulty, from) is Err,
        from <= blocks.len(),
    ensures
        chain_check_upto(blocks, difficulty, blocks.len() as int) == chain_check_upto(blocks, difficulty, from),
    decreases blocks.len() - from,
{
    if from < blocks.len() {
        lemma_check_failure_sticks(blocks, difficulty, from + 1);
    }
}

/// A chain that validates still validates after a block that follows its last
/// block is appended; so every chain grown from a genesis block by successful
/// appends validates.
pub proof fn lemma_appended_chain_validates<T: Payload>(
    blocks: Seq<Block<T>>,
    block: Block<T>,
    difficulty: usize,
)
    requires
        blocks.len() >= 1,
        chain_check(blocks, difficulty) is Ok,
        block_check(blocks.last(), block, difficulty) is Ok,
    ensures
        chain_check(blocks.push(block), difficulty) is Ok,
{
    lemma_validity_ok_iff_valid(blocks, difficulty);
    lemma_push_keeps_valid(blocks, block, difficulty);
    lemma_validity_ok_iff_valid(blocks.push(block), difficulty);
}

/// A chain grown from a single genesis block by any number of appends, each
/// of which passed the checks against the chain's last block (as `add_block`
/// reports with `Ok`), validates at every stage. `history[i + 1]` is
/// `history[i]` with `added[i]` appended.
pub proof fn lemma_grown_chain_validates<T: Payload>(
    history: Seq<Seq<Block<T>>>,
    added: Seq<Block<T>>,
    difficulty: usize,
)
    requires
        history.len() == added.len() + 1,
        history[0].len() == 1,
        forall|i: int|
            0 <= i < added.len() ==> #[trigger] history[i + 1] == history[i].push(added[i]),
        forall|i: int|
            0 <= i < added.len() ==> #[trigger] block_check(history[i].last(), added[i], difficulty)
                is Ok,
    ensures
        forall|i: int| 0 <= i < history.len() ==> #[trigger] chain_check(history[i], difficulty) is Ok,
        forall|i: int| 0 <= i < history.len() ==> #[trigger] history[i].len() == i + 1,
    decreases added.len(),
{
    if added.len() > 0 {
        let k = added.len() - 1;
        let earlier = history.take(history.len() - 1);
        assert forall|i: int| 0 <= i < k implies #[trigger] earlier[i + 1] == earlier[i].push(
            added.take(k)[i],
        ) by {
            assert(history[i + 1] == history[i].push(added[i]));
        }
        assert forall|i: int| 0 <= i < k implies #[trigger] block_check(
            earlier[i].last(),
            added.take(k)[i],
            difficulty,
        ) is Ok by {
            assert(block_check(history[i].last(), added[i], difficulty) is Ok);
        }
        lemma_grown_chain_validates(earlier, added.take(k), difficulty);
        assert(chain_check(earlier[k], difficulty) is Ok);
        assert(earlier[k].len() == k + 1);
        assert(history[k + 1] == history[k].push(added[k]));
        assert(block_check(history[k].last(), added[k], difficulty) is Ok);
        lemma_appended_chain_validates(history[k], added[k], difficulty);
        assert forall|i: int| 0 <= i < history.len() implies #[trigger] chain_check(history[i], difficulty)
            is Ok by {
            if i < history.len() - 1 {
                assert(earlier[i] == history[i]);
            }
        }
        assert forall|i: int| 0 <= i < history.len() implies #[trigger] history[i].len() == i + 1 by {
            if i < history.len() - 1 {
                assert(earlier[i] == history[i]);
            }
        }
    } else {
        assert(chain_check(history[0], difficulty) is Ok);
    }
}

/// A block whose id does not follow the previous block's is turned down for
/// its id, whatever else is wrong with it.
pub proof fn lemma_wrong_id_rejected<T: Payload>(
    previous: Block<T>,
    block: Block<T>,
    difficulty: usize,
)
    requires
        block.id != previous.id + 1,
    ensures
        block_check(previous, block, difficulty) == Err::<(), InvalidBlockError>(
            InvalidBlockError::InvalidBlockId { id: block.id, previous_id: previous.id },
        ),
{
}

/// A block with the right id that does not name the previous block's hash is
/// turned down for its link, whatever its own hash.
pub proof fn lemma_wrong_link_rejected<T: Payload>(
    previous: Block<T>,
    block: Block<T>,
    difficulty: usize,
)
    requires
        block.id == previous.id + 1,
        block.previous_hash@ != previous.hash@,
    ensures
        block_check(previous, block, difficulty) == Err::<(), InvalidBlockError>(
            InvalidBlockError::InvalidPreviousHash { id: block.id },
        ),
{
}

/// A correctly linked block whose hash does not meet the difficulty is turned
/// down for its difficulty.
pub proof fn lemma_weak_hash_rejected<T: Payload>(
    previous: Block<T>,
    block: Block<T>,
    difficulty: usize,
)
    requires
        block.id == previous.id + 1,
        block.previous_hash@ == previous.hash@,
        !meets_difficulty(block.hash@, difficulty as nat),
    ensures
        block_check(previous, block, difficulty) == Err::<(), InvalidBlockError>(
            InvalidBlockError::InvalidDifficulty { id: block.id, difficulty },
        ),
{
}

/// Appending a block that follows the last one keeps a valid chain valid.
pub proof fn lemma_push_keeps_valid<T: Payload>(blocks: Seq<Block<T>>, block: Block<T>, difficulty: usize)
    requires
        blocks.len() >= 1,
        chain_valid(blocks, difficulty),
        block_check(blocks.last(), block, difficulty) is Ok,
    ensures
        chain_valid(blocks.push(block), difficulty),
{
    let pushed = blocks.push(block);
    assert forall|i: int| 1 <= i < pushed.len() implies #[trigger] block_check(pushed[i - 1], pushed[i], difficulty) is Ok by {
        if i < blocks.len() {
            assert(pushed[i - 1] == blocks[i - 1] && pushed[i] == blocks[i]);
            assert(block_check(blocks[i - 1], blocks[i], difficulty) is Ok);
        }
    }
}

} // verus!
