//! Blocks: the ledger's unit, with their proof-of-work mining.

use vstd::prelude::*;
use vstd::string::*;

use crate::digest::{hex_chars, hex_digest, i64_text, sha256_of, signed_decimal, decimal, u64_text};
use crate::clock::now_timestamp;

verus! {

/// A payload that a block can carry: it has a canonical text form, which the
/// block's hash is computed over.
pub trait Payload: Sized {
    /// The canonical text form.
    spec fn rendered(&self) -> Seq<char>;

    fn render(&self) -> (r: String)
        ensures
            r@ == self.rendered(),
    ;

    fn duplicate(&self) -> (r: Self)
        ensures
            r == *self,
    ;
}

impl Payload for String {
    open spec fn rendered(&self) -> Seq<char> {
        self@
    }

    fn render(&self) -> (r: String) {
        self.clone()
    }

    fn duplicate(&self) -> (r: Self) {
        self.clone()
    }
}

/// Whether a hash starts with `2 * difficulty` zero hex digits, that is, whether
/// the digest it encodes starts with `difficulty` zero bytes.
pub open spec fn meets_difficulty(hash: Seq<char>, difficulty: nat) -> bool {
    &&& 2 * difficulty <= hash.len()
    &&& forall|i: int| 0 <= i < 2 * difficulty ==> hash[i] == '0'
}

/// The text a block's hash is computed over: id, previous hash, timestamp,
/// nonce and payload, concatenated in that order.
pub open spec fn hash_input(
    id: u64,
    previous_hash: Seq<char>,
    timestamp: i64,
    nonce: u64,
    data: Seq<char>,
) -> Seq<char> {
    decimal(id as nat) + previous_hash + signed_decimal(timestamp as int) + decimal(nonce as nat)
        + data
}

/// Whether no nonce gives a hash meeting the difficulty to a block with this
/// id, previous hash, timestamp and payload.
pub open spec fn unminable_at(
    id: u64,
    previous_hash: Seq<char>,
    timestamp: i64,
    data: Seq<char>,
    difficulty: nat,
) -> bool {
    forall|n: u64|
        !meets_difficulty(
            #[trigger] hex_chars(sha256_of(hash_input(id, previous_hash, timestamp, n, data))),
            difficulty,
        )
}

/// Whether, at some timestamp, no nonce gives a hash meeting the difficulty
/// to a block with this id, previous hash and payload.
pub open spec fn unminable(id: u64, previous_hash: Seq<char>, data: Seq<char>, difficulty: nat) -> bool {
    exists|ts: i64| #[trigger] unminable_at(id, previous_hash, ts, data, difficulty)
}

/// A block of the ledger.
#[derive(Debug, PartialEq, Eq)]
pub struct Block<T> {
    /// The position of the block in its chain.
    pub id: u64,
    /// The hex digest computed when the block was mined.
    pub hash: String,
    /// The hash of the block before it.
    pub previous_hash: String,
    /// When the block was made, in seconds since the epoch.
    pub timestamp: i64,
    /// The counter that mining settled on.
    pub nonce: u64,
    /// What the block carries.
    pub data: T,
}

impl<T: Payload> Block<T> {
    /// The hash this block has with the given nonce.
    pub open spec fn hash_with_nonce(&self, nonce: u64) -> Seq<char> {
        hex_chars(
            sha256_of(
                hash_input(
                    self.id,
                    self.previous_hash@,
                    self.timestamp,
                    nonce,
                    self.data.rendered(),
                ),
            ),
        )
    }

    /// Whether some nonce gives this block a hash that meets the difficulty.
    pub open spec fn minable(&self, difficulty: nat) -> bool {
        exists|n: u64| meets_difficulty(#[trigger] self.hash_with_nonce(n), difficulty)
    }

    /// What mining leaves: the hash of the block's own fields with the
    /// smallest nonce that meets the difficulty, or, where none does, the
    /// last nonce.
    pub open spec fn mined(&self, difficulty: nat) -> bool {
        &&& self.hash@ == self.hash_with_nonce(self.nonce)
        &&& forall|n: u64|
            n < self.nonce ==> !meets_difficulty(#[trigger] self.hash_with_nonce(n), difficulty)
        &&& meets_difficulty(self.hash@, difficulty) || self.nonce == u64::MAX
    }

    /// Builds a block from all of its fields, as received from a peer; nothing
    /// is checked or recomputed.
    pub fn from_parts(
        id: u64,
        hash: String,
        previous_hash: String,
        timestamp: i64,
        nonce: u64,
        data: T,
    ) -> (r: Self)
        ensures
            r.id == id,
            r.hash == hash,
            r.previous_hash == previous_hash,
            r.timestamp == timestamp,
            r.nonce == nonce,
            r.data == data,
    {
        Block { id, hash, previous_hash, timestamp, nonce, data }
    }

    /// Builds a block stamped with the given time and mines it.
    pub fn new_at(id: u64, previous_hash: &str, data: T, timestamp: i64, difficulty: usize) -> (r:
        Self)
        ensures
            r.id == id,
            r.previous_hash@ == previous_hash@,
            r.timestamp == timestamp,
            r.data == data,
            r.hash@.len() == 64,
            r.mined(difficulty as nat),
            r.is_valid_spec(difficulty) <==> r.minable(difficulty as nat),
    {
        let mut block = Block {
            id,
            hash: String::new(),
            previous_hash: String::from_str(previous_hash),
            timestamp,
            nonce: 0,
            data,
        };
        block.mine(difficulty);
        block
    }

    /// Builds a block stamped with the current time and mines it.
    pub fn new(id: u64, previous_hash: &str, data: T, difficulty: usize) -> (r: Self)
        ensures
            r.id == id,
            r.previous_hash@ == previous_hash@,
            r.data == data,
            r.hash@.len() == 64,
            r.mined(difficulty as nat),
            r.is_valid_spec(difficulty) <==> r.minable(difficulty as nat),
    {
        let timestamp = now_timestamp();
        Block::new_at(id, previous_hash, data, timestamp, difficulty)
    }

    /// Builds the first block of a chain.
    pub fn genesis(data: T, difficulty: usize) -> (r: Self)
        ensures
            r.id == 0,
            r.previous_hash@ == "genesis"@,
            r.data == data,
            r.hash@.len() == 64,
            r.mined(difficulty as nat),
            r.is_valid_spec(difficulty) <==> r.minable(difficulty as nat),
    {
        Block::new(0, "genesis", data, difficulty)
    }

    /// What the block carries.
    pub fn data(&self) -> (r: &T)
        ensures
            *r == self.data,
    {
        &self.data
    }

    /// When the block was made.
    pub fn timestamp(&self) -> (r: i64)
        ensures
            r == self.timestamp,
    {
        self.timestamp
    }

    /// The nonce that mining settled on.
    pub fn nonce(&self) -> (r: u64)
        ensures
            r == self.nonce,
    {
        self.nonce
    }

    /// A copy of the block, field for field.
    pub fn duplicate(&self) -> (r: Self)
        ensures
            r == *self,
    {
        Block {
            id: self.id,
            hash: self.hash.clone(),
            previous_hash: self.previous_hash.clone(),
            timestamp: self.timestamp,
            nonce: self.nonce,
            data: self.data.duplicate(),
        }
    }

    pub open spec fn is_valid_spec(&self, difficulty: usize) -> bool {
        meets_difficulty(self.hash@, difficulty as nat)
    }

    /// Whether the stored hash starts with `2 * difficulty` zero hex digits.
    /// The hash is not recomputed.
    #[verifier::when_used_as_spec(is_valid_spec)]
    pub fn is_valid(&self, difficulty: usize) -> (r: bool)
        ensures
            r == self.is_valid_spec(difficulty),
    {
        let text = self.hash.as_str();
        let len = text.unicode_len();
        let mut k: usize = 0;
        while k < difficulty
            invariant
                k <= difficulty,
                len == self.hash@.len(),
                text@ == self.hash@,
                2 * k <= len,
                forall|i: int| 0 <= i < 2 * k ==> self.hash@[i] == '0',
            decreases difficulty - k,
        {
            if len - 2 * k < 2 {
                return false;
            }
            if text.get_char(2 * k) != '0' || text.get_char(2 * k + 1) != '0' {
                return false;
            }
            k = k + 1;
        }
        true
    }

    /// The text the hash is computed over, with the block's current nonce.
    fn hash_data(&self) -> (r: String)
        ensures
            r@ == hash_input(
                self.id,
                self.previous_hash@,
                self.timestamp,
                self.nonce,
                self.data.rendered(),
            ),
    {
        let mut text = u64_text(self.id);
        text.append(self.previous_hash.as_str());
        text.append(i64_text(self.timestamp).as_str());
        text.append(u64_text(self.nonce).as_str());
        text.append(self.data.render().as_str());
        text
    }

    /// Searches nonces upward from zero until the hash meets the difficulty.
    /// A block is mined once, when it is made.
    fn mine(&mut self, difficulty: usize)
        requires
            old(self).nonce == 0,
            old(self).hash@.len() == 0,
        ensures
            final(self).hash@.len() == 64,
            final(self).id == old(self).id,
            final(self).previous_hash == old(self).previous_hash,
            final(self).timestamp == old(self).timestamp,
            final(self).data == old(self).data,
            final(self).mined(difficulty as nat),
            final(self).is_valid_spec(difficulty) <==> final(self).minable(difficulty as nat),
    {
        loop
            invariant
                self.id == old(self).id,
                self.previous_hash == old(self).previous_hash,
                self.timestamp == old(self).timestamp,
                self.data == old(self).data,
                forall|n: u64|
                    n < self.nonce ==> !meets_difficulty(
                        #[trigger] old(self).hash_with_nonce(n),
                        difficulty as nat,
                    ),
            ensures
                self.hash@ == old(self).hash_with_nonce(self.nonce),
                self.hash@.len() == 64,
                self.is_valid_spec(difficulty) || self.nonce == u64::MAX,
            decreases u64::MAX - self.nonce,
        {
            let text = self.hash_data();
            self.hash = hex_digest(text.as_str());
            if self.is_valid(difficulty) || self.nonce == u64::MAX {
                break;
            }
            self.nonce = self.nonce + 1;
        }
        proof {
            assert forall|n: u64| #[trigger]
                self.hash_with_nonce(n) == old(self).hash_with_nonce(n) by {}
            if self.is_valid_spec(difficulty) {
                assert(meets_difficulty(self.hash_with_nonce(self.nonce), difficulty as nat));
            }
            if !self.is_valid_spec(difficulty) && self.minable(difficulty as nat) {
                let n = choose|n: u64|
                    meets_difficulty(#[trigger] self.hash_with_nonce(n), difficulty as nat);
                assert(meets_difficulty(old(self).hash_with_nonce(n), difficulty as nat));
                assert(n != self.nonce);
            }
        }
    }
}

} // verus!
