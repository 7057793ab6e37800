//! Blocks: what they hash, and how a nonce is found that seals them.

use crate::clock::unix_millis;
use crate::crypto::{hex_encode, sha256_digest};
use crate::error::{BlockchainError, ErrorView};
use crate::text::push_decimal;
use crate::transaction::{clone_list, push_list_text, Transaction, TransactionView};
use vstd::prelude::*;
use vstd::string::{StrSliceExecFns, StringExecFns};

verus! {

/// How many zeros the hash of a new block begins with.
pub const DIFFICULTY: usize = 2;

/// A block of the chain.
#[derive(Debug)]
pub struct Block {
    /// The position in the chain.
    pub index: u32,
    /// When the block was made, in milliseconds since the Unix epoch.
    pub timestamp: u128,
    /// The transactions of the block.
    pub transactions: Vec<Transaction>,
    /// The hash of the block before this one.
    pub previous_hash: String,
    /// The hash of this block.
    pub hash: String,
    /// The number that mining varies.
    pub nonce: u64,
    /// The wallet that gets the fees.
    pub miner_wallet: String,
}

/// The mathematical model of a [`Block`].
pub struct BlockView {
    pub index: u32,
    pub timestamp: u128,
    pub transactions: Seq<TransactionView>,
    pub previous_hash: Seq<char>,
    pub hash: Seq<char>,
    pub nonce: u64,
    pub miner_wallet: Seq<char>,
}

impl View for Block {
    type V = BlockView;

    open spec fn view(&self) -> BlockView {
        BlockView {
            index: self.index,
            timestamp: self.timestamp,
            transactions: crate::transaction::views(self.transactions@),
            previous_hash: self.previous_hash@,
            hash: self.hash@,
            nonce: self.nonce,
            miner_wallet: self.miner_wallet@,
        }
    }
}

/// Whether `s` begins with `n` zeros.
pub open spec fn begins_with_zeros(s: Seq<char>, n: nat) -> bool {
    &&& n <= s.len()
    &&& forall|i: int| 0 <= i < n ==> #[trigger] s[i] == '0'
}

impl BlockView {
    /// A block that was not mined yet.
    pub open spec fn template(
        index: u32,
        timestamp: u128,
        transactions: Seq<TransactionView>,
        previous_hash: Seq<char>,
        miner_wallet: Seq<char>,
    ) -> BlockView {
        BlockView {
            index,
            timestamp,
            transactions,
            previous_hash,
            hash: Seq::empty(),
            nonce: 0,
            miner_wallet,
        }
    }

    /// The text that is hashed: every field but the hash, one after the other.
    pub open spec fn preimage(self) -> Seq<char> {
        crate::text::decimal(self.index as nat) + crate::text::decimal(self.timestamp as nat)
            + crate::transaction::list_text(self.transactions) + self.previous_hash
            + crate::text::decimal(self.nonce as nat) + self.miner_wallet
    }

    /// The hash that belongs to the block's content, whatever the field `hash` holds.
    pub open spec fn content_hash(self) -> Seq<char> {
        crate::crypto::hex_text(
            crate::crypto::sha256(vstd::utf8::encode_utf8(self.preimage())),
        )
    }

    /// The block with another nonce.
    pub open spec fn with_nonce(self, nonce: u64) -> BlockView {
        BlockView { nonce, ..self }
    }

    /// Whether `nonce` gives the block a hash that begins with `difficulty` zeros.
    pub open spec fn seals(self, nonce: u64, difficulty: nat) -> bool {
        begins_with_zeros(self.with_nonce(nonce).content_hash(), difficulty)
    }

    /// Whether `nonce` is the first, from the block's own nonce on, that seals the block.
    pub open spec fn first_seal(self, nonce: u64, difficulty: nat) -> bool {
        &&& self.nonce <= nonce
        &&& self.seals(nonce, difficulty)
        &&& forall|m: u64| self.nonce <= m < nonce ==> !#[trigger] self.seals(m, difficulty)
    }

    /// Whether some nonce, from the block's own nonce on, seals the block.
    pub open spec fn can_be_sealed(self, difficulty: nat) -> bool {
        exists|n: u64| self.nonce <= n && #[trigger] self.seals(n, difficulty)
    }

    /// Whether `mined` is this block with the first nonce that seals it and the hash that
    /// belongs to it.
    pub open spec fn mined_into(self, mined: BlockView, difficulty: nat) -> bool {
        &&& self.first_seal(mined.nonce, difficulty)
        &&& mined == (BlockView {
            nonce: mined.nonce,
            hash: self.with_nonce(mined.nonce).content_hash(),
            ..self
        })
    }
}

/// Whether `s` begins with `n` zeros.
fn has_zeros(s: &str, n: usize) -> (r: bool)
    requires
        n <= s@.len(),
    ensures
        r == begins_with_zeros(s@, n as nat),
{
    let mut i: usize = 0;
    while i < n
        invariant
            i <= n <= s@.len(),
            forall|j: int| 0 <= j < i ==> #[trigger] s@[j] == '0',
        decreases n - i,
    {
        if s.get_char(i) != '0' {
            assert(s@[i as int] != '0');
            return false;
        }
        i += 1;
    }
    true
}

impl Clone for Block {
    fn clone(&self) -> (r: Self)
        ensures
            r@ == self@,
    {
        Block {
            index: self.index,
            timestamp: self.timestamp,
            transactions: clone_list(&self.transactions),
            previous_hash: self.previous_hash.clone(),
            hash: self.hash.clone(),
            nonce: self.nonce,
            miner_wallet: self.miner_wallet.clone(),
        }
    }
}

impl Block {
    /// Makes and mines the block, with the time that `clock` gives.
    ///
    /// A clock that failed gives [`BlockchainError::IoError`] with its message.
    pub fn new_at(
        index: u32,
        transactions: Vec<Transaction>,
        previous_hash: String,
        miner_wallet: String,
        clock: Result<u128, String>,
    ) -> (r: Result<Block, BlockchainError>)
        ensures
            match clock {
                Err(message) => r matches Err(e) && e@ == ErrorView::IoError(message@),
                Ok(timestamp) => {
                    let template = BlockView::template(
                        index,
                        timestamp,
                        crate::transaction::views(transactions@),
                        previous_hash@,
                        miner_wallet@,
                    );
                    if template.can_be_sealed(DIFFICULTY as nat) {
                        r matches Ok(block) && template.mined_into(block@, DIFFICULTY as nat)
                    } else {
                        r matches Err(e) && e@ == ErrorView::NonceExhausted
                    }
                },
            },
            r matches Ok(block) ==> {
                &&& block.index == index
                &&& clock matches Ok(timestamp) && block.timestamp == timestamp
                &&& crate::transaction::views(block.transactions@) == crate::transaction::views(
                    transactions@,
                )
                &&& block.previous_hash@ == previous_hash@
                &&& block.miner_wallet@ == miner_wallet@
                &&& block.hash@ == block@.content_hash()
                &&& block.hash@.len() == 64 && block.hash@[0] == '0' && block.hash@[1] == '0'
            },
    {
        match clock {
            Err(message) => Err(BlockchainError::IoError(message)),
            Ok(timestamp) => {
                let mut block = Block {
                    index,
                    timestamp,
                    transactions,
                    previous_hash,
                    hash: String::new(),
                    nonce: 0,
                    miner_wallet,
                };
                if block.try_mine_block(DIFFICULTY) {
                    assert(block@.content_hash() == block@.hash);
                    assert(block@.hash[0] == '0' && block@.hash[1] == '0');
                    Ok(block)
                } else {
                    Err(BlockchainError::NonceExhausted)
                }
            },
        }
    }

    /// Makes and mines the block, with the present time.
    ///
    /// The result is that of [`Block::new_at`] on what the clock gave.
    pub fn new(
        index: u32,
        transactions: Vec<Transaction>,
        previous_hash: String,
        miner_wallet: String,
    ) -> (r: Result<Block, BlockchainError>)
        ensures
            match r {
                Ok(block) => {
                    &&& crate::clock::on_the_clock(block.timestamp)
                    &&& crate::clock::clock_gave(Ok(block.timestamp))
                    &&& block.index == index
                    &&& crate::transaction::views(block.transactions@)
                        == crate::transaction::views(transactions@)
                    &&& block.previous_hash@ == previous_hash@
                    &&& block.miner_wallet@ == miner_wallet@
                    &&& block.hash@ == block@.content_hash()
                    &&& block.hash@.len() == 64 && block.hash@[0] == '0' && block.hash@[1] == '0'
                    &&& BlockView::template(
                        index,
                        block.timestamp,
                        crate::transaction::views(transactions@),
                        previous_hash@,
                        miner_wallet@,
                    ).mined_into(block@, DIFFICULTY as nat)
                },
                Err(e) => {
                    ||| e@ matches ErrorView::IoError(message) && crate::clock::clock_gave(
                        Err(message),
                    )
                    ||| e@ is NonceExhausted && exists|timestamp: u128|
                        crate::clock::on_the_clock(timestamp) && crate::clock::clock_gave(
                            Ok(timestamp),
                        ) && !(#[trigger] BlockView::template(
                            index,
                            timestamp,
                            crate::transaction::views(transactions@),
                            previous_hash@,
                            miner_wallet@,
                        )).can_be_sealed(DIFFICULTY as nat)
                },
            },
    {
        let clock = unix_millis();
        Block::new_at(index, transactions, previous_hash, miner_wallet, clock)
    }

    /// The hash of the block's content with `nonce` in place of its own.
    fn hash_with_nonce(&self, nonce: u64) -> (r: String)
        ensures
            r@ == self@.with_nonce(nonce).content_hash(),
            r@.len() == 64,
    {
        let mut input = String::new();
        push_decimal(&mut input, self.index as u128);
        push_decimal(&mut input, self.timestamp);
        push_list_text(&self.transactions, &mut input);
        input.append(self.previous_hash.as_str());
        push_decimal(&mut input, nonce as u128);
        input.append(self.miner_wallet.as_str());
        assert(input@ =~= self@.with_nonce(nonce).preimage());
        let digest = sha256_digest(input.as_str().as_bytes());
        hex_encode(digest.as_slice())
    }

    /// The hash of the block's content: the SHA-256 digest, in hexadecimal, of its fields one
    /// after the other.
    pub fn calculate_hash(&self) -> (r: String)
        ensures
            r@ == self@.content_hash(),
            r@ == crate::crypto::hex_text(
                crate::crypto::sha256(
                    vstd::utf8::encode_utf8(
                        crate::text::decimal(self.index as nat) + crate::text::decimal(
                            self.timestamp as nat,
                        ) + crate::transaction::list_text(
                            crate::transaction::views(self.transactions@),
                        ) + self.previous_hash@ + crate::text::decimal(self.nonce as nat)
                            + self.miner_wallet@,
                    ),
                ),
            ),
            r@.len() == 64,
    {
        assert(self@.with_nonce(self.nonce) == self@);
        self.hash_with_nonce(self.nonce)
    }

    /// Looks for the first nonce, from the block's own on, that seals the block.
    pub fn find_nonce(&self, difficulty: usize) -> (r: Option<u64>)
        requires
            difficulty <= 64,
        ensures
            match r {
                Some(n) => self@.first_seal(n, difficulty as nat),
                None => !self@.can_be_sealed(difficulty as nat),
            },
    {
        let mut nonce: u64 = self.nonce;
        loop
            invariant
                difficulty <= 64,
                self.nonce <= nonce,
                forall|m: u64|
                    self.nonce <= m < nonce ==> !#[trigger] self@.seals(m, difficulty as nat),
            decreases u64::MAX - nonce,
        {
            if has_zeros(self.hash_with_nonce(nonce).as_str(), difficulty) {
                return Some(nonce);
            }
            assert(!self@.seals(nonce, difficulty as nat));
            if nonce == u64::MAX {
                return None;
            }
            nonce += 1;
        }
    }

    /// Mines the block: counts the nonce up until the hash begins with `difficulty` zeros.
    ///
    /// There has to be such a nonce: [`Block::try_mine_block`] is for blocks of which nothing is
    /// known.
    pub fn mine_block(&mut self, difficulty: usize)
        requires
            difficulty <= 64,
            old(self)@.can_be_sealed(difficulty as nat),
        ensures
            old(self)@.mined_into(final(self)@, difficulty as nat),
            final(self).hash@.len() == 64,
    {
        let ghost start = self@;
        self.hash = self.calculate_hash();
        assert(start.with_nonce(self.nonce) == start);
        while !has_zeros(self.hash.as_str(), difficulty)
            invariant
                difficulty <= 64,
                start.can_be_sealed(difficulty as nat),
                start.nonce <= self.nonce,
                self@ == (BlockView {
                    nonce: self.nonce,
                    hash: start.with_nonce(self.nonce).content_hash(),
                    ..start
                }),
                self.hash@.len() == 64,
                forall|m: u64|
                    start.nonce <= m < self.nonce ==> !#[trigger] start.seals(
                        m,
                        difficulty as nat,
                    ),
            decreases u64::MAX - self.nonce,
        {
            assert(!start.seals(self.nonce, difficulty as nat));
            self.nonce += 1;
            self.hash = self.calculate_hash();
        }
        assert(start.seals(self.nonce, difficulty as nat));
    }

    /// Mines the block if a nonce seals it, and says whether one does.
    ///
    /// A block that no nonce is left for stays as it is.
    pub fn try_mine_block(&mut self, difficulty: usize) -> (r: bool)
        requires
            difficulty <= 64,
        ensures
            r == old(self)@.can_be_sealed(difficulty as nat),
            r ==> old(self)@.mined_into(final(self)@, difficulty as nat),
            r ==> final(self).hash@.len() == 64,
            !r ==> final(self)@ == old(self)@,
    {
        match self.find_nonce(difficulty) {
            Some(nonce) => {
                self.nonce = nonce;
                assert(self@.seals(nonce, difficulty as nat));
                self.mine_block(difficulty);
                true
            },
            None => false,
        }
    }
}

} // verus!
