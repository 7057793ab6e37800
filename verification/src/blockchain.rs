//! The chain of blocks and the pool of transactions that wait for one.

use crate::block::{Block, BlockView, DIFFICULTY};
use crate::clock::unix_millis;
use crate::error::{BlockchainError, ErrorView};
use crate::transaction::{clone_list, Amount, Transaction, TransactionView, MINER_WALLET};
use vstd::prelude::*;

verus! {

/// A chain with the transactions that are not in a block yet.
#[derive(Debug)]
pub struct Blockchain {
    /// The blocks, oldest first.
    pub chain: Vec<Block>,
    /// The transactions that wait for a block, oldest first.
    pub transaction_pool: Vec<Transaction>,
    /// The sum of the fees of the waiting transactions.
    pub fee_pool: Amount,
}

/// The mathematical model of a [`Blockchain`].
pub struct BlockchainView {
    pub chain: Seq<BlockView>,
    pub transaction_pool: Seq<TransactionView>,
    pub fee_pool: Seq<char>,
}

impl View for Blockchain {
    type V = BlockchainView;

    open spec fn view(&self) -> BlockchainView {
        BlockchainView {
            chain: block_views(self.chain@),
            transaction_pool: crate::transaction::views(self.transaction_pool@),
            fee_pool: self.fee_pool@,
        }
    }
}

/// The models of a list of blocks.
pub open spec fn block_views(blocks: Seq<Block>) -> Seq<BlockView> {
    blocks.map_values(|b: Block| b@)
}

/// Whether every block carries the hash of its content, and names the hash of the block before
/// it.
pub open spec fn linked(chain: Seq<BlockView>) -> bool {
    &&& forall|i: int|
        0 <= i < chain.len() ==> (#[trigger] chain[i]).hash == chain[i].content_hash()
    &&& forall|i: int|
        1 <= i < chain.len() ==> (#[trigger] chain[i]).previous_hash == chain[i - 1].hash
}

/// The first block of a chain, before it is mined.
pub open spec fn genesis_template(timestamp: u128) -> BlockView {
    BlockView::template(0, timestamp, Seq::empty(), "0"@, MINER_WALLET@)
}

impl BlockchainView {
    /// Whether this is a new chain: one block, mined from the first block of that time, and
    /// nothing waiting.
    pub open spec fn starts_at(self, timestamp: u128) -> bool {
        &&& self.chain.len() == 1
        &&& genesis_template(timestamp).mined_into(self.chain[0], DIFFICULTY as nat)
        &&& self.transaction_pool == Seq::<TransactionView>::empty()
        &&& self.fee_pool == "0.0"@
    }

    /// Whether `block` continues the chain: it names the hash of the last block and carries the
    /// hash of its own content.
    pub open spec fn accepts(self, block: BlockView) -> bool {
        &&& self.chain.len() > 0
        &&& block.previous_hash == self.chain.last().hash
        &&& block.hash == block.content_hash()
    }

    /// The chain with `block` at its end.
    pub open spec fn with_block(self, block: BlockView) -> BlockchainView {
        BlockchainView { chain: self.chain.push(block), ..self }
    }

    /// The chain with `transaction` waiting, and the fees that then wait.
    pub open spec fn with_transaction(
        self,
        transaction: TransactionView,
        fee_pool: Seq<char>,
    ) -> BlockchainView {
        BlockchainView {
            transaction_pool: self.transaction_pool.push(transaction),
            fee_pool,
            ..self
        }
    }

    /// The block that the waiting transactions go into, before it is mined: they come first, in
    /// the order in which they came, and the reward for the miner last.
    pub open spec fn next_template(self, timestamp: u128) -> BlockView {
        BlockView::template(
            (self.chain.len() % 0x1_0000_0000) as u32,
            timestamp,
            self.transaction_pool.push(TransactionView::reward(self.fee_pool)),
            self.chain.last().hash,
            MINER_WALLET@,
        )
    }

    /// The chain after the waiting transactions went into `block`.
    pub open spec fn settled_by(self, block: BlockView) -> BlockchainView {
        BlockchainView {
            chain: self.chain.push(block),
            transaction_pool: Seq::empty(),
            fee_pool: "0.0"@,
        }
    }
}

/// One operation on a chain: nothing, a transaction that comes in, a block that is mined, or a
/// block that a peer sent and that is accepted.
pub open spec fn step(before: BlockchainView, after: BlockchainView) -> bool {
    ||| after == before
    ||| exists|transaction: TransactionView, fee_pool: Seq<char>|
        after == #[trigger] before.with_transaction(transaction, fee_pool)
    ||| mines(before, after)
    ||| exists|block: BlockView|
        before.accepts(block) && after == #[trigger] before.with_block(block)
}

/// The waiting transactions of a chain are mined into a block.
pub open spec fn mines(before: BlockchainView, after: BlockchainView) -> bool {
    exists|timestamp: u128, block: BlockView|
        {
            &&& #[trigger] before.next_template(timestamp).mined_into(block, DIFFICULTY as nat)
            &&& before.chain.len() > 0
            &&& after == before.settled_by(block)
        }
}

impl Clone for Blockchain {
    fn clone(&self) -> (r: Self)
        ensures
            r@ == self@,
    {
        let mut chain: Vec<Block> = Vec::new();
        let mut i: usize = 0;
        while i < self.chain.len()
            invariant
                i <= self.chain.len(),
                block_views(chain@) == block_views(self.chain@).take(i as int),
            decreases self.chain.len() - i,
        {
            let ghost before = block_views(chain@);
            chain.push(self.chain[i].clone());
            assert(block_views(chain@) =~= before.push(self.chain@[i as int]@));
            assert(block_views(chain@) =~= block_views(self.chain@).take(i + 1));
            i += 1;
        }
        assert(block_views(chain@) =~= block_views(self.chain@));
        Blockchain {
            chain,
            transaction_pool: clone_list(&self.transaction_pool),
            fee_pool: self.fee_pool.clone(),
        }
    }
}

impl Blockchain {
    /// The first block of a chain, with the time that `clock` gives.
    pub fn create_genesis_block_at(clock: Result<u128, String>) -> (r: Result<
        Block,
        BlockchainError,
    >)
        ensures
            match clock {
                Err(message) => r matches Err(e) && e@ == ErrorView::IoError(message@),
                Ok(timestamp) => if genesis_template(timestamp).can_be_sealed(DIFFICULTY as nat) {
                    r matches Ok(block) && genesis_template(timestamp).mined_into(
                        block@,
                        DIFFICULTY as nat,
                    )
                } else {
                    r matches Err(e) && e@ == ErrorView::NonceExhausted
                },
            },
    {
        let transactions: Vec<Transaction> = Vec::new();
        assert(crate::transaction::views(transactions@) =~= Seq::empty());
        Block::new_at(0, transactions, "0".to_owned(), MINER_WALLET.to_owned(), clock)
    }

    /// The first block of a chain, with the present time.
    ///
    /// The result is that of [`Blockchain::create_genesis_block_at`] on what the clock gave.
    pub fn create_genesis_block() -> (r: Result<Block, BlockchainError>)
        ensures
            match r {
                Ok(block) => {
                    &&& crate::clock::on_the_clock(block.timestamp)
                    &&& crate::clock::clock_gave(Ok(block.timestamp))
                    &&& genesis_template(block.timestamp).mined_into(block@, DIFFICULTY as nat)
                },
                Err(e) => {
                    ||| e@ matches ErrorView::IoError(message) && crate::clock::clock_gave(
                        Err(message),
                    )
                    ||| e@ is NonceExhausted && exists|timestamp: u128|
                        crate::clock::on_the_clock(timestamp) && crate::clock::clock_gave(
                            Ok(timestamp),
                        ) && !(#[trigger] genesis_template(timestamp)).can_be_sealed(
                            DIFFICULTY as nat,
                        )
                },
            },
    {
        let clock = unix_millis();
        Blockchain::create_genesis_block_at(clock)
    }

    /// A new chain: its first block, with the time that `clock` gives, and nothing waiting.
    pub fn new_at(clock: Result<u128, String>) -> (r: Result<Blockchain, BlockchainError>)
        ensures
            match clock {
                Err(message) => r matches Err(e) && e@ == ErrorView::IoError(message@),
                Ok(timestamp) => if genesis_template(timestamp).can_be_sealed(DIFFICULTY as nat) {
                    r matches Ok(b) && b@.starts_at(timestamp)
                } else {
                    r matches Err(e) && e@ == ErrorView::NonceExhausted
                },
            },
    {
        match Blockchain::create_genesis_block_at(clock) {
            Ok(genesis) => {
                let mut chain: Vec<Block> = Vec::new();
                chain.push(genesis);
                let r = Blockchain {
                    chain,
                    transaction_pool: Vec::new(),
                    fee_pool: Amount::zero(),
                };
                assert(r@.chain =~= seq![genesis@]);
                assert(r@.transaction_pool =~= Seq::empty());
                assert(r@.chain[0] == genesis@);
                Ok(r)
            },
            Err(e) => Err(e),
        }
    }

    /// A new chain: its first block, with the present time, and nothing waiting.
    ///
    /// There is no chain where the clock fails or no nonce seals the first block. The result is
    /// that of [`Blockchain::new_at`] on what the clock gave.
    pub fn new() -> (r: Result<Blockchain, BlockchainError>)
        ensures
            match r {
                Ok(b) => {
                    &&& b@.starts_at(b@.chain[0].timestamp)
                    &&& crate::clock::on_the_clock(b@.chain[0].timestamp)
                    &&& crate::clock::clock_gave(Ok(b@.chain[0].timestamp))
                },
                Err(e) => {
                    ||| e@ matches ErrorView::IoError(message) && crate::clock::clock_gave(
                        Err(message),
                    )
                    ||| e@ is NonceExhausted && exists|timestamp: u128|
                        crate::clock::on_the_clock(timestamp) && crate::clock::clock_gave(
                            Ok(timestamp),
                        ) && !(#[trigger] genesis_template(timestamp)).can_be_sealed(
                            DIFFICULTY as nat,
                        )
                },
            },
    {
        let clock = unix_millis();
        Blockchain::new_at(clock)
    }

    /// Puts the waiting transactions and the miner's reward into a new block, with the time that
    /// `clock` gives. Where nothing waits there is no block.
    ///
    /// Where there is an error the chain and the pool stay as they are.
    pub fn mine_pending_transactions_at(&mut self, clock: Result<u128, String>) -> (r: Result<
        Option<Block>,
        BlockchainError,
    >)
        requires
            old(self)@.transaction_pool.len() > 0 ==> old(self)@.chain.len() > 0,
        ensures
            step(old(self)@, final(self)@),
            r !is Ok || r->Ok_0 is None ==> final(self)@ == old(self)@,
            r !is Ok || r->Ok_0 is None ==> *final(self) == *old(self),
            if old(self)@.transaction_pool.len() == 0 {
                r matches Ok(None)
            } else {
                match clock {
                    Err(message) => r matches Err(e) && e@ == ErrorView::IoError(message@),
                    Ok(timestamp) => {
                        let template = old(self)@.next_template(timestamp);
                        if template.can_be_sealed(DIFFICULTY as nat) {
                            r matches Ok(Some(block)) && {
                                &&& template.mined_into(block@, DIFFICULTY as nat)
                                &&& final(self)@ == old(self)@.settled_by(block@)
                            }
                        } else {
                            r matches Err(e) && e@ == ErrorView::NonceExhausted
                        }
                    },
                }
            },
            r matches Ok(Some(block)) ==> {
                &&& block.index == old(self).chain@.len() % 0x1_0000_0000
                &&& clock matches Ok(timestamp) && block.timestamp == timestamp
                &&& crate::transaction::views(block.transactions@) == crate::transaction::views(
                    old(self).transaction_pool@,
                ).push(
                    (TransactionView {
                        sender: "Network"@,
                        receiver: "MinerWalletAddress"@,
                        amount: old(self).fee_pool.text@,
                        fee: "0.0"@,
                        signature: "Reward"@,
                    }),
                )
                &&& block.previous_hash@ == old(self).chain@.last().hash@
                &&& block.miner_wallet@ == "MinerWalletAddress"@
                &&& block.hash@ == block@.content_hash()
                &&& block.hash@.len() == 64 && block.hash@[0] == '0' && block.hash@[1] == '0'
                &&& final(self).chain@.len() == old(self).chain@.len() + 1
                &&& final(self).chain@.drop_last() == old(self).chain@
                &&& final(self).chain@.last()@ == block@
                &&& final(self).transaction_pool@.len() == 0
                &&& final(self).fee_pool.text@ == "0.0"@
            },
    {
        if self.transaction_pool.len() == 0 {
            return Ok(None);
        }
        let previous_hash = self.chain[self.chain.len() - 1].hash.clone();
        let mut transactions = clone_list(&self.transaction_pool);
        let reward = Transaction::reward(self.fee_pool.clone());
        transactions.push(reward);
        assert(crate::transaction::views(transactions@) =~= self@.transaction_pool.push(
            TransactionView::reward(self@.fee_pool),
        ));
        let index: u32 = (self.chain.len() as u64 % 0x1_0000_0000) as u32;
        match Block::new_at(index, transactions, previous_hash, MINER_WALLET.to_owned(), clock) {
            Err(e) => Err(e),
            Ok(new_block) => {
                self.chain.push(new_block.clone());
                self.transaction_pool.clear();
                self.fee_pool = Amount::zero();
                assert(self@.chain =~= old(self)@.chain.push(new_block@));
                assert(self@.transaction_pool =~= Seq::empty());
                assert(self@ == old(self)@.settled_by(new_block@));
                assert(self.chain@.drop_last() =~= old(self).chain@);
                assert(old(self)@.next_template(new_block.timestamp).mined_into(
                    new_block@,
                    DIFFICULTY as nat,
                ));
                Ok(Some(new_block))
            },
        }
    }

    /// Puts the waiting transactions and the miner's reward into a new block, with the present
    /// time.
    ///
    /// The result is that of [`Blockchain::mine_pending_transactions_at`] on what the clock gave.
    pub fn mine_pending_transactions(&mut self) -> (r: Result<Option<Block>, BlockchainError>)
        requires
            old(self)@.transaction_pool.len() > 0 ==> old(self)@.chain.len() > 0,
        ensures
            step(old(self)@, final(self)@),
            r matches Ok(None) <==> old(self)@.transaction_pool.len() == 0,
            match r {
                Ok(None) => final(self)@ == old(self)@ && *final(self) == *old(self),
                Ok(Some(block)) => {
                    &&& crate::clock::on_the_clock(block.timestamp)
                    &&& crate::clock::clock_gave(Ok(block.timestamp))
                    &&& old(self)@.next_template(block.timestamp).mined_into(
                        block@,
                        DIFFICULTY as nat,
                    )
                    &&& final(self)@ == old(self)@.settled_by(block@)
                    &&& block.index == old(self).chain@.len() % 0x1_0000_0000
                    &&& crate::transaction::views(block.transactions@)
                        == crate::transaction::views(old(self).transaction_pool@).push(
                        (TransactionView {
                            sender: "Network"@,
                            receiver: "MinerWalletAddress"@,
                            amount: old(self).fee_pool.text@,
                            fee: "0.0"@,
                            signature: "Reward"@,
                        }),
                    )
                    &&& block.previous_hash@ == old(self).chain@.last().hash@
                    &&& block.miner_wallet@ == "MinerWalletAddress"@
                    &&& block.hash@ == block@.content_hash()
                    &&& block.hash@.len() == 64 && block.hash@[0] == '0' && block.hash@[1] == '0'
                    &&& final(self).chain@.len() == old(self).chain@.len() + 1
                    &&& final(self).chain@.drop_last() == old(self).chain@
                    &&& final(self).chain@.last()@ == block@
                    &&& final(self).transaction_pool@.len() == 0
                    &&& final(self).fee_pool.text@ == "0.0"@
                },
                Err(e) => {
                    &&& final(self)@ == old(self)@
                    &&& *final(self) == *old(self)
                    &&& {
                        ||| e@ matches ErrorView::IoError(message) && crate::clock::clock_gave(
                            Err(message),
                        )
                        ||| e@ is NonceExhausted && exists|timestamp: u128|
                            crate::clock::on_the_clock(timestamp) && crate::clock::clock_gave(
                                Ok(timestamp),
                            ) && !(#[trigger] old(self)@.next_template(timestamp)).can_be_sealed(
                                DIFFICULTY as nat,
                            )
                    }
                },
            },
    {
        let clock = unix_millis();
        self.mine_pending_transactions_at(clock)
    }

    /// Adds a block that a peer sent, if it continues the chain.
    pub fn add_block_from_peer(&mut self, block: Block) -> (r: Result<(), BlockchainError>)
        ensures
            step(old(self)@, final(self)@),
            if old(self)@.accepts(block@) {
                r is Ok && final(self)@ == old(self)@.with_block(block@)
            } else {
                &&& r matches Err(e) && e@ == ErrorView::BlockchainInvalid
                &&& final(self)@ == old(self)@
            },
            r is Ok <==> {
                &&& old(self).chain@.len() > 0
                &&& block.previous_hash@ == old(self).chain@.last().hash@
                &&& block.hash@ == block@.content_hash()
            },
            r is Ok ==> final(self).chain@ == old(self).chain@.push(block),
            r is Err ==> final(self).chain@ == old(self).chain@,
            final(self).transaction_pool@ == old(self).transaction_pool@,
            final(self).fee_pool == old(self).fee_pool,
    {
        let length: usize = self.chain.len();
        if length == 0 {
            return Err(BlockchainError::BlockchainInvalid);
        }
        if !(block.previous_hash == self.chain[length - 1].hash) {
            return Err(BlockchainError::BlockchainInvalid);
        }
        if !(block.hash == block.calculate_hash()) {
            return Err(BlockchainError::BlockchainInvalid);
        }
        self.chain.push(block);
        assert(self@.chain =~= old(self)@.chain.push(block@));
        assert(self@ == old(self)@.with_block(block@));
        Ok(())
    }

    /// The two amounts whose sum is the fee pool once `transaction` waits: the fees that wait
    /// already, and its own fee.
    pub fn fee_terms(&self, transaction: &Transaction) -> (r: (Amount, Amount))
        ensures
            r.0@ == self@.fee_pool,
            r.1@ == transaction@.fee,
            r.0 == self.fee_pool,
            r.1 == transaction.fee,
    {
        (self.fee_pool.clone(), transaction.fee.clone())
    }

    /// Lets a transaction wait for the next block. `fee_pool` is the sum of the amounts that
    /// [`Blockchain::fee_terms`] gives for it.
    pub fn add_transaction(&mut self, transaction: Transaction, fee_pool: Amount) -> (r: Result<
        (),
        BlockchainError,
    >)
        ensures
            step(old(self)@, final(self)@),
            r is Ok,
            final(self)@ == old(self)@.with_transaction(transaction@, fee_pool@),
            final(self).transaction_pool@ == old(self).transaction_pool@.push(transaction),
            final(self).fee_pool == fee_pool,
            final(self).chain@ == old(self).chain@,
    {
        self.fee_pool = fee_pool;
        self.transaction_pool.push(transaction);
        assert(self@.transaction_pool =~= old(self)@.transaction_pool.push(transaction@));
        assert(self@ == old(self)@.with_transaction(transaction@, fee_pool@));
        Ok(())
    }
}

} // verus!
