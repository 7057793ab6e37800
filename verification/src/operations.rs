//! What each operation does with what it is given, on every call, and how one call relates to the
//! next.
//!
//! These laws speak of calls: `call_ensures` holds of a function, the arguments of a call and the
//! result of that call.

use crate::block::{Block, BlockView};
use crate::blockchain::Blockchain;
use crate::error::BlockchainError;
use crate::network::{Endpoint, ListenerAction, ListenerEvent, PeerAddr};
use crate::node::{
    Node, PeerListener, PeerListenerAction, PeerMessage, SocketAction, SocketEvent,
};
use crate::transaction::{Amount, Transaction, TransactionView};
use vstd::prelude::*;

verus! {

// Hashing.

/// The hash of a block is the hexadecimal SHA-256 digest of the index, the time, the printed
/// transactions, the previous hash, the nonce and the wallet, for every block.
pub proof fn law_hash_covers_every_field(block: &Block, r: String)
    requires
        call_ensures(Block::calculate_hash, (block,), r),
    ensures
        r@ == crate::crypto::hex_text(
            crate::crypto::sha256(
                vstd::utf8::encode_utf8(
                    crate::text::decimal(block.index as nat) + crate::text::decimal(
                        block.timestamp as nat,
                    ) + crate::transaction::list_text(
                        crate::transaction::views(block.transactions@),
                    ) + block.previous_hash@ + crate::text::decimal(block.nonce as nat)
                        + block.miner_wallet@,
                ),
            ),
        ),
        r@.len() == 64,
{
}

/// Two blocks that differ in one field alone, whatever their hashes, hash to the same text only if
/// that field is the same, or, of the transactions, if they print the same, or if SHA-256 collides
/// on the two.
pub proof fn law_hash_tells_blocks_apart(a: &Block, b: &Block, hash_a: String, hash_b: String)
    requires
        call_ensures(Block::calculate_hash, (a,), hash_a),
        call_ensures(Block::calculate_hash, (b,), hash_b),
        hash_a@ == hash_b@,
        !crate::laws::collide(a@, b@),
    ensures
        b@ == (BlockView { transactions: b@.transactions, hash: b@.hash, ..a@ })
            ==> crate::transaction::list_text(crate::transaction::views(a.transactions@))
            == crate::transaction::list_text(crate::transaction::views(b.transactions@)),
        b@ == (BlockView { index: b.index, hash: b@.hash, ..a@ }) ==> a.index == b.index,
        b@ == (BlockView { timestamp: b.timestamp, hash: b@.hash, ..a@ }) ==> a.timestamp
            == b.timestamp,
        b@ == (BlockView { previous_hash: b@.previous_hash, hash: b@.hash, ..a@ })
            ==> a.previous_hash@ == b.previous_hash@,
        b@ == (BlockView { nonce: b.nonce, hash: b@.hash, ..a@ }) ==> a.nonce == b.nonce,
        b@ == (BlockView { miner_wallet: b@.miner_wallet, hash: b@.hash, ..a@ })
            ==> a.miner_wallet@ == b.miner_wallet@,
{
    crate::laws::law_same_hash_means_same_text(a@, b@);
    crate::meaning::law_hashed_text_tells_fields_apart(a@, b@);
}

/// A block whose transactions were changed so that they print otherwise, while everything else and
/// the hash were kept, is refused by every chain, which stays as it is, unless SHA-256 collides on
/// the two.
pub proof fn law_changed_transactions_are_refused(
    chain: &mut Blockchain,
    block: Block,
    hash: String,
    changed: Block,
    r: Result<(), BlockchainError>,
)
    requires
        call_ensures(Block::calculate_hash, (&block,), hash),
        block.hash@ == hash@,
        changed.index == block.index,
        changed.timestamp == block.timestamp,
        changed.previous_hash@ == block.previous_hash@,
        changed.hash@ == block.hash@,
        changed.nonce == block.nonce,
        changed.miner_wallet@ == block.miner_wallet@,
        crate::transaction::list_text(crate::transaction::views(changed.transactions@))
            != crate::transaction::list_text(crate::transaction::views(block.transactions@)),
        call_ensures(Blockchain::add_block_from_peer, (chain, changed), r),
    ensures
        crate::laws::collide(block@, changed@) || {
            &&& r matches Err(BlockchainError::BlockchainInvalid)
            &&& final(chain).chain@ == old(chain).chain@
            &&& final(chain).transaction_pool@ == old(chain).transaction_pool@
            &&& final(chain).fee_pool == old(chain).fee_pool
        },
{
    crate::meaning::law_changed_field_is_refused(chain@, block@, changed@);
}

/// A block in which one transaction got another amount or fee, while everything else and the hash
/// were kept, is refused by every chain, unless SHA-256 collides on the two.
pub proof fn law_changed_amount_is_refused(
    chain: &mut Blockchain,
    block: Block,
    hash: String,
    changed: Block,
    i: int,
    r: Result<(), BlockchainError>,
)
    requires
        call_ensures(Block::calculate_hash, (&block,), hash),
        block.hash@ == hash@,
        changed.index == block.index,
        changed.timestamp == block.timestamp,
        changed.previous_hash@ == block.previous_hash@,
        changed.hash@ == block.hash@,
        changed.nonce == block.nonce,
        changed.miner_wallet@ == block.miner_wallet@,
        0 <= i < block.transactions@.len(),
        changed.transactions@ == block.transactions@.update(i, changed.transactions@[i]),
        changed.transactions@[i].sender == block.transactions@[i].sender,
        changed.transactions@[i].receiver == block.transactions@[i].receiver,
        changed.transactions@[i].signature == block.transactions@[i].signature,
        (changed.transactions@[i].amount.text@ == block.transactions@[i].amount.text@) != (
        changed.transactions@[i].fee.text@ == block.transactions@[i].fee.text@),
        call_ensures(Blockchain::add_block_from_peer, (chain, changed), r),
    ensures
        r matches Err(BlockchainError::BlockchainInvalid) || crate::laws::collide(block@, changed@),
{
    let t = changed.transactions@[i]@;
    assert(changed@.transactions =~= block@.transactions.update(i, t));
    crate::meaning::law_changed_transaction_is_refused(chain@, block@, i, t);
}

// Making and mining blocks.

/// A block that is made with a given time has the index, that time, the transactions, the previous
/// hash and the wallet that were given, whatever they are, and the hash of its own content, which
/// begins with two zeros. A clock that failed, and nothing else, gives its message as an error.
pub proof fn law_block_new_at(
    index: u32,
    transactions: Vec<Transaction>,
    previous_hash: String,
    miner_wallet: String,
    clock: Result<u128, String>,
    r: Result<Block, BlockchainError>,
)
    requires
        call_ensures(
            Block::new_at,
            (index, transactions, previous_hash, miner_wallet, clock),
            r,
        ),
    ensures
        r matches Ok(block) ==> {
            &&& clock matches Ok(timestamp) && block.timestamp == timestamp
            &&& block.index == index
            &&& block.transactions@.len() == transactions@.len()
            &&& forall|i: int|
                0 <= i < transactions@.len() ==> (#[trigger] block.transactions@[i])@
                    == transactions@[i]@
            &&& block.previous_hash@ == previous_hash@
            &&& block.miner_wallet@ == miner_wallet@
            &&& block.hash@ == block@.content_hash()
            &&& block.hash@.len() == 64 && block.hash@[0] == '0' && block.hash@[1] == '0'
        },
        r is Err <==> (r matches Err(BlockchainError::IoError(_)) || r matches Err(
            BlockchainError::NonceExhausted,
        )),
        clock is Err <==> r matches Err(BlockchainError::IoError(_)),
        clock matches Err(message) ==> (r matches Err(BlockchainError::IoError(text)) && text@
            == message@),
{
    if let Ok(block) = r {
        assert forall|i: int| 0 <= i < transactions@.len() implies (
        #[trigger] block.transactions@[i])@ == transactions@[i]@ by {
            assert(crate::transaction::views(block.transactions@)[i] == crate::transaction::views(
                transactions@,
            )[i]);
        }
        assert(crate::transaction::views(block.transactions@).len() == transactions@.len());
    }
}

/// Mining takes the first nonce there is: of a block that was made, every smaller nonce gives a
/// hash without the two zeros; where there is no block though the clock gave a time, every nonce
/// does.
pub proof fn law_block_new_at_takes_the_first_nonce(
    index: u32,
    transactions: Vec<Transaction>,
    previous_hash: String,
    miner_wallet: String,
    timestamp: u128,
    r: Result<Block, BlockchainError>,
    nonce: u64,
)
    requires
        call_ensures(
            Block::new_at,
            (index, transactions, previous_hash, miner_wallet, Ok(timestamp)),
            r,
        ),
        r matches Ok(block) ==> nonce < block.nonce,
    ensures
        ({
            let hash = (BlockView {
                index,
                timestamp,
                transactions: crate::transaction::views(transactions@),
                previous_hash: previous_hash@,
                hash: Seq::empty(),
                nonce,
                miner_wallet: miner_wallet@,
            }).content_hash();
            !(2 <= hash.len() && hash[0] == '0' && hash[1] == '0')
        }),
{
    let template = BlockView::template(
        index,
        timestamp,
        crate::transaction::views(transactions@),
        previous_hash@,
        miner_wallet@,
    );
    let tried = BlockView {
        index,
        timestamp,
        transactions: crate::transaction::views(transactions@),
        previous_hash: previous_hash@,
        hash: Seq::empty(),
        nonce,
        miner_wallet: miner_wallet@,
    };
    assert(template.with_nonce(nonce) == tried);
    assert(!template.seals(nonce, 2));
}

/// Two blocks that are made alike but for one thing differ in that thing.
pub proof fn law_blocks_differ_as_asked(
    index_a: u32,
    index_b: u32,
    transactions_a: Vec<Transaction>,
    transactions_b: Vec<Transaction>,
    previous_hash_a: String,
    previous_hash_b: String,
    wallet_a: String,
    wallet_b: String,
    clock_a: Result<u128, String>,
    clock_b: Result<u128, String>,
    a: Block,
    b: Block,
)
    requires
        call_ensures(
            Block::new_at,
            (index_a, transactions_a, previous_hash_a, wallet_a, clock_a),
            Ok(a),
        ),
        call_ensures(
            Block::new_at,
            (index_b, transactions_b, previous_hash_b, wallet_b, clock_b),
            Ok(b),
        ),
    ensures
        a.index == b.index <==> index_a == index_b,
        a.timestamp == b.timestamp <==> clock_a == clock_b,
        a@.transactions == b@.transactions <==> crate::transaction::views(transactions_a@)
            == crate::transaction::views(transactions_b@),
        a.previous_hash@ == b.previous_hash@ <==> previous_hash_a@ == previous_hash_b@,
        a.miner_wallet@ == b.miner_wallet@ <==> wallet_a@ == wallet_b@,
{
}

/// Whether the clock gave the milliseconds `millis`: those of a time that was read from it.
pub open spec fn read_from_clock(millis: u128) -> bool {
    exists|time: (u64, u32)|
        #[trigger] crate::provenance::given_by_clock(Ok(time)) && millis == time.0 * 1000 + time.1
            / 1_000_000
}

/// The present time is one that was read from the clock, and its error is the clock's.
pub proof fn law_unix_millis(r: Result<u128, String>)
    requires
        call_ensures(crate::clock::unix_millis, (), r),
    ensures
        match r {
            Ok(millis) => read_from_clock(millis),
            Err(message) => crate::provenance::given_by_clock(Err(message@)),
        },
{
    match r {
        Ok(millis) => {
            crate::meaning::law_clock(Ok(millis));
        },
        Err(message) => {
            crate::meaning::law_clock(Err(message@));
        },
    }
}

/// A block that is made now has the index, the transactions, the previous hash and the wallet that
/// were given, whatever they are, and a time that was read from the clock. An input or output error
/// only comes from a clock that failed.
pub proof fn law_block_new(
    index: u32,
    transactions: Vec<Transaction>,
    previous_hash: String,
    miner_wallet: String,
    r: Result<Block, BlockchainError>,
)
    requires
        call_ensures(Block::new, (index, transactions, previous_hash, miner_wallet), r),
    ensures
        match r {
            Ok(block) => {
                &&& read_from_clock(block.timestamp)
                &&& block.index == index
                &&& block.transactions@.len() == transactions@.len()
                &&& forall|i: int|
                    0 <= i < transactions@.len() ==> (#[trigger] block.transactions@[i])@
                        == transactions@[i]@
                &&& block.previous_hash@ == previous_hash@
                &&& block.miner_wallet@ == miner_wallet@
                &&& block.hash@ == block@.content_hash()
                &&& block.hash@.len() == 64 && block.hash@[0] == '0' && block.hash@[1] == '0'
            },
            Err(e) => match e {
                BlockchainError::IoError(message) => crate::provenance::given_by_clock(
                    Err(message@),
                ),
                BlockchainError::NonceExhausted => true,
                _ => false,
            },
        },
{
    match r {
        Ok(block) => {
            crate::meaning::law_clock(Ok(block.timestamp));
            assert forall|i: int| 0 <= i < transactions@.len() implies (
            #[trigger] block.transactions@[i])@ == transactions@[i]@ by {
                assert(crate::transaction::views(block.transactions@)[i]
                    == crate::transaction::views(transactions@)[i]);
            }
            assert(crate::transaction::views(block.transactions@).len() == transactions@.len());
        },
        Err(BlockchainError::IoError(message)) => {
            crate::meaning::law_clock(Err(message@));
        },
        Err(_) => {},
    }
}

/// The search for a nonce starts at the block's own and ends at the first one whose hash begins
/// with the zeros asked for.
pub proof fn law_find_nonce(block: &Block, difficulty: usize, r: Option<u64>, nonce: u64)
    requires
        call_ensures(Block::find_nonce, (block, difficulty), r),
        block.nonce <= nonce,
        r matches Some(n) ==> nonce <= n,
    ensures
        ({
            let hash = (BlockView { nonce, ..block@ }).content_hash();
            r == Some(nonce) <==> {
                &&& difficulty <= hash.len()
                &&& forall|i: int| 0 <= i < difficulty ==> #[trigger] hash[i] == '0'
            }
        }),
        r matches Some(n) ==> block.nonce <= n,
{
    assert(block@.with_nonce(nonce) == (BlockView { nonce, ..block@ }));
    assert(block@.seals(nonce, difficulty as nat) <==> r == Some(nonce));
}

/// Mining a block changes its nonce and its hash and nothing else: the hash is that of the content
/// with the new nonce, it begins with the zeros asked for, and no nonce from the old one up to the
/// new one gives such a hash.
pub proof fn law_mine_block(block: &mut Block, difficulty: usize, nonce: u64)
    requires
        call_ensures(Block::mine_block, (block, difficulty), ()),
    ensures
        final(block).index == old(block).index,
        final(block).timestamp == old(block).timestamp,
        final(block)@.transactions == old(block)@.transactions,
        final(block).previous_hash@ == old(block).previous_hash@,
        final(block).miner_wallet@ == old(block).miner_wallet@,
        final(block).nonce >= old(block).nonce,
        final(block).hash@ == final(block)@.content_hash(),
        final(block).hash@.len() == 64,
        forall|i: int|
            0 <= i < difficulty ==> 0 <= i < 64 && #[trigger] final(block).hash@[i] == '0',
        old(block).nonce <= nonce < final(block).nonce ==> {
            let hash = (BlockView { nonce, ..old(block)@ }).content_hash();
            !{
                &&& difficulty <= hash.len()
                &&& forall|i: int| 0 <= i < difficulty ==> #[trigger] hash[i] == '0'
            }
        },
{
    let start = old(block)@;
    let mined = final(block)@;
    crate::laws::law_mined_block_is_sealed(start, mined, difficulty as nat);
    assert(start.with_nonce(nonce) == (BlockView { nonce, ..start }));
    if old(block).nonce <= nonce < final(block).nonce {
        assert(!start.seals(nonce, difficulty as nat));
    }
}

/// Trying to mine a block mines it, or leaves it as it is where no nonce from its own on gives a
/// hash that begins with the zeros asked for.
pub proof fn law_try_mine_block(block: &mut Block, difficulty: usize, r: bool, nonce: u64)
    requires
        call_ensures(Block::try_mine_block, (block, difficulty), r),
    ensures
        r ==> {
            &&& final(block).index == old(block).index
            &&& final(block).timestamp == old(block).timestamp
            &&& final(block)@.transactions == old(block)@.transactions
            &&& final(block).previous_hash@ == old(block).previous_hash@
            &&& final(block).miner_wallet@ == old(block).miner_wallet@
            &&& final(block).nonce >= old(block).nonce
            &&& final(block).hash@ == final(block)@.content_hash()
            &&& final(block).hash@.len() == 64
            &&& forall|i: int|
                0 <= i < difficulty ==> 0 <= i < 64 && #[trigger] final(block).hash@[i] == '0'
        },
        !r ==> final(block)@ == old(block)@,
        old(block).nonce <= nonce && (r ==> nonce < final(block).nonce) ==> {
            let hash = (BlockView { nonce, ..old(block)@ }).content_hash();
            !{
                &&& difficulty <= hash.len()
                &&& forall|i: int| 0 <= i < difficulty ==> #[trigger] hash[i] == '0'
            }
        },
{
    let start = old(block)@;
    let mined = final(block)@;
    if r {
        crate::laws::law_mined_block_is_sealed(start, mined, difficulty as nat);
    }
    assert(start.with_nonce(nonce) == (BlockView { nonce, ..start }));
    if old(block).nonce <= nonce && (r ==> nonce < final(block).nonce) {
        assert(!start.seals(nonce, difficulty as nat));
    }
}

// The chain.

/// A new chain has one block and nothing waits: that block is at position 0, has the given time and
/// no transactions, names `0` as the hash before it, goes to the miner's wallet, and carries the
/// hash of its content, which begins with two zeros.
pub proof fn law_blockchain_new_at(
    clock: Result<u128, String>,
    r: Result<Blockchain, BlockchainError>,
)
    requires
        call_ensures(Blockchain::new_at, (clock,), r),
    ensures
        r matches Ok(b) ==> {
            &&& b.chain@.len() == 1
            &&& b.chain@[0].index == 0
            &&& clock matches Ok(timestamp) && b.chain@[0].timestamp == timestamp
            &&& b.chain@[0].transactions@.len() == 0
            &&& b.chain@[0].previous_hash@ == "0"@
            &&& b.chain@[0].miner_wallet@ == "MinerWalletAddress"@
            &&& b.chain@[0].hash@ == b.chain@[0]@.content_hash()
            &&& b.chain@[0].hash@[0] == '0' && b.chain@[0].hash@[1] == '0'
            &&& b.transaction_pool@.len() == 0
            &&& b.fee_pool.text@ == "0.0"@
        },
        r is Err ==> (r matches Err(BlockchainError::IoError(_)) || r matches Err(
            BlockchainError::NonceExhausted,
        )),
        clock is Err <==> r matches Err(BlockchainError::IoError(_)),
        clock matches Err(message) ==> (r matches Err(BlockchainError::IoError(text)) && text@
            == message@),
{
    if let Ok(b) = r {
        let timestamp = clock->Ok_0;
        assert(b@.chain[0] == b.chain@[0]@);
        assert(b@.chain[0].transactions.len() == b.chain@[0].transactions@.len());
        assert(b@.transaction_pool.len() == b.transaction_pool@.len());
        crate::laws::law_mined_block_is_sealed(
            crate::blockchain::genesis_template(timestamp),
            b@.chain[0],
            2,
        );
    }
}

/// The first block of a chain is at position 0, has the given time and no transactions, names `0`
/// as the hash before it, goes to the miner's wallet, and carries the hash of its content, which
/// begins with two zeros.
pub proof fn law_create_genesis_block_at(
    clock: Result<u128, String>,
    r: Result<Block, BlockchainError>,
)
    requires
        call_ensures(Blockchain::create_genesis_block_at, (clock,), r),
    ensures
        r matches Ok(block) ==> {
            &&& block.index == 0
            &&& clock matches Ok(timestamp) && block.timestamp == timestamp
            &&& block.transactions@.len() == 0
            &&& block.previous_hash@ == "0"@
            &&& block.miner_wallet@ == "MinerWalletAddress"@
            &&& block.hash@ == block@.content_hash()
            &&& block.hash@[0] == '0' && block.hash@[1] == '0'
        },
        r is Err ==> (r matches Err(BlockchainError::IoError(_)) || r matches Err(
            BlockchainError::NonceExhausted,
        )),
        clock is Err <==> r matches Err(BlockchainError::IoError(_)),
        clock matches Err(message) ==> (r matches Err(BlockchainError::IoError(text)) && text@
            == message@),
{
    if let Ok(block) = r {
        let timestamp = clock->Ok_0;
        assert(block@.transactions.len() == block.transactions@.len());
        crate::laws::law_mined_block_is_sealed(
            crate::blockchain::genesis_template(timestamp),
            block@,
            2,
        );
    }
}

/// The first block of a chain, if it is made now, has a time that was read from the clock. An input
/// or output error only comes from a clock that failed.
pub proof fn law_create_genesis_block(r: Result<Block, BlockchainError>)
    requires
        call_ensures(Blockchain::create_genesis_block, (), r),
    ensures
        match r {
            Ok(block) => {
                &&& read_from_clock(block.timestamp)
                &&& block.index == 0
                &&& block.transactions@.len() == 0
                &&& block.previous_hash@ == "0"@
                &&& block.miner_wallet@ == "MinerWalletAddress"@
                &&& block.hash@ == block@.content_hash()
                &&& block.hash@[0] == '0' && block.hash@[1] == '0'
            },
            Err(e) => match e {
                BlockchainError::IoError(message) => crate::provenance::given_by_clock(
                    Err(message@),
                ),
                BlockchainError::NonceExhausted => true,
                _ => false,
            },
        },
{
    match r {
        Ok(block) => {
            crate::meaning::law_clock(Ok(block.timestamp));
            assert(block@.transactions.len() == block.transactions@.len());
            crate::laws::law_mined_block_is_sealed(
                crate::blockchain::genesis_template(block.timestamp),
                block@,
                2,
            );
        },
        Err(BlockchainError::IoError(message)) => {
            crate::meaning::law_clock(Err(message@));
        },
        Err(_) => {},
    }
}

/// A chain that is started now has one block, whose time was read from the clock, and nothing
/// waits. An input or output error only comes from a clock that failed.
pub proof fn law_blockchain_new(r: Result<Blockchain, BlockchainError>)
    requires
        call_ensures(Blockchain::new, (), r),
    ensures
        match r {
            Ok(b) => {
                &&& b.chain@.len() == 1
                &&& read_from_clock(b.chain@[0].timestamp)
                &&& b.chain@[0].index == 0
                &&& b.chain@[0].transactions@.len() == 0
                &&& b.chain@[0].previous_hash@ == "0"@
                &&& b.chain@[0].miner_wallet@ == "MinerWalletAddress"@
                &&& b.chain@[0].hash@ == b.chain@[0]@.content_hash()
                &&& b.chain@[0].hash@[0] == '0' && b.chain@[0].hash@[1] == '0'
                &&& b.transaction_pool@.len() == 0
                &&& b.fee_pool.text@ == "0.0"@
            },
            Err(e) => match e {
                BlockchainError::IoError(message) => crate::provenance::given_by_clock(
                    Err(message@),
                ),
                BlockchainError::NonceExhausted => true,
                _ => false,
            },
        },
{
    match r {
        Ok(b) => {
            assert(b@.chain[0] == b.chain@[0]@);
            assert(b@.chain[0].transactions.len() == b.chain@[0].transactions@.len());
            assert(b@.transaction_pool.len() == b.transaction_pool@.len());
            crate::meaning::law_clock(Ok(b.chain@[0].timestamp));
            crate::laws::law_mined_block_is_sealed(
                crate::blockchain::genesis_template(b.chain@[0].timestamp),
                b@.chain[0],
                2,
            );
        },
        Err(BlockchainError::IoError(message)) => {
            crate::meaning::law_clock(Err(message@));
        },
        Err(_) => {},
    }
}

/// A transaction that comes in is taken, whatever the chain: it waits as it came, in every field,
/// behind those that waited already, and the chain does not change.
pub proof fn law_add_transaction(
    chain: &mut Blockchain,
    transaction: Transaction,
    fee_pool: Amount,
    r: Result<(), BlockchainError>,
)
    requires
        call_ensures(Blockchain::add_transaction, (chain, transaction, fee_pool), r),
    ensures
        r is Ok,
        final(chain).transaction_pool@.len() == old(chain).transaction_pool@.len() + 1,
        final(chain).transaction_pool@.drop_last() == old(chain).transaction_pool@,
        final(chain).transaction_pool@.last().sender@ == transaction.sender@,
        final(chain).transaction_pool@.last().receiver@ == transaction.receiver@,
        final(chain).transaction_pool@.last().amount.text@ == transaction.amount.text@,
        final(chain).transaction_pool@.last().fee.text@ == transaction.fee.text@,
        final(chain).transaction_pool@.last().signature@ == transaction.signature@,
        final(chain).fee_pool.text@ == fee_pool.text@,
        final(chain).chain@ == old(chain).chain@,
{
    assert(final(chain).transaction_pool@.drop_last() =~= old(chain).transaction_pool@);
}

/// Two transactions that come in one after the other wait in that order.
pub proof fn law_transactions_wait_in_order(
    first: &mut Blockchain,
    second: &mut Blockchain,
    a: Transaction,
    b: Transaction,
    fees_a: Amount,
    fees_b: Amount,
)
    requires
        call_ensures(Blockchain::add_transaction, (first, a, fees_a), Ok(())),
        *old(second) == *final(first),
        call_ensures(Blockchain::add_transaction, (second, b, fees_b), Ok(())),
    ensures
        final(second).transaction_pool@ == old(first).transaction_pool@ + seq![a, b],
        final(second).fee_pool == fees_b,
        final(second).chain@ == old(first).chain@,
{
    assert(final(second).transaction_pool@ =~= old(first).transaction_pool@ + seq![a, b]);
}

/// Mining the waiting transactions at a given time puts them, in order, and the reward into one
/// block with that time, however long the chain is. The block stands at the end of the chain, and
/// nothing waits after it. Where nothing waits there is no block, and where there is no block the
/// chain stays as it is. A clock that failed gives its message as an error.
pub proof fn law_mine_pending_transactions_at(
    chain: &mut Blockchain,
    clock: Result<u128, String>,
    r: Result<Option<Block>, BlockchainError>,
)
    requires
        call_ensures(Blockchain::mine_pending_transactions_at, (chain, clock), r),
    ensures
        r matches Ok(Some(block)) ==> {
            &&& clock matches Ok(timestamp) && block.timestamp == timestamp
            &&& block.index == old(chain).chain@.len() % 0x1_0000_0000
            &&& block.transactions@.len() == old(chain).transaction_pool@.len() + 1
            &&& forall|i: int|
                0 <= i < old(chain).transaction_pool@.len() ==> (#[trigger] block.transactions@[i])@
                    == old(chain).transaction_pool@[i]@
            &&& block.transactions@.last().sender@ == "Network"@
            &&& block.transactions@.last().receiver@ == "MinerWalletAddress"@
            &&& block.transactions@.last().amount.text@ == old(chain).fee_pool.text@
            &&& block.transactions@.last().fee.text@ == "0.0"@
            &&& block.transactions@.last().signature@ == "Reward"@
            &&& block.previous_hash@ == old(chain).chain@.last().hash@
            &&& block.miner_wallet@ == "MinerWalletAddress"@
            &&& block.hash@ == block@.content_hash()
            &&& block.hash@.len() == 64 && block.hash@[0] == '0' && block.hash@[1] == '0'
            &&& final(chain).chain@.len() == old(chain).chain@.len() + 1
            &&& final(chain).chain@.drop_last() == old(chain).chain@
            &&& final(chain).chain@.last()@ == block@
            &&& final(chain).transaction_pool@.len() == 0
            &&& final(chain).fee_pool.text@ == "0.0"@
        },
        r !is Ok || r->Ok_0 is None ==> *final(chain) == *old(chain),
        r matches Ok(None) <==> old(chain).transaction_pool@.len() == 0,
        r is Err ==> (r matches Err(BlockchainError::IoError(_)) || r matches Err(
            BlockchainError::NonceExhausted,
        )),
        r matches Err(BlockchainError::IoError(text)) ==> (clock matches Err(message) && text@
            == message@),
        clock is Err && old(chain).transaction_pool@.len() > 0 ==> r matches Err(
            BlockchainError::IoError(_),
        ),
{
    assert(chain@.transaction_pool.len() == old(chain).transaction_pool@.len());
    if let Ok(Some(block)) = r {
        held_in_order(block, old(chain).transaction_pool@, old(chain).fee_pool.text@);
    }
}

/// The transactions of a block whose models are those of `waiting` and the reward for `fees`.
proof fn held_in_order(block: Block, waiting: Seq<Transaction>, fees: Seq<char>)
    requires
        crate::transaction::views(block.transactions@) == crate::transaction::views(waiting).push(
            (TransactionView {
                sender: "Network"@,
                receiver: "MinerWalletAddress"@,
                amount: fees,
                fee: "0.0"@,
                signature: "Reward"@,
            }),
        ),
    ensures
        block.transactions@.len() == waiting.len() + 1,
        forall|i: int|
            0 <= i < waiting.len() ==> (#[trigger] block.transactions@[i])@ == waiting[i]@,
        block.transactions@.last().sender@ == "Network"@,
        block.transactions@.last().receiver@ == "MinerWalletAddress"@,
        block.transactions@.last().amount.text@ == fees,
        block.transactions@.last().fee.text@ == "0.0"@,
        block.transactions@.last().signature@ == "Reward"@,
{
    let held = crate::transaction::views(block.transactions@);
    assert(held.len() == block.transactions@.len());
    assert(held.last() == block.transactions@.last()@);
    assert forall|i: int| 0 <= i < waiting.len() implies (#[trigger] block.transactions@[i])@
        == waiting[i]@ by {
        assert(held[i] == crate::transaction::views(waiting)[i]);
    }
}

/// Mining takes the first nonce there is, on every chain: of a block that was mined, every smaller
/// nonce gives a hash without the two zeros; where there is no block though something waits and the
/// clock gave a time, every nonce does.
pub proof fn law_mining_takes_the_first_nonce(
    chain: &mut Blockchain,
    timestamp: u128,
    r: Result<Option<Block>, BlockchainError>,
    nonce: u64,
)
    requires
        call_ensures(Blockchain::mine_pending_transactions_at, (chain, Ok(timestamp)), r),
        old(chain).transaction_pool@.len() > 0,
        r matches Ok(Some(block)) ==> nonce < block.nonce,
    ensures
        ({
            let hash = (BlockView {
                index: (old(chain).chain@.len() % 0x1_0000_0000) as u32,
                timestamp,
                transactions: crate::transaction::views(old(chain).transaction_pool@).push(
                    (TransactionView {
                        sender: "Network"@,
                        receiver: "MinerWalletAddress"@,
                        amount: old(chain).fee_pool.text@,
                        fee: "0.0"@,
                        signature: "Reward"@,
                    }),
                ),
                previous_hash: old(chain)@.chain.last().hash,
                hash: Seq::empty(),
                nonce,
                miner_wallet: "MinerWalletAddress"@,
            }).content_hash();
            !(2 <= hash.len() && hash[0] == '0' && hash[1] == '0')
        }),
{
    let before = old(chain)@;
    let tried = BlockView {
        index: (old(chain).chain@.len() % 0x1_0000_0000) as u32,
        timestamp,
        transactions: crate::transaction::views(old(chain).transaction_pool@).push(
            TransactionView {
                sender: "Network"@,
                receiver: "MinerWalletAddress"@,
                amount: old(chain).fee_pool.text@,
                fee: "0.0"@,
                signature: "Reward"@,
            },
        ),
        previous_hash: before.chain.last().hash,
        hash: Seq::empty(),
        nonce,
        miner_wallet: "MinerWalletAddress"@,
    };
    assert(before.transaction_pool.len() == old(chain).transaction_pool@.len());
    assert(before.chain.len() == old(chain).chain@.len());
    assert(before.next_template(timestamp).with_nonce(nonce) == tried);
    assert(!before.next_template(timestamp).seals(nonce, 2));
}

/// Mining the waiting transactions now puts them, in order, and the reward into one block, whose
/// time was read from the clock. An input or output error only comes from a clock that failed, and
/// where there is no block the chain stays as it is.
pub proof fn law_mine_pending_transactions(
    chain: &mut Blockchain,
    r: Result<Option<Block>, BlockchainError>,
)
    requires
        call_ensures(Blockchain::mine_pending_transactions, (chain,), r),
    ensures
        r matches Ok(Some(block)) ==> {
            &&& read_from_clock(block.timestamp)
            &&& block.index == old(chain).chain@.len() % 0x1_0000_0000
            &&& block.transactions@.len() == old(chain).transaction_pool@.len() + 1
            &&& forall|i: int|
                0 <= i < old(chain).transaction_pool@.len() ==> (#[trigger] block.transactions@[i])@
                    == old(chain).transaction_pool@[i]@
            &&& block.transactions@.last().sender@ == "Network"@
            &&& block.transactions@.last().receiver@ == "MinerWalletAddress"@
            &&& block.transactions@.last().amount.text@ == old(chain).fee_pool.text@
            &&& block.transactions@.last().fee.text@ == "0.0"@
            &&& block.transactions@.last().signature@ == "Reward"@
            &&& block.previous_hash@ == old(chain).chain@.last().hash@
            &&& block.miner_wallet@ == "MinerWalletAddress"@
            &&& block.hash@ == block@.content_hash()
            &&& block.hash@.len() == 64 && block.hash@[0] == '0' && block.hash@[1] == '0'
            &&& final(chain).chain@.len() == old(chain).chain@.len() + 1
            &&& final(chain).chain@.drop_last() == old(chain).chain@
            &&& final(chain).chain@.last()@ == block@
            &&& final(chain).transaction_pool@.len() == 0
            &&& final(chain).fee_pool.text@ == "0.0"@
        },
        r !is Ok || r->Ok_0 is None ==> *final(chain) == *old(chain),
        r matches Ok(None) <==> old(chain).transaction_pool@.len() == 0,
        r matches Err(e) ==> match e {
            BlockchainError::IoError(message) => crate::provenance::given_by_clock(Err(message@)),
            BlockchainError::NonceExhausted => true,
            _ => false,
        },
{
    assert(chain@.transaction_pool.len() == old(chain).transaction_pool@.len());
    match r {
        Ok(Some(block)) => {
            crate::meaning::law_clock(Ok(block.timestamp));
            held_in_order(block, old(chain).transaction_pool@, old(chain).fee_pool.text@);
        },
        Err(BlockchainError::IoError(message)) => {
            crate::meaning::law_clock(Err(message@));
        },
        _ => {},
    }
}

/// A transaction that comes in and is mined stands in the block as it came, last before the reward,
/// however long the chain is.
pub proof fn law_added_transaction_is_mined(
    adding: &mut Blockchain,
    mining: &mut Blockchain,
    transaction: Transaction,
    fee_pool: Amount,
    clock: Result<u128, String>,
    block: Block,
)
    requires
        call_ensures(Blockchain::add_transaction, (adding, transaction, fee_pool), Ok(())),
        *old(mining) == *final(adding),
        call_ensures(Blockchain::mine_pending_transactions_at, (mining, clock), Ok(Some(block))),
    ensures
        ({
            let held = block.transactions@[block.transactions@.len() - 2];
            &&& block.transactions@.len() == old(adding).transaction_pool@.len() + 2
            &&& held.sender@ == transaction.sender@
            &&& held.receiver@ == transaction.receiver@
            &&& held.amount.text@ == transaction.amount.text@
            &&& held.fee.text@ == transaction.fee.text@
            &&& held.signature@ == transaction.signature@
            &&& block.transactions@.last().amount.text@ == fee_pool.text@
        }),
{
    let waiting = old(mining).transaction_pool@;
    held_in_order(block, waiting, old(mining).fee_pool.text@);
    assert(block.transactions@[waiting.len() - 1]@ == waiting[waiting.len() - 1]@);
    assert(waiting[waiting.len() - 1] == transaction);
}

/// A block from a peer is added if it names the hash of the last block and carries the hash of its
/// own content, and otherwise refused; either way nothing else changes.
pub proof fn law_add_block_from_peer(
    chain: &mut Blockchain,
    block: Block,
    hash: String,
    r: Result<(), BlockchainError>,
)
    requires
        call_ensures(Block::calculate_hash, (&block,), hash),
        call_ensures(Blockchain::add_block_from_peer, (chain, block), r),
    ensures
        r is Ok <==> {
            &&& old(chain).chain@.len() > 0
            &&& block.previous_hash@ == old(chain).chain@.last().hash@
            &&& block.hash@ == hash@
        },
        r is Ok ==> final(chain).chain@ == old(chain).chain@.push(block),
        r is Err ==> (r matches Err(BlockchainError::BlockchainInvalid)) && final(chain).chain@
            == old(chain).chain@,
        final(chain).transaction_pool@ == old(chain).transaction_pool@,
        final(chain).fee_pool == old(chain).fee_pool,
{
}

/// What one chain mines, another with the same last block takes as a block from a peer.
pub proof fn law_peers_take_what_is_mined(
    miner: &mut Blockchain,
    peer: &mut Blockchain,
    clock: Result<u128, String>,
    block: Block,
    r: Result<(), BlockchainError>,
)
    requires
        call_ensures(Blockchain::mine_pending_transactions_at, (miner, clock), Ok(Some(block))),
        old(peer).chain@.len() > 0,
        old(peer).chain@.last().hash@ == old(miner).chain@.last().hash@,
        call_ensures(Blockchain::add_block_from_peer, (peer, block), r),
    ensures
        r is Ok,
        final(peer).chain@ == old(peer).chain@.push(block),
{
}

/// The terms of the next fee pool are the fees that wait and the fee of the transaction.
pub proof fn law_fee_terms(chain: &Blockchain, transaction: &Transaction, r: (Amount, Amount))
    requires
        call_ensures(Blockchain::fee_terms, (chain, transaction), r),
    ensures
        r.0.text@ == chain.fee_pool.text@,
        r.1.text@ == transaction.fee.text@,
{
}

// The node.

/// A new node has a new chain and no peers.
pub proof fn law_node_new_at(clock: Result<u128, String>, r: Result<Node, BlockchainError>)
    requires
        call_ensures(Node::new_at, (clock,), r),
    ensures
        r matches Ok(node) ==> {
            &&& node.peers@.len() == 0
            &&& node.blockchain.chain@.len() == 1
            &&& node.blockchain.chain@[0].index == 0
            &&& clock matches Ok(timestamp) && node.blockchain.chain@[0].timestamp == timestamp
            &&& node.blockchain.chain@[0].transactions@.len() == 0
            &&& node.blockchain.chain@[0].previous_hash@ == "0"@
            &&& node.blockchain.chain@[0].miner_wallet@ == "MinerWalletAddress"@
            &&& node.blockchain.chain@[0].hash@ == node.blockchain.chain@[0]@.content_hash()
            &&& node.blockchain.transaction_pool@.len() == 0
            &&& node.blockchain.fee_pool.text@ == "0.0"@
        },
        r is Err ==> (r matches Err(BlockchainError::IoError(_)) || r matches Err(
            BlockchainError::NonceExhausted,
        )),
        clock is Err <==> r matches Err(BlockchainError::IoError(_)),
        clock matches Err(message) ==> (r matches Err(BlockchainError::IoError(text)) && text@
            == message@),
{
    if let Ok(node) = r {
        let b = node.blockchain;
        assert(b@.chain[0] == b.chain@[0]@);
        assert(b@.chain[0].transactions.len() == b.chain@[0].transactions@.len());
        assert(b@.transaction_pool.len() == b.transaction_pool@.len());
        crate::laws::law_mined_block_is_sealed(
            crate::blockchain::genesis_template(clock->Ok_0),
            b@.chain[0],
            2,
        );
    }
}

/// A node that is started now has a new chain, whose time was read from the clock, and no peers.
/// An input or output error only comes from a clock that failed.
pub proof fn law_node_new(r: Result<Node, BlockchainError>)
    requires
        call_ensures(Node::new, (), r),
    ensures
        match r {
            Ok(node) => {
                &&& node.peers@.len() == 0
                &&& node.blockchain.chain@.len() == 1
                &&& read_from_clock(node.blockchain.chain@[0].timestamp)
                &&& node.blockchain.chain@[0].index == 0
                &&& node.blockchain.chain@[0].transactions@.len() == 0
                &&& node.blockchain.chain@[0].previous_hash@ == "0"@
                &&& node.blockchain.chain@[0].miner_wallet@ == "MinerWalletAddress"@
                &&& node.blockchain.chain@[0].hash@ == node.blockchain.chain@[0]@.content_hash()
                &&& node.blockchain.transaction_pool@.len() == 0
                &&& node.blockchain.fee_pool.text@ == "0.0"@
            },
            Err(e) => match e {
                BlockchainError::IoError(message) => crate::provenance::given_by_clock(
                    Err(message@),
                ),
                BlockchainError::NonceExhausted => true,
                _ => false,
            },
        },
{
    match r {
        Ok(node) => {
            let b = node.blockchain;
            assert(b@.chain[0] == b.chain@[0]@);
            assert(b@.chain[0].transactions.len() == b.chain@[0].transactions@.len());
            assert(b@.transaction_pool.len() == b.transaction_pool@.len());
            crate::meaning::law_clock(Ok(b.chain@[0].timestamp));
            crate::laws::law_mined_block_is_sealed(
                crate::blockchain::genesis_template(b.chain@[0].timestamp),
                b@.chain[0],
                2,
            );
        },
        Err(BlockchainError::IoError(message)) => {
            crate::meaning::law_clock(Err(message@));
        },
        Err(_) => {},
    }
}

/// A transaction that a connection brings is mined at once, on every chain: the block that is
/// broadcast has the given time and holds what waited, the transaction as it came, and the reward.
/// An input or output error is the message of a clock that failed, and then the transaction waits.
pub proof fn law_handle_transaction_at(
    node: &mut Node,
    transaction: Transaction,
    fee_pool: Amount,
    clock: Result<u128, String>,
    r: SocketAction,
)
    requires
        call_ensures(
            crate::node::handle_transaction_connection_at,
            (node, SocketEvent::Transaction(transaction, fee_pool), clock),
            r,
        ),
    ensures
        final(node).peers@ == old(node).peers@,
        match r {
            SocketAction::Broadcast(block) => {
                let waiting = old(node).blockchain.transaction_pool@.push(transaction);
                &&& clock matches Ok(timestamp) && block.timestamp == timestamp
                &&& block.index == old(node).blockchain.chain@.len() % 0x1_0000_0000
                &&& block.transactions@.len() == waiting.len() + 1
                &&& forall|i: int|
                    0 <= i < waiting.len() ==> (#[trigger] block.transactions@[i])@ == waiting[i]@
                &&& block.transactions@.last().sender@ == "Network"@
                &&& block.transactions@.last().receiver@ == "MinerWalletAddress"@
                &&& block.transactions@.last().amount.text@ == fee_pool.text@
                &&& block.transactions@.last().fee.text@ == "0.0"@
                &&& block.transactions@.last().signature@ == "Reward"@
                &&& block.previous_hash@ == old(node).blockchain.chain@.last().hash@
                &&& block.miner_wallet@ == "MinerWalletAddress"@
                &&& block.hash@ == block@.content_hash()
                &&& block.hash@.len() == 64 && block.hash@[0] == '0' && block.hash@[1] == '0'
                &&& final(node).blockchain.chain@.len() == old(node).blockchain.chain@.len() + 1
                &&& final(node).blockchain.chain@.drop_last() == old(node).blockchain.chain@
                &&& final(node).blockchain.chain@.last()@ == block@
                &&& final(node).blockchain.transaction_pool@.len() == 0
                &&& final(node).blockchain.fee_pool.text@ == "0.0"@
            },
            SocketAction::Finish(Err(e)) => {
                &&& match e {
                    BlockchainError::IoError(text) => clock matches Err(message) && text@
                        == message@,
                    BlockchainError::NonceExhausted => clock is Ok,
                    _ => false,
                }
                &&& final(node).blockchain.chain@ == old(node).blockchain.chain@
                &&& final(node).blockchain.transaction_pool@
                    == old(node).blockchain.transaction_pool@.push(transaction)
                &&& final(node).blockchain.fee_pool == fee_pool
            },
            _ => false,
        },
        clock is Err ==> r is Finish,
{
    if let SocketAction::Broadcast(block) = r {
        let waiting = old(node).blockchain.transaction_pool@.push(transaction);
        assert(crate::transaction::views(waiting) =~= crate::transaction::views(
            old(node).blockchain.transaction_pool@,
        ).push(transaction@));
        held_in_order(block, waiting, fee_pool.text@);
    }
}

/// Handling a transaction is adding it and mining: on equal chains the two have the same outcome.
pub proof fn law_handling_is_adding_and_mining(
    node: &mut Node,
    adding: &mut Blockchain,
    mining: &mut Blockchain,
    transaction: Transaction,
    fee_pool: Amount,
    clock: Result<u128, String>,
    handled: SocketAction,
    mined: Result<Option<Block>, BlockchainError>,
)
    requires
        call_ensures(
            crate::node::handle_transaction_connection_at,
            (node, SocketEvent::Transaction(transaction, fee_pool), clock),
            handled,
        ),
        *old(adding) == old(node).blockchain,
        call_ensures(Blockchain::add_transaction, (adding, transaction, fee_pool), Ok(())),
        *old(mining) == *final(adding),
        call_ensures(Blockchain::mine_pending_transactions_at, (mining, clock), mined),
    ensures
        match mined {
            Ok(Some(block)) => handled matches SocketAction::Broadcast(sent) && sent@ == block@,
            Ok(None) => false,
            Err(e) => handled matches SocketAction::Finish(Err(reason)) && reason@ == e@,
        },
        final(node).blockchain@ == final(mining)@,
{
    let waiting = old(mining)@;
    assert(waiting.transaction_pool.len() == old(mining).transaction_pool@.len());
    if let Ok(Some(block)) = mined {
        let timestamp = clock->Ok_0;
        if let SocketAction::Broadcast(sent) = handled {
            crate::laws::law_mining_has_one_outcome(
                waiting.next_template(timestamp),
                sent@,
                block@,
                2,
            );
        }
    }
}

/// A transaction that a connection brings now is mined at once, on every chain: the block that is
/// broadcast has a time that was read from the clock. An input or output error only comes from a
/// clock that failed, and then the transaction waits.
pub proof fn law_handle_transaction(
    node: &mut Node,
    transaction: Transaction,
    fee_pool: Amount,
    r: SocketAction,
)
    requires
        call_ensures(
            crate::node::handle_transaction_connection,
            (node, SocketEvent::Transaction(transaction, fee_pool)),
            r,
        ),
    ensures
        final(node).peers@ == old(node).peers@,
        match r {
            SocketAction::Broadcast(block) => {
                let waiting = old(node).blockchain.transaction_pool@.push(transaction);
                &&& read_from_clock(block.timestamp)
                &&& block.index == old(node).blockchain.chain@.len() % 0x1_0000_0000
                &&& block.transactions@.len() == waiting.len() + 1
                &&& forall|i: int|
                    0 <= i < waiting.len() ==> (#[trigger] block.transactions@[i])@ == waiting[i]@
                &&& block.transactions@.last().sender@ == "Network"@
                &&& block.transactions@.last().receiver@ == "MinerWalletAddress"@
                &&& block.transactions@.last().amount.text@ == fee_pool.text@
                &&& block.transactions@.last().fee.text@ == "0.0"@
                &&& block.transactions@.last().signature@ == "Reward"@
                &&& block.previous_hash@ == old(node).blockchain.chain@.last().hash@
                &&& block.miner_wallet@ == "MinerWalletAddress"@
                &&& block.hash@ == block@.content_hash()
                &&& block.hash@.len() == 64 && block.hash@[0] == '0' && block.hash@[1] == '0'
                &&& final(node).blockchain.chain@.len() == old(node).blockchain.chain@.len() + 1
                &&& final(node).blockchain.chain@.drop_last() == old(node).blockchain.chain@
                &&& final(node).blockchain.chain@.last()@ == block@
                &&& final(node).blockchain.transaction_pool@.len() == 0
                &&& final(node).blockchain.fee_pool.text@ == "0.0"@
            },
            SocketAction::Finish(Err(e)) => {
                &&& match e {
                    BlockchainError::IoError(message) => crate::provenance::given_by_clock(
                        Err(message@),
                    ),
                    BlockchainError::NonceExhausted => true,
                    _ => false,
                }
                &&& final(node).blockchain.chain@ == old(node).blockchain.chain@
                &&& final(node).blockchain.transaction_pool@
                    == old(node).blockchain.transaction_pool@.push(transaction)
                &&& final(node).blockchain.fee_pool == fee_pool
            },
            _ => false,
        },
{
    match r {
        SocketAction::Broadcast(block) => {
            let waiting = old(node).blockchain.transaction_pool@.push(transaction);
            assert(crate::transaction::views(waiting) =~= crate::transaction::views(
                old(node).blockchain.transaction_pool@,
            ).push(transaction@));
            held_in_order(block, waiting, fee_pool.text@);
            crate::meaning::law_clock(Ok(block.timestamp));
        },
        SocketAction::Finish(Err(BlockchainError::IoError(message))) => {
            crate::meaning::law_clock(Err(message@));
        },
        _ => {},
    }
}

/// What brings no transaction leaves the node as it is, and reads on unless the connection ended.
pub proof fn law_handle_other(
    node_at: &mut Node,
    node: &mut Node,
    event: SocketEvent,
    clock: Result<u128, String>,
    r_at: SocketAction,
    r: SocketAction,
)
    requires
        event !is Transaction,
        call_ensures(
            crate::node::handle_transaction_connection_at,
            (node_at, event, clock),
            r_at,
        ),
        call_ensures(crate::node::handle_transaction_connection, (node, event), r),
    ensures
        *final(node_at) == *old(node_at),
        *final(node) == *old(node),
        match event {
            SocketEvent::Malformed(reason) => {
                &&& r_at matches SocketAction::Report(text) && text@ == reason@
                &&& r matches SocketAction::Report(text) && text@ == reason@
            },
            SocketEvent::Failed(reason) => {
                &&& r_at matches SocketAction::Report(text) && text@ == reason@
                &&& r matches SocketAction::Report(text) && text@ == reason@
            },
            SocketEvent::NonText => r_at is Ignore && r is Ignore,
            SocketEvent::Closed => {
                &&& r_at matches SocketAction::Finish(Ok(()))
                &&& r matches SocketAction::Finish(Ok(()))
            },
            SocketEvent::Transaction(_, _) => false,
        },
{
}

/// A block that a peer sends is an error for a node if and only if the node's chain would refuse
/// it; nothing else that a peer sends is one.
pub proof fn law_handle_peer_connection(
    node: &Node,
    chain: &mut Blockchain,
    block: Block,
    r: Result<(), BlockchainError>,
    added: Result<(), BlockchainError>,
    message: PeerMessage,
    other: Result<(), BlockchainError>,
)
    requires
        call_ensures(Node::handle_peer_connection, (node, PeerMessage::Block(block)), r),
        *old(chain) == node.blockchain,
        call_ensures(Blockchain::add_block_from_peer, (chain, block), added),
        message !is Block,
        call_ensures(Node::handle_peer_connection, (node, message), other),
    ensures
        r is Ok <==> added is Ok,
        r matches Err(e) ==> e is BlockchainInvalid,
        r is Ok <==> {
            &&& node.blockchain.chain@.len() > 0
            &&& block.previous_hash@ == node.blockchain.chain@.last().hash@
            &&& block.hash@ == block@.content_hash()
        },
        other is Ok,
{
}

/// Connecting to a peer lists it behind the others, once, and leaves the chain as it is; a peer
/// that was not reached is not listed. The chain is sent to a peer that was reached.
pub proof fn law_connect_to_peer(node: &mut Node, addr: PeerAddr, connected: bool, send: bool)
    requires
        call_ensures(Node::connect_to_peer, (node, addr, connected), send),
    ensures
        send == connected,
        final(node).blockchain == old(node).blockchain,
        connected && !old(node).peers@.contains(addr) ==> final(node).peers@ == old(
            node,
        ).peers@.push(addr),
        !connected || old(node).peers@.contains(addr) ==> final(node).peers@ == old(node).peers@,
{
}

/// Connecting to a peer twice lists it as connecting once does.
pub proof fn law_connecting_again_lists_nothing(
    first: &mut Node,
    second: &mut Node,
    addr: PeerAddr,
    send: bool,
    send_again: bool,
)
    requires
        call_ensures(Node::connect_to_peer, (first, addr, true), send),
        *old(second) == *final(first),
        call_ensures(Node::connect_to_peer, (second, addr, true), send_again),
    ensures
        final(second).peers@ == final(first).peers@,
        final(second).peers@.contains(addr),
        send_again,
{
}

/// A block is broadcast to every peer that is listed, in order.
pub proof fn law_broadcast_block(node: &Node, r: Vec<PeerAddr>)
    requires
        call_ensures(Node::broadcast_block, (node,), r),
    ensures
        r@.len() == node.peers@.len(),
        forall|i: int| 0 <= i < r@.len() ==> #[trigger] r@[i] == node.peers@[i],
{
}

/// A listener for peers serves every connection with the node it started with, reports a connection
/// that fails, and ends only where its address cannot be bound.
pub proof fn law_listen_for_peers(
    listener: &PeerListener,
    event: ListenerEvent,
    r: PeerListenerAction,
)
    requires
        call_ensures(PeerListener::listen_for_peers, (listener, event), r),
    ensures
        match event {
            ListenerEvent::Bound => r is Accept,
            ListenerEvent::BindFailed(reason) => r matches PeerListenerAction::Finish(
                BlockchainError::IoError(text),
            ) && text@ == reason@,
            ListenerEvent::Accepted => r matches PeerListenerAction::Serve(node)
                && node.blockchain@ == listener.node.blockchain@ && node.peers@
                == listener.node.peers@,
            ListenerEvent::AcceptFailed(reason) => r matches PeerListenerAction::Report(text)
                && text@ == reason@,
        },
{
}

/// A listener for WebSocket connections serves every connection, and ends with an error where its
/// address cannot be bound and without one where a connection fails.
pub proof fn law_start_websocket_listener(event: ListenerEvent, r: ListenerAction)
    requires
        call_ensures(Node::start_websocket_listener, (event,), r),
    ensures
        match event {
            ListenerEvent::Bound => r is Accept,
            ListenerEvent::BindFailed(reason) => r matches ListenerAction::Finish(
                Err(BlockchainError::IoError(text)),
            ) && text@ == reason@,
            ListenerEvent::Accepted => r is Serve,
            ListenerEvent::AcceptFailed(_) => r matches ListenerAction::Finish(Ok(())),
        },
{
}

/// A node listens for peers at the port it was given, or at a drawn one where it was given none,
/// with its chain and its peers; WebSocket connections come in at the next port.
pub proof fn law_listeners_have_neighbouring_ports(
    node: &Node,
    port: u16,
    listener: PeerListener,
    websocket: Endpoint,
)
    requires
        call_ensures(Node::start_listener, (node, port), listener),
        listener.endpoint.port < u16::MAX,
        call_ensures(Endpoint::websocket, (listener.endpoint.port,), websocket),
    ensures
        port != 0 ==> listener.endpoint.port == port,
        port == 0 ==> 1024 <= listener.endpoint.port < 65535 && crate::provenance::drawn_between(
            1024,
            65535,
            listener.endpoint.port,
        ),
        listener.endpoint.addr@ == "127.0.0.1:"@ + crate::text::decimal(
            listener.endpoint.port as nat,
        ),
        listener.node.blockchain@ == node.blockchain@,
        listener.node.peers@ == node.peers@,
        websocket.port == listener.endpoint.port + 1,
        websocket.addr@ == "127.0.0.1:"@ + crate::text::decimal(websocket.port as nat),
{
}

/// Where a node listens: at the port it was given, or, where that is 0, at the drawn one.
pub proof fn law_listening_endpoint(port: u16, drawn: u16, r: Endpoint)
    requires
        call_ensures(Node::listening_endpoint, (port, drawn), r),
    ensures
        port != 0 ==> r.port == port,
        port == 0 ==> r.port == drawn,
        r.addr@ == "127.0.0.1:"@ + crate::text::decimal(r.port as nat),
{
}

// Copies, texts and wallets.

/// A copy holds what its original holds.
pub proof fn law_copies(
    amount: &Amount,
    amount_copy: Amount,
    transaction: &Transaction,
    transaction_copy: Transaction,
    block: &Block,
    block_copy: Block,
    chain: &Blockchain,
    chain_copy: Blockchain,
    node: &Node,
    node_copy: Node,
)
    requires
        call_ensures(Amount::clone, (amount,), amount_copy),
        call_ensures(Transaction::clone, (transaction,), transaction_copy),
        call_ensures(Block::clone, (block,), block_copy),
        call_ensures(Blockchain::clone, (chain,), chain_copy),
        call_ensures(Node::clone, (node,), node_copy),
    ensures
        amount_copy.text@ == amount.text@,
        transaction_copy@ == transaction@,
        block_copy@ == block@,
        chain_copy@ == chain@,
        node_copy.blockchain@ == node.blockchain@,
        node_copy.peers@ == node.peers@,
{
}

/// The transaction that pays the miner.
pub proof fn law_reward_transaction(fees: Amount, r: Transaction)
    requires
        call_ensures(Transaction::reward, (fees,), r),
    ensures
        r.sender@ == "Network"@,
        r.receiver@ == "MinerWalletAddress"@,
        r.amount.text@ == fees.text@,
        r.fee.text@ == "0.0"@,
        r.signature@ == "Reward"@,
{
}

/// A transaction is printed behind what was there, field by field.
pub proof fn law_push_text(transaction: &Transaction, out: &mut String)
    requires
        call_ensures(Transaction::push_text, (transaction, out), ()),
    ensures
        final(out)@ == old(out)@ + ("Transaction { sender: "@ + crate::text::debug_text(
            transaction.sender@,
        ) + ", receiver: "@ + crate::text::debug_text(transaction.receiver@) + ", amount: "@
            + transaction.amount.text@ + ", fee: "@ + transaction.fee.text@ + ", signature: "@
            + crate::text::debug_text(transaction.signature@) + " }"@),
{
}

/// The text of an error is its kind and the message it carries.
pub proof fn law_error_message(e: &BlockchainError, r: String)
    requires
        call_ensures(BlockchainError::message, (e,), r),
    ensures
        match e {
            BlockchainError::IoError(s) => r@ == "IO Error occurred: "@ + s@,
            BlockchainError::SerdeJsonError(s) => r@ == "Serde JSON Error: "@ + s@,
            BlockchainError::RingError(s) => r@ == "Ring Crypto Error: "@ + s@,
            BlockchainError::WebSocketError(s) => r@ == "WebSocket Error: "@ + s@,
            BlockchainError::InvalidPeerAddress => r@ == "Invalid Peer Address"@,
            BlockchainError::BlockchainInvalid => r@ == "Blockchain Validation Failed"@,
            BlockchainError::TransactionError(s) => r@ == "Transaction Error: "@ + s@,
            BlockchainError::NonceExhausted => r@ == "Nonce Space Exhausted"@,
        },
{
}

/// A wallet is the hexadecimal public key of the pair that was drawn, and has 64 characters; where
/// nothing was drawn, or what was drawn is rejected, the error says so.
pub proof fn law_wallet_from_pkcs8(
    drawn: Result<Vec<u8>, String>,
    r: Result<String, BlockchainError>,
)
    requires
        call_ensures(crate::wallet::wallet_from_pkcs8, (drawn,), r),
    ensures
        match drawn {
            Err(reason) => r matches Err(BlockchainError::RingError(text)) && text@
                == "Key generation error: "@ + reason@,
            Ok(pkcs8) => match crate::crypto::ed25519_public_key(pkcs8@) {
                Err(reason) => r matches Err(BlockchainError::RingError(text)) && text@
                    == "Key pair error: "@ + reason,
                Ok(key) => r matches Ok(address) && address@ == crate::crypto::hex_text(key)
                    && address@.len() == 64,
            },
        },
{
}

/// A new wallet belongs to a pair that the generator drew; the one error there is comes from a
/// generator that failed.
pub proof fn law_generate_wallet(r: Result<String, BlockchainError>)
    requires
        call_ensures(crate::wallet::generate_wallet, (), r),
    ensures
        match r {
            Ok(address) => {
                &&& address@.len() == 64
                &&& exists|pkcs8: Seq<u8>|
                    #[trigger] crate::provenance::given_by_generator(Ok(pkcs8))
                        && crate::crypto::ed25519_public_key(pkcs8) is Ok && address@
                        == crate::crypto::hex_text(crate::crypto::ed25519_public_key(pkcs8)->Ok_0)
            },
            Err(e) => {
                &&& e matches BlockchainError::RingError(text) && text@
                    == "Key generation error: "@ + "Unspecified"@
                &&& crate::provenance::given_by_generator(Err("Unspecified"@))
            },
        },
{
}

/// The text of a peer's message is read from the bytes that came and from no others: valid UTF-8
/// reads as it stands.
pub proof fn law_received_text(buffer: &Vec<u8>, size: usize, r: Option<String>)
    requires
        call_ensures(crate::network::received_text, (buffer, size), r),
    ensures
        r is None <==> size == 0,
        r matches Some(text) ==> {
            &&& text@ == crate::text::lossy_text(buffer@.take(size as int))
            &&& vstd::utf8::valid_utf8(buffer@.take(size as int)) ==> text@
                == vstd::utf8::decode_utf8(buffer@.take(size as int))
        },
{
}

/// A numeral, and a list of transactions, are printed behind what was there.
pub proof fn law_push_decimal_and_list(
    numeral: &mut String,
    n: u128,
    list: &mut String,
    transactions: &Vec<Transaction>,
)
    requires
        call_ensures(crate::text::push_decimal, (numeral, n), ()),
        call_ensures(crate::transaction::push_list_text, (transactions, list), ()),
    ensures
        final(numeral)@ == old(numeral)@ + crate::text::decimal(n as nat),
        final(list)@ == old(list)@ + crate::transaction::list_text(
            crate::transaction::views(transactions@),
        ),
{
}

/// A reading of the clock becomes its whole milliseconds, or stays the error that it is.
pub proof fn law_millis_from(reading: Result<(u64, u32), String>, r: Result<u128, String>)
    requires
        call_ensures(crate::clock::millis_from, (reading,), r),
    ensures
        match reading {
            Ok(time) => r matches Ok(millis) && millis == time.0 * 1000 + time.1 / 1_000_000,
            Err(message) => r matches Err(text) && text@ == message@,
        },
{
}

// What a call needs.

/// Blocks, chains and nodes can be made from whatever is given.
pub proof fn law_making_needs_nothing(
    index: u32,
    transactions: Vec<Transaction>,
    previous_hash: String,
    miner_wallet: String,
    clock: Result<u128, String>,
)
    ensures
        call_requires(
            Block::new_at,
            (index, transactions, previous_hash, miner_wallet, clock),
        ),
        call_requires(Block::new, (index, transactions, previous_hash, miner_wallet)),
        call_requires(Blockchain::create_genesis_block_at, (clock,)),
        call_requires(Blockchain::create_genesis_block, ()),
        call_requires(Blockchain::new_at, (clock,)),
        call_requires(Blockchain::new, ()),
        call_requires(Node::new_at, (clock,)),
        call_requires(Node::new, ()),
        call_requires(crate::clock::unix_millis, ()),
        call_requires(crate::wallet::generate_wallet, ()),
{
}

/// Every block has a hash, and can be mined for up to as many zeros as a hash has characters.
pub proof fn law_mining_needs_a_difficulty_in_range(block: &Block, mined: &mut Block, zeros: usize)
    ensures
        call_requires(Block::calculate_hash, (block,)),
        zeros <= 64 ==> call_requires(Block::find_nonce, (block, zeros)),
        zeros <= 64 ==> call_requires(Block::try_mine_block, (mined, zeros)),
        zeros <= 64 && old(mined)@.can_be_sealed(zeros as nat) ==> call_requires(
            Block::mine_block,
            (mined, zeros),
        ),
{
}

/// Every chain takes every transaction and every block from a peer, and a chain that has a block
/// can be mined from.
pub proof fn law_chains_take_everything(
    chain: &mut Blockchain,
    transaction: Transaction,
    fee_pool: Amount,
    block: Block,
    clock: Result<u128, String>,
)
    ensures
        call_requires(Blockchain::add_transaction, (chain, transaction, fee_pool)),
        call_requires(Blockchain::add_block_from_peer, (chain, block)),
        old(chain).chain@.len() > 0 || old(chain).transaction_pool@.len() == 0 ==> call_requires(
            Blockchain::mine_pending_transactions_at,
            (chain, clock),
        ),
        old(chain).chain@.len() > 0 || old(chain).transaction_pool@.len() == 0 ==> call_requires(
            Blockchain::mine_pending_transactions,
            (chain,),
        ),
{
    assert(chain@.chain.len() == old(chain).chain@.len());
    assert(chain@.transaction_pool.len() == old(chain).transaction_pool@.len());
}

/// A node takes whatever a peer or a connection brings, if it has a block.
pub proof fn law_nodes_take_everything(
    node: &mut Node,
    shared: &Node,
    event: SocketEvent,
    clock: Result<u128, String>,
    message: PeerMessage,
    addr: PeerAddr,
    connected: bool,
    port: u16,
    listener: &PeerListener,
    listening: ListenerEvent,
)
    ensures
        old(node).blockchain.chain@.len() > 0 || event !is Transaction ==> call_requires(
            crate::node::handle_transaction_connection_at,
            (node, event, clock),
        ),
        old(node).blockchain.chain@.len() > 0 || event !is Transaction ==> call_requires(
            crate::node::handle_transaction_connection,
            (node, event),
        ),
        call_requires(Node::handle_peer_connection, (shared, message)),
        call_requires(Node::connect_to_peer, (node, addr, connected)),
        call_requires(Node::broadcast_block, (shared,)),
        call_requires(Node::start_listener, (shared, port)),
        call_requires(Node::start_websocket_listener, (listening,)),
        call_requires(PeerListener::listen_for_peers, (listener, listening)),
{
    assert(node@.blockchain.chain.len() == old(node).blockchain.chain@.len());
}

} // verus!
