//! What holds of the ledger as a whole, whichever way its functions are called.

use crate::block::{BlockView, DIFFICULTY};
use crate::blockchain::BlockchainView;
use crate::network::{ListenerEvent, PeerAddr};
use crate::node::{NodeView, PeerListenerActionView};
use crate::transaction::TransactionView;
use vstd::prelude::*;

verus! {

/// A mined block carries the hash of its content, and that hash begins with the zeros asked for.
pub proof fn law_mined_block_is_sealed(template: BlockView, mined: BlockView, difficulty: nat)
    requires
        template.mined_into(mined, difficulty),
    ensures
        mined.hash == mined.content_hash(),
        crate::block::begins_with_zeros(mined.hash, difficulty),
{
    assert(mined.preimage() == template.with_nonce(mined.nonce).preimage());
    assert(template.seals(mined.nonce, difficulty));
}

/// Mining is determined by the block: it has one outcome.
pub proof fn law_mining_has_one_outcome(
    template: BlockView,
    a: BlockView,
    b: BlockView,
    difficulty: nat,
)
    requires
        template.mined_into(a, difficulty),
        template.mined_into(b, difficulty),
    ensures
        a == b,
{
    assert(template.seals(a.nonce, difficulty));
    assert(template.seals(b.nonce, difficulty));
}

/// Mining a mined block again, for as many zeros or fewer, leaves it as it is.
pub proof fn law_mining_again_changes_nothing(
    template: BlockView,
    mined: BlockView,
    again: BlockView,
    difficulty: nat,
    difficulty_again: nat,
)
    requires
        template.mined_into(mined, difficulty),
        difficulty_again <= difficulty,
        mined.mined_into(again, difficulty_again),
    ensures
        again == mined,
{
    law_mined_block_is_sealed(template, mined, difficulty);
    assert(mined.with_nonce(mined.nonce) == mined);
    assert(mined.seals(mined.nonce, difficulty_again));
    assert(mined.seals(again.nonce, difficulty_again));
}

/// What one node mines, every node with the same last block accepts from it.
pub proof fn law_mined_block_is_accepted(
    miner: BlockchainView,
    peer: BlockchainView,
    timestamp: u128,
    block: BlockView,
)
    requires
        peer.chain.len() > 0,
        peer.chain.last().hash == miner.chain.last().hash,
        miner.next_template(timestamp).mined_into(block, DIFFICULTY as nat),
    ensures
        peer.accepts(block),
{
    law_mined_block_is_sealed(miner.next_template(timestamp), block, DIFFICULTY as nat);
}

/// The bytes that a block hashes.
pub open spec fn hashed_bytes(block: BlockView) -> Seq<u8> {
    vstd::utf8::encode_utf8(block.preimage())
}

/// Whether two blocks are a collision: they hash different bytes to the same digest.
pub open spec fn collide(a: BlockView, b: BlockView) -> bool {
    &&& hashed_bytes(a) != hashed_bytes(b)
    &&& crate::crypto::sha256(hashed_bytes(a)) == crate::crypto::sha256(hashed_bytes(b))
}

/// Different bytes have different hexadecimal texts.
pub proof fn law_hex_text_tells_bytes_apart(a: Seq<u8>, b: Seq<u8>)
    requires
        crate::crypto::hex_text(a) == crate::crypto::hex_text(b),
    ensures
        a == b,
{
    let x = crate::crypto::hex_text(a);
    let y = crate::crypto::hex_text(b);
    assert(x.len() == 2 * a.len());
    assert(y.len() == 2 * b.len());
    assert forall|i: int| 0 <= i < a.len() implies a[i] == b[i] by {
        assert(x[2 * i] == y[2 * i]);
        assert(x[2 * i + 1] == y[2 * i + 1]);
        assert((2 * i) / 2 == i && (2 * i + 1) / 2 == i);
        assert((2 * i) % 2 == 0 && (2 * i + 1) % 2 == 1);
    }
    assert(a =~= b);
}

/// Blocks with the same hash hash the same text, unless SHA-256 collides on them.
pub proof fn law_same_hash_means_same_text(a: BlockView, b: BlockView)
    requires
        a.content_hash() == b.content_hash(),
    ensures
        a.preimage() == b.preimage() || collide(a, b),
{
    law_hex_text_tells_bytes_apart(
        crate::crypto::sha256(hashed_bytes(a)),
        crate::crypto::sha256(hashed_bytes(b)),
    );
    vstd::utf8::encode_utf8_decode_utf8(a.preimage());
    vstd::utf8::encode_utf8_decode_utf8(b.preimage());
}

/// A block whose hashed text was changed while its hash was kept is accepted by nobody, unless
/// SHA-256 collides on the two texts.
pub proof fn law_changed_block_is_refused(
    chain: BlockchainView,
    block: BlockView,
    changed: BlockView,
)
    requires
        block.hash == block.content_hash(),
        changed.hash == block.hash,
        changed.preimage() != block.preimage(),
    ensures
        !chain.accepts(changed) || collide(block, changed),
{
    if chain.accepts(changed) {
        law_same_hash_means_same_text(block, changed);
    }
}

/// A block is accepted once: on top of itself it is refused, unless it names its own hash as the
/// hash before it.
pub proof fn law_block_is_accepted_once(chain: BlockchainView, block: BlockView)
    requires
        chain.accepts(block),
        block.previous_hash != block.hash,
    ensures
        !chain.with_block(block).accepts(block),
{
}

/// A mined block holds every waiting transaction in the order in which they came, then the
/// reward, which pays the waiting fees to the miner, and nothing else; nothing waits after it.
pub proof fn law_mined_block_settles_the_pool(
    before: BlockchainView,
    timestamp: u128,
    block: BlockView,
)
    requires
        before.next_template(timestamp).mined_into(block, DIFFICULTY as nat),
    ensures
        block.transactions.len() == before.transaction_pool.len() + 1,
        block.transactions.drop_last() == before.transaction_pool,
        block.transactions.last() == TransactionView::reward(before.fee_pool),
        block.transactions.last().receiver == block.miner_wallet,
        before.settled_by(block).transaction_pool.len() == 0,
        before.settled_by(block).fee_pool == "0.0"@,
{
    assert(block.transactions.drop_last() =~= before.transaction_pool);
}

/// A new chain is linked.
pub proof fn law_new_chain_is_linked(chain: BlockchainView, timestamp: u128)
    requires
        chain.starts_at(timestamp),
    ensures
        crate::blockchain::linked(chain.chain),
{
    law_mined_block_is_sealed(
        crate::blockchain::genesis_template(timestamp),
        chain.chain[0],
        DIFFICULTY as nat,
    );
}

/// The block that the waiting transactions were mined into, with what it was mined from.
proof fn mined_block(before: BlockchainView, after: BlockchainView) -> (r: (u128, BlockView))
    requires
        crate::blockchain::mines(before, after),
    ensures
        before.next_template(r.0).mined_into(r.1, DIFFICULTY as nat),
        before.chain.len() > 0,
        after == before.settled_by(r.1),
        r.1.hash == r.1.content_hash(),
        crate::block::begins_with_zeros(r.1.hash, DIFFICULTY as nat),
{
    let (timestamp, block) = choose|timestamp: u128, block: BlockView|
        {
            &&& #[trigger] before.next_template(timestamp).mined_into(block, DIFFICULTY as nat)
            &&& before.chain.len() > 0
            &&& after == before.settled_by(block)
        };
    law_mined_block_is_sealed(before.next_template(timestamp), block, DIFFICULTY as nat);
    (timestamp, block)
}

/// Every operation keeps a chain linked.
pub proof fn law_step_keeps_links(before: BlockchainView, after: BlockchainView)
    requires
        crate::blockchain::linked(before.chain),
        crate::blockchain::step(before, after),
    ensures
        crate::blockchain::linked(after.chain),
{
    if crate::blockchain::mines(before, after) {
        mined_block(before, after);
    }
}

/// No operation takes a block away or changes one: the chain only grows, by one block at most.
pub proof fn law_step_keeps_history(before: BlockchainView, after: BlockchainView)
    requires
        crate::blockchain::step(before, after),
    ensures
        before.chain.is_prefix_of(after.chain),
        after.chain.len() <= before.chain.len() + 1,
{
    assert(before.chain =~= after.chain.take(before.chain.len() as int));
}

/// Whether `states` is a run: a new chain, and then one operation after the other.
pub open spec fn run(states: Seq<BlockchainView>) -> bool {
    &&& states.len() > 0
    &&& exists|timestamp: u128| #[trigger] states[0].starts_at(timestamp)
    &&& forall|i: int|
        0 < i < states.len() ==> crate::blockchain::step(states[i - 1], #[trigger] states[i])
}

/// Whatever is done with a new chain, it has blocks, it stays linked, and its first block stays.
pub proof fn law_every_reachable_chain_is_linked(states: Seq<BlockchainView>, i: int)
    requires
        run(states),
        0 <= i < states.len(),
    ensures
        states[i].chain.len() > 0,
        crate::blockchain::linked(states[i].chain),
        states[i].chain[0] == states[0].chain[0],
    decreases i,
{
    if i == 0 {
        let timestamp = choose|timestamp: u128| #[trigger] states[0].starts_at(timestamp);
        law_new_chain_is_linked(states[0], timestamp);
    } else {
        law_every_reachable_chain_is_linked(states, i - 1);
        assert(crate::blockchain::step(states[i - 1], states[i]));
        law_step_keeps_links(states[i - 1], states[i]);
        law_step_keeps_history(states[i - 1], states[i]);
        assert(states[i].chain.take(states[i - 1].chain.len() as int)[0] == states[i].chain[0]);
    }
}

/// Whether every block carries its position and a hash that begins with the zeros of a mined
/// block.
pub open spec fn numbered_and_sealed(chain: Seq<BlockView>) -> bool {
    forall|i: int|
        0 <= i < chain.len() ==> {
            &&& (#[trigger] chain[i]).index == i % 0x1_0000_0000
            &&& crate::block::begins_with_zeros(chain[i].hash, DIFFICULTY as nat)
        }
}

/// The block of a new chain carries its position and is sealed.
pub proof fn law_new_chain_is_numbered_and_sealed(chain: BlockchainView, timestamp: u128)
    requires
        chain.starts_at(timestamp),
    ensures
        numbered_and_sealed(chain.chain),
{
    law_mined_block_is_sealed(
        crate::blockchain::genesis_template(timestamp),
        chain.chain[0],
        DIFFICULTY as nat,
    );
}

/// Mining keeps it so that every block carries its position and is sealed. (A block from a peer
/// need not carry its position, nor be sealed.)
pub proof fn law_mining_keeps_chain_numbered_and_sealed(
    before: BlockchainView,
    after: BlockchainView,
)
    requires
        numbered_and_sealed(before.chain),
        crate::blockchain::mines(before, after),
    ensures
        numbered_and_sealed(after.chain),
{
    mined_block(before, after);
}

/// One operation of a node that takes no block from a peer: nothing, a transaction that comes in,
/// or a block that is mined.
pub open spec fn own_step(before: BlockchainView, after: BlockchainView) -> bool {
    ||| after == before
    ||| exists|transaction: TransactionView, fee_pool: Seq<char>|
        after == #[trigger] before.with_transaction(transaction, fee_pool)
    ||| crate::blockchain::mines(before, after)
}

/// Whether `states` is a run without blocks from peers.
pub open spec fn own_run(states: Seq<BlockchainView>) -> bool {
    &&& states.len() > 0
    &&& exists|timestamp: u128| #[trigger] states[0].starts_at(timestamp)
    &&& forall|i: int| 0 < i < states.len() ==> own_step(states[i - 1], #[trigger] states[i])
}

/// As long as no block comes from a peer, every block carries its position and is sealed.
pub proof fn law_every_own_chain_is_numbered_and_sealed(states: Seq<BlockchainView>, i: int)
    requires
        own_run(states),
        0 <= i < states.len(),
    ensures
        numbered_and_sealed(states[i].chain),
    decreases i,
{
    if i == 0 {
        let timestamp = choose|timestamp: u128| #[trigger] states[0].starts_at(timestamp);
        law_new_chain_is_numbered_and_sealed(states[0], timestamp);
    } else {
        law_every_own_chain_is_numbered_and_sealed(states, i - 1);
        assert(own_step(states[i - 1], states[i]));
        if crate::blockchain::mines(states[i - 1], states[i]) {
            law_mining_keeps_chain_numbered_and_sealed(states[i - 1], states[i]);
        }
    }
}

/// The fees of `transactions`, added up from nothing in the order in which they came, with `plus`
/// as the addition.
pub open spec fn fee_sum(
    transactions: Seq<TransactionView>,
    plus: spec_fn(Seq<char>, Seq<char>) -> Seq<char>,
) -> Seq<char>
    decreases transactions.len(),
{
    if transactions.len() == 0 {
        "0.0"@
    } else {
        plus(fee_sum(transactions.drop_last(), plus), transactions.last().fee)
    }
}

/// Whether the fee pool is the sum of the waiting fees.
pub open spec fn fees_add_up(
    chain: BlockchainView,
    plus: spec_fn(Seq<char>, Seq<char>) -> Seq<char>,
) -> bool {
    chain.fee_pool == fee_sum(chain.transaction_pool, plus)
}

/// One operation on a chain, in which a transaction that comes in comes with the sum of the fee
/// pool and its fee.
pub open spec fn adding_step(
    before: BlockchainView,
    after: BlockchainView,
    plus: spec_fn(Seq<char>, Seq<char>) -> Seq<char>,
) -> bool {
    ||| after == before
    ||| exists|transaction: TransactionView|
        after == #[trigger] before.with_transaction(
            transaction,
            plus(before.fee_pool, transaction.fee),
        )
    ||| crate::blockchain::mines(before, after)
    ||| exists|block: BlockView|
        before.accepts(block) && after == #[trigger] before.with_block(block)
}

/// Whether `states` is a run in which every transaction comes with the sum of the fee pool and
/// its fee.
pub open spec fn adding_run(
    states: Seq<BlockchainView>,
    plus: spec_fn(Seq<char>, Seq<char>) -> Seq<char>,
) -> bool {
    &&& states.len() > 0
    &&& exists|timestamp: u128| #[trigger] states[0].starts_at(timestamp)
    &&& forall|i: int|
        0 < i < states.len() ==> adding_step(states[i - 1], #[trigger] states[i], plus)
}

/// Every operation keeps the fee pool the sum of the waiting fees, whatever the addition, if a
/// transaction comes with that sum.
pub proof fn law_step_keeps_fee_sum(
    before: BlockchainView,
    after: BlockchainView,
    plus: spec_fn(Seq<char>, Seq<char>) -> Seq<char>,
)
    requires
        fees_add_up(before, plus),
        adding_step(before, after, plus),
    ensures
        fees_add_up(after, plus),
{
    if exists|transaction: TransactionView|
        after == #[trigger] before.with_transaction(
            transaction,
            plus(before.fee_pool, transaction.fee),
        ) {
        let transaction = choose|transaction: TransactionView|
            after == #[trigger] before.with_transaction(
                transaction,
                plus(before.fee_pool, transaction.fee),
            );
        assert(after.transaction_pool.drop_last() =~= before.transaction_pool);
        assert(after.transaction_pool.last() == transaction);
    }
}

/// Whatever is done with a new chain, the fee pool is the sum, from nothing and in order, of the
/// fees of the waiting transactions, whatever the addition that the transactions come with.
pub proof fn law_fee_pool_is_always_the_sum(
    states: Seq<BlockchainView>,
    i: int,
    plus: spec_fn(Seq<char>, Seq<char>) -> Seq<char>,
)
    requires
        adding_run(states, plus),
        0 <= i < states.len(),
    ensures
        states[i].fee_pool == fee_sum(states[i].transaction_pool, plus),
    decreases i,
{
    if i > 0 {
        law_fee_pool_is_always_the_sum(states, i - 1, plus);
        assert(adding_step(states[i - 1], states[i], plus));
        law_step_keeps_fee_sum(states[i - 1], states[i], plus);
    }
}

/// Whatever was done with a new chain, the block that is mined next ends with the reward, which
/// pays the sum of the fees of all its other transactions to the block's miner.
pub proof fn law_reward_pays_all_fees(
    states: Seq<BlockchainView>,
    i: int,
    plus: spec_fn(Seq<char>, Seq<char>) -> Seq<char>,
    timestamp: u128,
    block: BlockView,
)
    requires
        adding_run(states, plus),
        0 <= i < states.len(),
        states[i].next_template(timestamp).mined_into(block, DIFFICULTY as nat),
    ensures
        block.transactions.drop_last() == states[i].transaction_pool,
        block.transactions.last() == (TransactionView {
            sender: "Network"@,
            receiver: block.miner_wallet,
            amount: fee_sum(block.transactions.drop_last(), plus),
            fee: "0.0"@,
            signature: "Reward"@,
        }),
{
    law_fee_pool_is_always_the_sum(states, i, plus);
    law_mined_block_settles_the_pool(states[i], timestamp, block);
}

/// The chain after `transactions` came in one after the other, each with the sum of the fee pool
/// and its fee.
pub open spec fn with_all(
    chain: BlockchainView,
    transactions: Seq<TransactionView>,
    plus: spec_fn(Seq<char>, Seq<char>) -> Seq<char>,
) -> BlockchainView
    decreases transactions.len(),
{
    if transactions.len() == 0 {
        chain
    } else {
        let before = with_all(chain, transactions.drop_last(), plus);
        before.with_transaction(
            transactions.last(),
            plus(before.fee_pool, transactions.last().fee),
        )
    }
}

/// Transactions that come into a new chain wait in their order, and the block that is mined from
/// it holds them and the reward for the sum of their fees.
pub proof fn law_added_transactions_are_mined(
    chain: BlockchainView,
    start: u128,
    transactions: Seq<TransactionView>,
    plus: spec_fn(Seq<char>, Seq<char>) -> Seq<char>,
    timestamp: u128,
    block: BlockView,
)
    requires
        chain.starts_at(start),
        with_all(chain, transactions, plus).next_template(timestamp).mined_into(
            block,
            DIFFICULTY as nat,
        ),
    ensures
        with_all(chain, transactions, plus).chain == chain.chain,
        with_all(chain, transactions, plus).transaction_pool == transactions,
        block.transactions == transactions.push(
            TransactionView::reward(fee_sum(transactions, plus)),
        ),
{
    all_wait(chain, start, transactions, plus);
}

proof fn all_wait(
    chain: BlockchainView,
    start: u128,
    transactions: Seq<TransactionView>,
    plus: spec_fn(Seq<char>, Seq<char>) -> Seq<char>,
)
    requires
        chain.starts_at(start),
    ensures
        with_all(chain, transactions, plus).chain == chain.chain,
        with_all(chain, transactions, plus).transaction_pool == transactions,
        with_all(chain, transactions, plus).fee_pool == fee_sum(transactions, plus),
    decreases transactions.len(),
{
    if transactions.len() == 0 {
        assert(transactions =~= Seq::empty());
    } else {
        all_wait(chain, start, transactions.drop_last(), plus);
        assert(transactions.drop_last().push(transactions.last()) =~= transactions);
    }
}

/// A listener for peers serves every connection that comes in, each with a copy of the node as
/// it was when the listener started, and no connection that fails stops it.
pub proof fn law_every_peer_is_served_with_the_same_node(
    node: NodeView,
    events: Seq<ListenerEvent>,
    i: int,
)
    requires
        0 <= i < events.len(),
        forall|j: int|
            0 <= j < events.len() ==> #[trigger] events[j] is Accepted || events[j] is AcceptFailed,
    ensures
        events[i] is Accepted ==> crate::node::peer_action(node, events[i])
            == PeerListenerActionView::Serve(node),
        events[i] is AcceptFailed ==> crate::node::peer_action(node, events[i]) is Report,
{
}

/// Connecting to a peer again changes nothing.
pub proof fn law_peer_is_listed_once(node: NodeView, addr: PeerAddr)
    ensures
        node.with_peer(addr).peers.contains(addr),
        node.with_peer(addr).with_peer(addr) == node.with_peer(addr),
        node.peers.no_duplicates() ==> node.with_peer(addr).peers.no_duplicates(),
{
    if !node.peers.contains(addr) {
        assert(node.with_peer(addr).peers.last() == addr);
    }
}

} // verus!
