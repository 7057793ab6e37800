//! What the texts, the models and the operations say, spelled out for all inputs.

use crate::block::{Block, BlockView};
use crate::blockchain::{Blockchain, BlockchainView};
use crate::error::{BlockchainError, ErrorView};
use crate::network::{ListenerEvent, PeerAddr};
use crate::node::{Node, NodeView, PeerListenerAction, PeerListenerActionView};
use crate::transaction::{Amount, Transaction, TransactionView};
use vstd::prelude::*;

verus! {

// Numerals and hexadecimal texts.

/// A numeral reads back as its number, whoever reads it digit by digit.
pub proof fn law_decimal_reads_back(n: nat, read: spec_fn(Seq<char>) -> int)
    requires
        read(Seq::empty()) == 0,
        forall|s: Seq<char>, c: char| #[trigger]
            read(s.push(c)) == 10 * read(s) + (c as int - '0' as int),
    ensures
        read(crate::text::decimal(n)) == n,
    decreases n,
{
    let last = crate::text::decimal(n).last();
    if n < 10 {
        assert(crate::text::decimal(n) =~= Seq::<char>::empty().push(last));
    } else {
        law_decimal_reads_back(n / 10, read);
    }
}

/// A numeral is made of digits, has at least one, and begins with a zero only where it is zero.
pub proof fn law_decimal_is_a_numeral(n: nat)
    ensures
        crate::text::decimal(n).len() > 0,
        forall|i: int|
            0 <= i < crate::text::decimal(n).len() ==> '0' <= #[trigger] crate::text::decimal(n)[i]
                <= '9',
        crate::text::decimal(n)[0] == '0' ==> n == 0,
    decreases n,
{
    if n >= 10 {
        law_decimal_is_a_numeral(n / 10);
        let shorter = crate::text::decimal(n / 10);
        assert forall|i: int| 0 <= i < crate::text::decimal(n).len() implies '0'
            <= #[trigger] crate::text::decimal(n)[i] <= '9' by {
            if i < shorter.len() {
                assert(crate::text::decimal(n)[i] == shorter[i]);
            }
        }
        assert(crate::text::decimal(n)[0] == shorter[0]);
    }
}

/// The last digit of a numeral is that of the number, and the digits before it are the numeral of
/// the tenth of the number.
pub proof fn law_decimal_digit_by_digit(n: nat)
    ensures
        crate::text::decimal(n).last() as int == '0' as int + n % 10,
        n >= 10 ==> crate::text::decimal(n).drop_last() == crate::text::decimal(n / 10),
        n < 10 ==> crate::text::decimal(n).len() == 1,
{
    if n >= 10 {
        assert(crate::text::decimal(n).drop_last() =~= crate::text::decimal(n / 10));
    }
}

/// Different numbers have different numerals.
pub proof fn law_decimal_tells_numbers_apart(a: nat, b: nat)
    requires
        crate::text::decimal(a) == crate::text::decimal(b),
    ensures
        a == b,
    decreases a + b,
{
    law_decimal_digit_by_digit(a);
    law_decimal_digit_by_digit(b);
    law_decimal_is_a_numeral(a / 10);
    law_decimal_is_a_numeral(b / 10);
    if a >= 10 && b >= 10 {
        law_decimal_tells_numbers_apart(a / 10, b / 10);
    }
}

/// Every byte has two hexadecimal digits, the high half first.
pub proof fn law_hex_text_byte_by_byte(bytes: Seq<u8>)
    ensures
        crate::crypto::hex_text(bytes).len() == 2 * bytes.len(),
        forall|i: int|
            0 <= i < bytes.len() ==> {
                &&& crate::crypto::hex_text(bytes)[2 * i] == "0123456789abcdef"@[#[trigger] bytes[i]
                    as int / 16]
                &&& crate::crypto::hex_text(bytes)[2 * i + 1] == "0123456789abcdef"@[bytes[i] as int
                    % 16]
            },
{
    reveal_strlit("0123456789abcdef");
    assert forall|i: int| 0 <= i < bytes.len() implies {
        &&& crate::crypto::hex_text(bytes)[2 * i] == "0123456789abcdef"@[#[trigger] bytes[i] as int
            / 16]
        &&& crate::crypto::hex_text(bytes)[2 * i + 1] == "0123456789abcdef"@[bytes[i] as int % 16]
    } by {
        assert((2 * i) / 2 == i && (2 * i + 1) / 2 == i);
        assert((2 * i) % 2 == 0 && (2 * i + 1) % 2 == 1);
        assert(0 <= bytes[i] as int / 16 < 16);
    }
}

// Models.

/// The model of an amount is its text.
pub proof fn law_amount_view(a: Amount)
    ensures
        a@ == a.text@,
{
}

/// The model of a transaction shows all of its fields.
pub proof fn law_transaction_view(t: Transaction)
    ensures
        t@.sender == t.sender@,
        t@.receiver == t.receiver@,
        t@.amount == t.amount.text@,
        t@.fee == t.fee.text@,
        t@.signature == t.signature@,
{
}

/// The models of a list of transactions are those of its members, in order.
pub proof fn law_transaction_views(ts: Seq<Transaction>)
    ensures
        crate::transaction::views(ts).len() == ts.len(),
        forall|i: int|
            0 <= i < ts.len() ==> #[trigger] crate::transaction::views(ts)[i] == ts[i]@,
{
}

/// The model of a block shows all of its fields.
pub proof fn law_block_view(b: Block)
    ensures
        b@.index == b.index,
        b@.timestamp == b.timestamp,
        b@.transactions.len() == b.transactions@.len(),
        forall|i: int|
            0 <= i < b.transactions@.len() ==> #[trigger] b@.transactions[i]
                == b.transactions@[i]@,
        b@.previous_hash == b.previous_hash@,
        b@.hash == b.hash@,
        b@.nonce == b.nonce,
        b@.miner_wallet == b.miner_wallet@,
{
}

/// The model of a chain shows its blocks, in order, its pool, in order, and its fees.
pub proof fn law_blockchain_view(b: Blockchain)
    ensures
        b@.chain.len() == b.chain@.len(),
        forall|i: int| 0 <= i < b.chain@.len() ==> #[trigger] b@.chain[i] == b.chain@[i]@,
        b@.transaction_pool.len() == b.transaction_pool@.len(),
        forall|i: int|
            0 <= i < b.transaction_pool@.len() ==> #[trigger] b@.transaction_pool[i]
                == b.transaction_pool@[i]@,
        b@.fee_pool == b.fee_pool.text@,
{
}

/// The model of a node shows its chain and its peers.
pub proof fn law_node_view(n: Node)
    ensures
        n@.blockchain == n.blockchain@,
        n@.peers == n.peers@,
{
}

/// The model of an error shows which one it is and its message.
pub proof fn law_error_view(e: BlockchainError)
    ensures
        match e {
            BlockchainError::IoError(s) => e@ == ErrorView::IoError(s@),
            BlockchainError::SerdeJsonError(s) => e@ == ErrorView::SerdeJsonError(s@),
            BlockchainError::RingError(s) => e@ == ErrorView::RingError(s@),
            BlockchainError::WebSocketError(s) => e@ == ErrorView::WebSocketError(s@),
            BlockchainError::InvalidPeerAddress => e@ == ErrorView::InvalidPeerAddress,
            BlockchainError::BlockchainInvalid => e@ == ErrorView::BlockchainInvalid,
            BlockchainError::TransactionError(s) => e@ == ErrorView::TransactionError(s@),
            BlockchainError::NonceExhausted => e@ == ErrorView::NonceExhausted,
        },
{
}

/// The model of an action of the peer listener shows which one it is and what it carries.
pub proof fn law_peer_listener_action_view(a: PeerListenerAction)
    ensures
        match a {
            PeerListenerAction::Accept => a@ is Accept,
            PeerListenerAction::Serve(node) => a@ == PeerListenerActionView::Serve(node@),
            PeerListenerAction::Report(reason) => a@ == PeerListenerActionView::Report(reason@),
            PeerListenerAction::Finish(e) => a@ == PeerListenerActionView::Finish(e@),
        },
{
}

// The hashed text.

/// What stands between the same two texts is the same where the whole is the same.
proof fn middle_is_determined(left: Seq<char>, x: Seq<char>, y: Seq<char>, right: Seq<char>)
    requires
        left + x + right == left + y + right,
    ensures
        x == y,
{
    let a = left + x + right;
    let b = left + y + right;
    assert(a.len() == b.len());
    assert forall|i: int| 0 <= i < x.len() implies x[i] == y[i] by {
        assert(a[left.len() + i] == x[i]);
        assert(b[left.len() + i] == y[i]);
    }
    assert(x =~= y);
}

/// The text of a transaction, field by field.
pub proof fn law_transaction_text(t: TransactionView)
    ensures
        t.text() == "Transaction { sender: "@ + crate::text::debug_text(t.sender)
            + ", receiver: "@ + crate::text::debug_text(t.receiver) + ", amount: "@ + t.amount
            + ", fee: "@ + t.fee + ", signature: "@ + crate::text::debug_text(t.signature)
            + " }"@,
{
}

/// The text of a transaction tells its fields apart: where all but one are the same, the texts
/// are the same only if that one prints the same.
pub proof fn law_transaction_text_tells_fields_apart(a: TransactionView, b: TransactionView)
    requires
        a.text() == b.text(),
    ensures
        b == (TransactionView { sender: b.sender, ..a }) ==> crate::text::debug_text(a.sender)
            == crate::text::debug_text(b.sender),
        b == (TransactionView { receiver: b.receiver, ..a }) ==> crate::text::debug_text(a.receiver)
            == crate::text::debug_text(b.receiver),
        b == (TransactionView { amount: b.amount, ..a }) ==> a.amount == b.amount,
        b == (TransactionView { fee: b.fee, ..a }) ==> a.fee == b.fee,
        b == (TransactionView { signature: b.signature, ..a }) ==> crate::text::debug_text(
            a.signature,
        ) == crate::text::debug_text(b.signature),
{
    let s = "Transaction { sender: "@;
    let (sa, sb) = (crate::text::debug_text(a.sender), crate::text::debug_text(b.sender));
    let (ra, rb) = (crate::text::debug_text(a.receiver), crate::text::debug_text(b.receiver));
    let (ga, gb) = (crate::text::debug_text(a.signature), crate::text::debug_text(b.signature));
    let (r, m, f, g, e) = (", receiver: "@, ", amount: "@, ", fee: "@, ", signature: "@, " }"@);
    if b == (TransactionView { sender: b.sender, ..a }) {
        let rest = r + ra + m + a.amount + f + a.fee + g + ga + e;
        assert(a.text() =~= s + sa + rest);
        assert(b.text() =~= s + sb + rest);
        middle_is_determined(s, sa, sb, rest);
    }
    if b == (TransactionView { receiver: b.receiver, ..a }) {
        let rest = m + a.amount + f + a.fee + g + ga + e;
        assert(a.text() =~= (s + sa + r) + ra + rest);
        assert(b.text() =~= (s + sa + r) + rb + rest);
        middle_is_determined(s + sa + r, ra, rb, rest);
    }
    if b == (TransactionView { amount: b.amount, ..a }) {
        let rest = f + a.fee + g + ga + e;
        assert(a.text() =~= (s + sa + r + ra + m) + a.amount + rest);
        assert(b.text() =~= (s + sa + r + ra + m) + b.amount + rest);
        middle_is_determined(s + sa + r + ra + m, a.amount, b.amount, rest);
    }
    if b == (TransactionView { fee: b.fee, ..a }) {
        let first = s + sa + r + ra + m + a.amount + f;
        let rest = g + ga + e;
        assert(a.text() =~= first + a.fee + rest);
        assert(b.text() =~= first + b.fee + rest);
        middle_is_determined(first, a.fee, b.fee, rest);
    }
    if b == (TransactionView { signature: b.signature, ..a }) {
        let first = s + sa + r + ra + m + a.amount + f + a.fee + g;
        middle_is_determined(first, ga, gb, e);
    }
}

/// A list of transactions, member by member: brackets around the texts, with a comma and a blank
/// between two of them.
pub proof fn law_list_text(ts: Seq<TransactionView>, t: TransactionView)
    ensures
        crate::transaction::list_text(Seq::empty()) == "["@ + "]"@,
        crate::transaction::list_text(seq![t]) == "["@ + t.text() + "]"@,
        ts.len() > 0 ==> crate::transaction::list_text(ts.push(t)) + "]"@
            == crate::transaction::list_text(ts).drop_last() + ", "@ + t.text() + "]"@ + "]"@,
{
    reveal_strlit("]");
    assert(crate::transaction::list_text(Seq::empty()) =~= "["@ + "]"@);
    assert(seq![t][0] == t);
    assert(ts.push(t).drop_last() =~= ts);
    if ts.len() > 0 {
        assert(crate::transaction::list_text(ts).drop_last() =~= "["@
            + crate::transaction::joined_text(ts));
        assert(crate::transaction::list_text(ts.push(t)) =~= crate::transaction::list_text(
            ts,
        ).drop_last() + ", "@ + t.text() + "]"@);
    }
}

/// The texts of `ts`, each after a comma and a blank.
spec fn trailing(ts: Seq<TransactionView>) -> Seq<char>
    decreases ts.len(),
{
    if ts.len() == 0 {
        Seq::empty()
    } else {
        trailing(ts.drop_last()) + ", "@ + ts.last().text()
    }
}

proof fn joined_around(before: Seq<TransactionView>, t: TransactionView, after: Seq<TransactionView>)
    ensures
        crate::transaction::joined_text(before.push(t) + after) == (if before.len() == 0 {
            Seq::empty()
        } else {
            crate::transaction::joined_text(before) + ", "@
        }) + t.text() + trailing(after),
    decreases after.len(),
{
    let all = before.push(t) + after;
    if after.len() == 0 {
        assert(all =~= before.push(t));
        assert(before.push(t).drop_last() =~= before);
        if before.len() == 0 {
            assert(all[0] == t);
        }
        assert(crate::transaction::joined_text(all) =~= (if before.len() == 0 {
            Seq::empty()
        } else {
            crate::transaction::joined_text(before) + ", "@
        }) + t.text() + trailing(after));
    } else {
        joined_around(before, t, after.drop_last());
        assert(all.drop_last() =~= before.push(t) + after.drop_last());
        assert(all.last() == after.last());
        assert(crate::transaction::joined_text(all) =~= (if before.len() == 0 {
            Seq::empty()
        } else {
            crate::transaction::joined_text(before) + ", "@
        }) + t.text() + trailing(after));
    }
}

/// The text of a list tells its members apart: where one member is changed into one with another
/// text, the text of the list changes, wherever the member stands.
pub proof fn law_list_text_tells_members_apart(
    ts: Seq<TransactionView>,
    i: int,
    t: TransactionView,
)
    requires
        0 <= i < ts.len(),
        crate::transaction::list_text(ts.update(i, t)) == crate::transaction::list_text(ts),
    ensures
        t.text() == ts[i].text(),
{
    let before = ts.take(i);
    let after = ts.skip(i + 1);
    let first = if before.len() == 0 {
        Seq::<char>::empty()
    } else {
        crate::transaction::joined_text(before) + ", "@
    };
    assert(ts =~= before.push(ts[i]) + after);
    assert(ts.update(i, t) =~= before.push(t) + after);
    joined_around(before, ts[i], after);
    joined_around(before, t, after);
    assert(crate::transaction::list_text(ts) =~= ("["@ + first) + ts[i].text() + (trailing(after)
        + "]"@));
    assert(crate::transaction::list_text(ts.update(i, t)) =~= ("["@ + first) + t.text() + (trailing(
        after,
    ) + "]"@));
    middle_is_determined("["@ + first, ts[i].text(), t.text(), trailing(after) + "]"@);
}

/// The hashed text of every block, field by field, and its hash.
pub proof fn law_hashed_text(b: BlockView)
    ensures
        b.preimage() == crate::text::decimal(b.index as nat) + crate::text::decimal(
            b.timestamp as nat,
        ) + crate::transaction::list_text(b.transactions) + b.previous_hash
            + crate::text::decimal(b.nonce as nat) + b.miner_wallet,
        b.content_hash() == crate::crypto::hex_text(
            crate::crypto::sha256(vstd::utf8::encode_utf8(b.preimage())),
        ),
{
}

/// The hashed text tells the fields of a block apart: of two blocks that differ in one field
/// alone, whatever their hashes, the texts are the same only if that field is the same, or, of the
/// transactions, if they print the same.
pub proof fn law_hashed_text_tells_fields_apart(a: BlockView, b: BlockView)
    requires
        a.preimage() == b.preimage(),
    ensures
        b == (BlockView { index: b.index, hash: b.hash, ..a }) ==> a.index == b.index,
        b == (BlockView { timestamp: b.timestamp, hash: b.hash, ..a }) ==> a.timestamp
            == b.timestamp,
        b == (BlockView { transactions: b.transactions, hash: b.hash, ..a })
            ==> crate::transaction::list_text(a.transactions) == crate::transaction::list_text(
            b.transactions,
        ),
        b == (BlockView { previous_hash: b.previous_hash, hash: b.hash, ..a }) ==> a.previous_hash
            == b.previous_hash,
        b == (BlockView { nonce: b.nonce, hash: b.hash, ..a }) ==> a.nonce == b.nonce,
        b == (BlockView { miner_wallet: b.miner_wallet, hash: b.hash, ..a }) ==> a.miner_wallet
            == b.miner_wallet,
{
    let (ia, ib) = (crate::text::decimal(a.index as nat), crate::text::decimal(b.index as nat));
    let (sa, sb) = (
        crate::text::decimal(a.timestamp as nat),
        crate::text::decimal(b.timestamp as nat),
    );
    let (ta, tb) = (
        crate::transaction::list_text(a.transactions),
        crate::transaction::list_text(b.transactions),
    );
    let (na, nb) = (crate::text::decimal(a.nonce as nat), crate::text::decimal(b.nonce as nat));
    let none = Seq::<char>::empty();
    if b == (BlockView { index: b.index, hash: b.hash, ..a }) {
        let rest = sa + ta + a.previous_hash + na + a.miner_wallet;
        assert(a.preimage() =~= none + ia + rest);
        assert(b.preimage() =~= none + ib + rest);
        middle_is_determined(none, ia, ib, rest);
        law_decimal_tells_numbers_apart(a.index as nat, b.index as nat);
    }
    if b == (BlockView { timestamp: b.timestamp, hash: b.hash, ..a }) {
        let rest = ta + a.previous_hash + na + a.miner_wallet;
        assert(a.preimage() =~= ia + sa + rest);
        assert(b.preimage() =~= ia + sb + rest);
        middle_is_determined(ia, sa, sb, rest);
        law_decimal_tells_numbers_apart(a.timestamp as nat, b.timestamp as nat);
    }
    if b == (BlockView { transactions: b.transactions, hash: b.hash, ..a }) {
        let rest = a.previous_hash + na + a.miner_wallet;
        assert(a.preimage() =~= (ia + sa) + ta + rest);
        assert(b.preimage() =~= (ia + sa) + tb + rest);
        middle_is_determined(ia + sa, ta, tb, rest);
    }
    if b == (BlockView { previous_hash: b.previous_hash, hash: b.hash, ..a }) {
        let rest = na + a.miner_wallet;
        assert(a.preimage() =~= (ia + sa + ta) + a.previous_hash + rest);
        assert(b.preimage() =~= (ia + sa + ta) + b.previous_hash + rest);
        middle_is_determined(ia + sa + ta, a.previous_hash, b.previous_hash, rest);
    }
    if b == (BlockView { nonce: b.nonce, hash: b.hash, ..a }) {
        let first = ia + sa + ta + a.previous_hash;
        middle_is_determined(first, na, nb, a.miner_wallet);
        law_decimal_tells_numbers_apart(a.nonce as nat, b.nonce as nat);
    }
    if b == (BlockView { miner_wallet: b.miner_wallet, hash: b.hash, ..a }) {
        let first = ia + sa + ta + a.previous_hash + na;
        assert(a.preimage() =~= first + a.miner_wallet + none);
        assert(b.preimage() =~= first + b.miner_wallet + none);
        middle_is_determined(first, a.miner_wallet, b.miner_wallet, none);
    }
}

/// A block one field of which was changed while its hash was kept is accepted by nobody, unless
/// SHA-256 collides on the two. Of the transactions, what they print has to be changed.
pub proof fn law_changed_field_is_refused(
    chain: BlockchainView,
    block: BlockView,
    changed: BlockView,
)
    requires
        block.hash == block.content_hash(),
        ({
            ||| changed.index != block.index && changed == (BlockView {
                index: changed.index,
                ..block
            })
            ||| changed.timestamp != block.timestamp && changed == (BlockView {
                timestamp: changed.timestamp,
                ..block
            })
            ||| crate::transaction::list_text(changed.transactions)
                != crate::transaction::list_text(block.transactions) && changed == (BlockView {
                transactions: changed.transactions,
                ..block
            })
            ||| changed.previous_hash != block.previous_hash && changed == (BlockView {
                previous_hash: changed.previous_hash,
                ..block
            })
            ||| changed.nonce != block.nonce && changed == (BlockView {
                nonce: changed.nonce,
                ..block
            })
            ||| changed.miner_wallet != block.miner_wallet && changed == (BlockView {
                miner_wallet: changed.miner_wallet,
                ..block
            })
        }),
    ensures
        !chain.accepts(changed) || crate::laws::collide(block, changed),
{
    if changed.preimage() == block.preimage() {
        law_hashed_text_tells_fields_apart(block, changed);
    }
    crate::laws::law_changed_block_is_refused(chain, block, changed);
}

/// A block one transaction of which was changed while its hash was kept is accepted by nobody,
/// unless SHA-256 collides on the two: another amount or fee, or a sender, receiver or signature
/// that prints otherwise, wherever the transaction stands and whenever the block was made.
pub proof fn law_changed_transaction_is_refused(
    chain: BlockchainView,
    block: BlockView,
    i: int,
    t: TransactionView,
)
    requires
        block.hash == block.content_hash(),
        0 <= i < block.transactions.len(),
        ({
            let old_t = block.transactions[i];
            ||| t.amount != old_t.amount && t == (TransactionView { amount: t.amount, ..old_t })
            ||| t.fee != old_t.fee && t == (TransactionView { fee: t.fee, ..old_t })
            ||| crate::text::debug_text(t.sender) != crate::text::debug_text(old_t.sender) && t == (
            TransactionView { sender: t.sender, ..old_t })
            ||| crate::text::debug_text(t.receiver) != crate::text::debug_text(old_t.receiver) && t
                == (TransactionView { receiver: t.receiver, ..old_t })
            ||| crate::text::debug_text(t.signature) != crate::text::debug_text(old_t.signature)
                && t == (TransactionView { signature: t.signature, ..old_t })
        }),
    ensures
        ({
            let changed = BlockView { transactions: block.transactions.update(i, t), ..block };
            !chain.accepts(changed) || crate::laws::collide(block, changed)
        }),
{
    let changed = BlockView { transactions: block.transactions.update(i, t), ..block };
    if crate::transaction::list_text(changed.transactions) == crate::transaction::list_text(
        block.transactions,
    ) {
        law_list_text_tells_members_apart(block.transactions, i, t);
        law_transaction_text_tells_fields_apart(block.transactions[i], t);
    }
    law_changed_field_is_refused(chain, block, changed);
}

// Mining.

/// A text begins with zeros where each of its first characters is one.
pub proof fn law_zeros(s: Seq<char>, n: nat)
    ensures
        crate::block::begins_with_zeros(s, n) <==> n <= s.len() && forall|i: int|
            0 <= i < n ==> #[trigger] s[i] == '0',
{
}

/// A nonce seals a block where the hash of the block with that nonce begins with zeros.
pub proof fn law_sealing_nonce(b: BlockView, nonce: u64, difficulty: nat)
    ensures
        b.seals(nonce, difficulty) <==> {
            let hash = (BlockView { nonce, ..b }).content_hash();
            difficulty <= hash.len() && forall|i: int|
                0 <= i < difficulty ==> #[trigger] hash[i] == '0'
        },
        b.with_nonce(nonce) == (BlockView { nonce, ..b }),
{
}

/// The first nonce that seals a block seals it, and none from the block's own up to it does.
pub proof fn law_first_seal(b: BlockView, nonce: u64, difficulty: nat)
    ensures
        b.first_seal(nonce, difficulty) <==> {
            &&& b.nonce <= nonce
            &&& b.seals(nonce, difficulty)
            &&& forall|m: u64| b.nonce <= m < nonce ==> !#[trigger] b.seals(m, difficulty)
        },
{
}

/// A block can be sealed where some nonce from its own on seals it, and only there.
pub proof fn law_sealable(b: BlockView, nonce: u64, difficulty: nat)
    ensures
        b.nonce <= nonce && b.seals(nonce, difficulty) ==> b.can_be_sealed(difficulty),
        b.can_be_sealed(difficulty) ==> exists|n: u64|
            b.nonce <= n && #[trigger] b.seals(n, difficulty),
{
}

/// A block before it is mined is what it was made of, with the nonce 0.
pub proof fn law_template(
    index: u32,
    timestamp: u128,
    transactions: Seq<TransactionView>,
    previous_hash: Seq<char>,
    miner_wallet: Seq<char>,
)
    ensures
        ({
            let b = BlockView::template(
                index,
                timestamp,
                transactions,
                previous_hash,
                miner_wallet,
            );
            &&& b.index == index
            &&& b.timestamp == timestamp
            &&& b.transactions == transactions
            &&& b.previous_hash == previous_hash
            &&& b.miner_wallet == miner_wallet
            &&& b.nonce == 0
            &&& b.hash.len() == 0
        }),
{
}

/// Mining keeps every field but the nonce and the hash. The hash is that of the mined block's own
/// content and begins with zeros, and no smaller nonce from the old one on gives such a hash.
pub proof fn law_mining(b: BlockView, mined: BlockView, difficulty: nat)
    ensures
        b.mined_into(mined, difficulty) <==> {
            &&& mined.index == b.index
            &&& mined.timestamp == b.timestamp
            &&& mined.transactions == b.transactions
            &&& mined.previous_hash == b.previous_hash
            &&& mined.miner_wallet == b.miner_wallet
            &&& mined.nonce >= b.nonce
            &&& mined.hash == mined.content_hash()
            &&& difficulty <= mined.hash.len()
            &&& forall|i: int| 0 <= i < difficulty ==> #[trigger] mined.hash[i] == '0'
            &&& forall|m: u64|
                b.nonce <= m < mined.nonce ==> !#[trigger] b.seals(m, difficulty)
        },
{
    let sealed = b.with_nonce(mined.nonce);
    if mined.index == b.index && mined.timestamp == b.timestamp && mined.transactions
        == b.transactions && mined.previous_hash == b.previous_hash && mined.miner_wallet
        == b.miner_wallet {
        assert(sealed.preimage() == mined.preimage());
    }
    if b.mined_into(mined, difficulty) {
        assert(b.seals(mined.nonce, difficulty));
    }
}

/// A block that is made and mined is the one that was asked for: it has the index, the time, the
/// transactions, the previous hash and the wallet that were given, whatever they are.
pub proof fn law_new_block_is_what_was_asked_for(
    index: u32,
    timestamp: u128,
    transactions: Seq<TransactionView>,
    previous_hash: Seq<char>,
    miner_wallet: Seq<char>,
    mined: BlockView,
    difficulty: nat,
)
    requires
        BlockView::template(
            index,
            timestamp,
            transactions,
            previous_hash,
            miner_wallet,
        ).mined_into(mined, difficulty),
    ensures
        mined.index == index,
        mined.timestamp == timestamp,
        mined.transactions == transactions,
        mined.previous_hash == previous_hash,
        mined.miner_wallet == miner_wallet,
{
}

// The chain.

/// The first block of a chain: position 0, the given time, no transactions, `0` in place of the
/// previous hash, and the miner's wallet.
pub proof fn law_genesis(timestamp: u128)
    ensures
        ({
            let b = crate::blockchain::genesis_template(timestamp);
            &&& b.index == 0
            &&& b.timestamp == timestamp
            &&& b.transactions.len() == 0
            &&& b.previous_hash == "0"@
            &&& b.miner_wallet == "MinerWalletAddress"@
            &&& b.nonce == 0
        }),
{
}

/// A new chain has its first block, sealed with two zeros, and nothing waits.
pub proof fn law_new_chain(chain: BlockchainView, timestamp: u128)
    ensures
        chain.starts_at(timestamp) <==> {
            &&& chain.chain.len() == 1
            &&& crate::blockchain::genesis_template(timestamp).mined_into(chain.chain[0], 2)
            &&& chain.transaction_pool.len() == 0
            &&& chain.fee_pool == "0.0"@
        },
{
    if chain.transaction_pool.len() == 0 {
        assert(chain.transaction_pool =~= Seq::empty());
    }
}

/// A chain accepts a block that names the hash of its last block and carries the hash of its own
/// content, and no other.
pub proof fn law_acceptance(chain: BlockchainView, block: BlockView)
    ensures
        chain.accepts(block) <==> {
            &&& chain.chain.len() > 0
            &&& block.previous_hash == chain.chain[chain.chain.len() - 1].hash
            &&& block.hash == block.content_hash()
        },
{
}

/// A block that is added stands behind the blocks that were there, and nothing else changes.
pub proof fn law_added_block(chain: BlockchainView, block: BlockView)
    ensures
        chain.with_block(block).chain.len() == chain.chain.len() + 1,
        chain.with_block(block).chain.drop_last() == chain.chain,
        chain.with_block(block).chain.last() == block,
        chain.with_block(block).transaction_pool == chain.transaction_pool,
        chain.with_block(block).fee_pool == chain.fee_pool,
{
    assert(chain.with_block(block).chain.drop_last() =~= chain.chain);
}

/// A transaction that comes in waits as it came, in all of its fields, behind those that waited
/// already, whatever the chain; the chain itself does not change.
pub proof fn law_added_transaction(
    chain: BlockchainView,
    transaction: TransactionView,
    fee_pool: Seq<char>,
)
    ensures
        ({
            let after = chain.with_transaction(transaction, fee_pool);
            &&& after.transaction_pool.len() == chain.transaction_pool.len() + 1
            &&& after.transaction_pool.drop_last() == chain.transaction_pool
            &&& after.transaction_pool.last().sender == transaction.sender
            &&& after.transaction_pool.last().receiver == transaction.receiver
            &&& after.transaction_pool.last().amount == transaction.amount
            &&& after.transaction_pool.last().fee == transaction.fee
            &&& after.transaction_pool.last().signature == transaction.signature
            &&& after.fee_pool == fee_pool
            &&& after.chain == chain.chain
        }),
{
    assert(chain.with_transaction(transaction, fee_pool).transaction_pool.drop_last()
        =~= chain.transaction_pool);
}

/// The block that is mined next: the position and the hash come from the chain, the time is the
/// given one, and the transactions are the waiting ones in order and the reward, whatever the
/// chain.
pub proof fn law_next_block(chain: BlockchainView, timestamp: u128)
    ensures
        ({
            let b = chain.next_template(timestamp);
            &&& b.index == chain.chain.len() % 0x1_0000_0000
            &&& b.timestamp == timestamp
            &&& b.transactions.len() == chain.transaction_pool.len() + 1
            &&& b.transactions.drop_last() == chain.transaction_pool
            &&& b.transactions.last().sender == "Network"@
            &&& b.transactions.last().receiver == "MinerWalletAddress"@
            &&& b.transactions.last().amount == chain.fee_pool
            &&& b.transactions.last().fee == "0.0"@
            &&& b.transactions.last().signature == "Reward"@
            &&& b.previous_hash == chain.chain[chain.chain.len() - 1].hash
            &&& b.miner_wallet == "MinerWalletAddress"@
            &&& b.nonce == 0
        }),
{
    assert(chain.next_template(timestamp).transactions.drop_last() =~= chain.transaction_pool);
}

/// The block that was mined next carries the time that was given, on every chain.
pub proof fn law_mined_block_carries_the_time(
    chain: BlockchainView,
    timestamp: u128,
    block: BlockView,
    difficulty: nat,
)
    requires
        chain.next_template(timestamp).mined_into(block, difficulty),
    ensures
        block.timestamp == timestamp,
        block.index == chain.chain.len() % 0x1_0000_0000,
        block.previous_hash == chain.chain[chain.chain.len() - 1].hash,
{
}

/// A mined block stands behind the blocks that were there, and nothing waits after it.
pub proof fn law_settled_chain(chain: BlockchainView, block: BlockView)
    ensures
        chain.settled_by(block).chain.len() == chain.chain.len() + 1,
        chain.settled_by(block).chain.drop_last() == chain.chain,
        chain.settled_by(block).chain.last() == block,
        chain.settled_by(block).transaction_pool.len() == 0,
        chain.settled_by(block).fee_pool == "0.0"@,
{
    assert(chain.settled_by(block).chain.drop_last() =~= chain.chain);
}

/// The reward goes from the network to the miner's wallet.
pub proof fn law_reward(fees: Seq<char>)
    ensures
        TransactionView::reward(fees).sender == "Network"@,
        TransactionView::reward(fees).receiver == "MinerWalletAddress"@,
        TransactionView::reward(fees).amount == fees,
        TransactionView::reward(fees).fee == "0.0"@,
        TransactionView::reward(fees).signature == "Reward"@,
{
}

/// In a linked chain every block carries the hash of its content and names the hash of the block
/// before it, and a chain in which they do is linked.
pub proof fn law_links(chain: Seq<BlockView>)
    ensures
        crate::blockchain::linked(chain) <==> {
            &&& forall|i: int|
                0 <= i < chain.len() ==> (#[trigger] chain[i]).hash == chain[i].content_hash()
            &&& forall|i: int|
                1 <= i < chain.len() ==> (#[trigger] chain[i]).previous_hash == chain[i - 1].hash
        },
{
}

/// Mining settles the waiting transactions of a chain that has blocks into a block that was mined
/// with two zeros from what the chain asks for.
pub proof fn law_mines(
    before: BlockchainView,
    after: BlockchainView,
    timestamp: u128,
    block: BlockView,
)
    ensures
        before.chain.len() > 0 && before.next_template(timestamp).mined_into(block, 2) && after
            == before.settled_by(block) ==> crate::blockchain::mines(before, after),
        crate::blockchain::mines(before, after) ==> {
            &&& before.chain.len() > 0
            &&& after.chain.drop_last() == before.chain
            &&& after.transaction_pool.len() == 0
            &&& after.fee_pool == "0.0"@
            &&& before.next_template(after.chain.last().timestamp).mined_into(
                after.chain.last(),
                2,
            )
        },
{
    if crate::blockchain::mines(before, after) {
        assert(after.chain.drop_last() =~= before.chain);
    }
}

/// A run begins with a new chain, and goes on with whatever operation comes next: a transaction,
/// a mined block, or a block from a peer that is accepted.
pub proof fn law_runs_go_on(
    states: Seq<BlockchainView>,
    start: BlockchainView,
    timestamp: u128,
    transaction: TransactionView,
    fee_pool: Seq<char>,
    block: BlockView,
)
    ensures
        start.starts_at(timestamp) ==> crate::laws::run(seq![start]),
        crate::laws::run(states) ==> crate::laws::run(
            states.push(states.last().with_transaction(transaction, fee_pool)),
        ),
        crate::laws::run(states) && states.last().chain.len() > 0 && states.last().next_template(
            timestamp,
        ).mined_into(block, 2) ==> crate::laws::run(states.push(states.last().settled_by(block))),
        crate::laws::run(states) && states.last().accepts(block) ==> crate::laws::run(
            states.push(states.last().with_block(block)),
        ),
{
    if start.starts_at(timestamp) {
        assert(seq![start][0].starts_at(timestamp));
    }
    if crate::laws::run(states) {
        let last = states.last();
        let first = choose|t: u128| #[trigger] states[0].starts_at(t);
        let a = states.push(last.with_transaction(transaction, fee_pool));
        assert(a[0].starts_at(first));
        assert forall|i: int| 0 < i < a.len() implies crate::blockchain::step(
            a[i - 1],
            #[trigger] a[i],
        ) by {
            if i < states.len() {
                assert(crate::blockchain::step(states[i - 1], states[i]));
            }
        }
        let b = states.push(last.with_block(block));
        assert(b[0].starts_at(first));
        if last.accepts(block) {
            assert forall|i: int| 0 < i < b.len() implies crate::blockchain::step(
                b[i - 1],
                #[trigger] b[i],
            ) by {
                if i < states.len() {
                    assert(crate::blockchain::step(states[i - 1], states[i]));
                }
            }
        }
        let c = states.push(last.settled_by(block));
        assert(c[0].starts_at(first));
        if last.chain.len() > 0 && last.next_template(timestamp).mined_into(block, 2) {
            law_mines(last, last.settled_by(block), timestamp, block);
            assert forall|i: int| 0 < i < c.len() implies crate::blockchain::step(
                c[i - 1],
                #[trigger] c[i],
            ) by {
                if i < states.len() {
                    assert(crate::blockchain::step(states[i - 1], states[i]));
                }
            }
        }
    }
}

/// The sum of fees starts at nothing and adds the fee of each further transaction.
pub proof fn law_fee_sum(
    ts: Seq<TransactionView>,
    t: TransactionView,
    plus: spec_fn(Seq<char>, Seq<char>) -> Seq<char>,
)
    ensures
        crate::laws::fee_sum(Seq::empty(), plus) == "0.0"@,
        crate::laws::fee_sum(ts.push(t), plus) == plus(crate::laws::fee_sum(ts, plus), t.fee),
{
    assert(ts.push(t).drop_last() =~= ts);
}

// The node.

/// A peer that was reached is behind those that were listed, unless it is one of them; the chain
/// does not change.
pub proof fn law_added_peer(node: NodeView, addr: PeerAddr)
    ensures
        node.with_peer(addr).blockchain == node.blockchain,
        node.peers.contains(addr) ==> node.with_peer(addr).peers == node.peers,
        !node.peers.contains(addr) ==> node.with_peer(addr).peers == node.peers.push(addr),
{
}

/// A node with another chain has that chain and the same peers.
pub proof fn law_other_chain(node: NodeView, blockchain: BlockchainView)
    ensures
        node.with_blockchain(blockchain).blockchain == blockchain,
        node.with_blockchain(blockchain).peers == node.peers,
{
}

/// What a listener for peers does about each event.
pub proof fn law_peer_action(node: NodeView, event: ListenerEvent)
    ensures
        match event {
            ListenerEvent::Bound => crate::node::peer_action(node, event) is Accept,
            ListenerEvent::BindFailed(reason) => crate::node::peer_action(node, event)
                == PeerListenerActionView::Finish(ErrorView::IoError(reason@)),
            ListenerEvent::Accepted => crate::node::peer_action(node, event)
                == PeerListenerActionView::Serve(node),
            ListenerEvent::AcceptFailed(reason) => crate::node::peer_action(node, event)
                == PeerListenerActionView::Report(reason@),
        },
{
}

/// A port has its own address: different ports have different addresses.
pub proof fn law_addresses_tell_ports_apart(a: u16, b: u16)
    requires
        crate::network::local_addr(a) == crate::network::local_addr(b),
    ensures
        a == b,
{
    let host = "127.0.0.1:"@;
    let none = Seq::<char>::empty();
    let (da, db) = (crate::text::decimal(a as nat), crate::text::decimal(b as nat));
    assert(host + da + none =~= host + da);
    assert(host + db + none =~= host + db);
    middle_is_determined(host, da, db, none);
    law_decimal_tells_numbers_apart(a as nat, b as nat);
}

// The clock.

/// What the clock gave is the milliseconds of a reading that it gave, or the message of one that
/// failed: an error only comes from a clock that failed.
pub proof fn law_clock(outcome: Result<u128, Seq<char>>)
    requires
        crate::clock::clock_gave(outcome),
    ensures
        match outcome {
            Ok(millis) => exists|time: (u64, u32)|
                #[trigger] crate::provenance::given_by_clock(Ok(time)) && millis == time.0 * 1000
                    + time.1 / 1_000_000,
            Err(message) => crate::provenance::given_by_clock(Err(message)),
        },
{
    let reading = choose|reading: Result<(u64, u32), Seq<char>>|
        #[trigger] crate::provenance::given_by_clock(reading) && outcome
            == crate::clock::reading_millis(reading);
    if outcome is Ok {
        let time = reading->Ok_0;
        assert(crate::provenance::given_by_clock(Ok(time)));
    }
}

} // verus!
