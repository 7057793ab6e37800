//! Blocks, chains and pools on concrete values.

use ledger_node::block::{Block, DIFFICULTY};
use ledger_node::blockchain::Blockchain;
use ledger_node::error::BlockchainError;
use ledger_node::text::push_decimal;
use ledger_node::transaction::{
    clone_list, push_list_text, Amount, Transaction as Entry, MINER_WALLET,
};
use sha2::{Digest, Sha256};

const GENESIS_TIME: u128 = 1700000000000;
const GENESIS_HASH: &str = "000c2861bbade133b67fa57351db1e6f18e58ab08e8cc49355e0a038a96443bc";

/// A transaction with its amounts as numbers, for the text that Rust prints of it.
#[derive(Debug)]
#[allow(dead_code)]
struct Transaction {
    sender: String,
    receiver: String,
    amount: f32,
    fee: f32,
    signature: String,
}

impl Transaction {
    fn entry(&self) -> Entry {
        Entry {
            sender: self.sender.clone(),
            receiver: self.receiver.clone(),
            amount: Amount { text: format!("{:?}", self.amount) },
            fee: Amount { text: format!("{:?}", self.fee) },
            signature: self.signature.clone(),
        }
    }
}

fn transaction(sender: &str, receiver: &str, amount: f32, fee: f32, signature: &str) -> Transaction {
    Transaction {
        sender: sender.to_string(),
        receiver: receiver.to_string(),
        amount,
        fee,
        signature: signature.to_string(),
    }
}

fn amount(value: f32) -> Amount {
    Amount { text: format!("{:?}", value) }
}

fn odd_transactions() -> Vec<Transaction> {
    vec![
        transaction("alice", "b\"ob", 12.5, 0.1, "s\n\u{7f}"),
        transaction("", "\\ \t '", 1e16, 1e-7, "h\u{e9}\u{301} \u{1f600}"),
        transaction("x", "y", -0.0, f32::MAX, "z"),
        transaction("inf", "nan", f32::INFINITY, f32::NAN, "\u{200b}"),
    ]
}

fn chain() -> Blockchain {
    Blockchain::new_at(Ok(GENESIS_TIME)).unwrap()
}

fn plain_block(nonce: u64) -> Block {
    Block {
        index: 0,
        timestamp: 0,
        transactions: vec![],
        previous_hash: "0".to_string(),
        hash: String::new(),
        nonce,
        miner_wallet: MINER_WALLET.to_string(),
    }
}

#[test]
fn decimals_are_printed_in_full() {
    for n in [0u128, 7, 10, 99, 100, 65535, 1700000000000, u64::MAX as u128, u128::MAX] {
        let mut out = "n=".to_string();
        push_decimal(&mut out, n);
        assert_eq!(out, format!("n={}", n));
    }
}

#[test]
fn transactions_print_as_rust_prints_them() {
    let transactions = odd_transactions();
    for count in 0..=transactions.len() {
        let entries: Vec<Entry> = transactions[..count].iter().map(|t| t.entry()).collect();
        let mut out = String::new();
        push_list_text(&entries, &mut out);
        assert_eq!(out, format!("{:?}", &transactions[..count]));
    }
}

#[test]
fn a_copied_list_prints_the_same() {
    let entries: Vec<Entry> = odd_transactions().iter().map(|t| t.entry()).collect();
    let copy = clone_list(&entries);
    assert_eq!(format!("{:?}", copy), format!("{:?}", entries));
}

#[test]
fn hash_of_a_plain_block() {
    assert_eq!(
        plain_block(0).calculate_hash(),
        "4835abeb6fb851c243d837f34ed9858c4a1b8457f75ac984dafbc82530906f42"
    );
}

#[test]
fn hash_covers_every_field_in_order() {
    let transactions = odd_transactions();
    let block = Block {
        index: 7,
        timestamp: u128::MAX,
        transactions: transactions.iter().map(|t| t.entry()).collect(),
        previous_hash: "00ab".to_string(),
        hash: "not hashed".to_string(),
        nonce: u64::MAX,
        miner_wallet: "w\u{e9}".to_string(),
    };
    let input = format!(
        "{}{}{:?}{}{}{}",
        7, u128::MAX, transactions, "00ab", u64::MAX, "w\u{e9}"
    );
    let mut hasher = Sha256::new();
    hasher.update(input.as_bytes());
    assert_eq!(block.calculate_hash(), format!("{:x}", hasher.finalize()));
}

#[test]
fn mining_finds_the_first_nonce() {
    let mut block = plain_block(0);
    assert_eq!(block.find_nonce(2), Some(115));
    block.mine_block(2);
    assert_eq!(block.nonce, 115);
    assert_eq!(
        block.hash,
        "00428164874523b64c13372cdfc8ac899663f023ebd11c311647a1a7c584e214"
    );
}

#[test]
fn mining_starts_at_the_nonce_of_the_block() {
    let mut block = plain_block(115);
    assert!(block.try_mine_block(2));
    assert_eq!(block.nonce, 115);
    let mut later = plain_block(116);
    assert!(later.try_mine_block(2));
    assert!(later.nonce > 115);
    assert!(later.hash.starts_with("00"));
}

#[test]
fn mining_again_changes_nothing() {
    let mut block = plain_block(0);
    assert!(block.try_mine_block(2));
    let before = format!("{:?}", block);
    assert!(block.try_mine_block(2));
    assert_eq!(format!("{:?}", block), before);
    assert!(block.try_mine_block(1));
    assert_eq!(format!("{:?}", block), before);
}

#[test]
fn difficulty_zero_takes_any_hash() {
    let mut block = plain_block(9);
    block.mine_block(0);
    assert_eq!(block.nonce, 9);
    assert_eq!(block.hash, plain_block(9).calculate_hash());
}

#[test]
fn the_last_nonce_may_not_seal() {
    let mut block = plain_block(u64::MAX);
    assert_eq!(block.find_nonce(64), None);
    assert!(!block.try_mine_block(64));
    assert_eq!(block.nonce, u64::MAX);
    assert_eq!(block.hash, "");
}

#[test]
fn a_block_with_a_given_time() {
    let block = Block::new_at(
        0,
        vec![],
        "0".to_string(),
        MINER_WALLET.to_string(),
        Ok(GENESIS_TIME),
    )
    .unwrap();
    assert_eq!(block.nonce, 137);
    assert_eq!(block.hash, GENESIS_HASH);
}

#[test]
fn a_block_without_a_clock() {
    let r = Block::new_at(0, vec![], "0".to_string(), "w".to_string(), Err("no clock".to_string()));
    match r {
        Err(BlockchainError::IoError(message)) => assert_eq!(message, "no clock"),
        _ => panic!("an error of the clock is an IO error"),
    }
}

#[test]
fn a_block_with_the_present_time() {
    let block = Block::new(1, vec![], "0000".to_string(), "wallet".to_string()).unwrap();
    assert_eq!(block.index, 1);
    assert_eq!(block.previous_hash, "0000");
    assert_eq!(block.miner_wallet, "wallet");
    assert!(block.timestamp > GENESIS_TIME);
    assert!(block.timestamp <= u64::MAX as u128 * 1000 + 999);
    assert!(block.hash.starts_with("00"));
    assert_eq!(block.hash, block.calculate_hash());
    assert_eq!(DIFFICULTY, 2);
}

#[test]
fn a_new_chain_has_its_first_block() {
    let chain = chain();
    assert_eq!(chain.chain.len(), 1);
    assert_eq!(chain.chain[0].hash, GENESIS_HASH);
    assert_eq!(chain.chain[0].index, 0);
    assert_eq!(chain.chain[0].previous_hash, "0");
    assert_eq!(chain.chain[0].miner_wallet, "MinerWalletAddress");
    assert!(chain.transaction_pool.is_empty());
    assert_eq!(chain.fee_pool.text, "0.0");
}

#[test]
fn a_new_chain_needs_a_clock() {
    assert!(matches!(
        Blockchain::new_at(Err("late".to_string())),
        Err(BlockchainError::IoError(_))
    ));
    assert!(matches!(
        Blockchain::create_genesis_block_at(Err("late".to_string())),
        Err(BlockchainError::IoError(_))
    ));
}

#[test]
fn a_new_chain_with_the_present_time() {
    let chain = Blockchain::new().unwrap();
    assert_eq!(chain.chain.len(), 1);
    assert_eq!(chain.chain[0].hash, chain.chain[0].calculate_hash());
    let genesis = Blockchain::create_genesis_block().unwrap();
    assert!(genesis.hash.starts_with("00"));
}

#[test]
fn nothing_waits_nothing_is_mined() {
    let mut chain = chain();
    let before = format!("{:?}", chain);
    assert!(matches!(chain.mine_pending_transactions_at(Ok(5)), Ok(None)));
    assert!(matches!(chain.mine_pending_transactions_at(Err("late".to_string())), Ok(None)));
    assert!(matches!(chain.mine_pending_transactions(), Ok(None)));
    assert_eq!(format!("{:?}", chain), before);
}

#[test]
fn an_empty_chain_with_an_empty_pool_mines_nothing() {
    let mut chain = Blockchain { chain: vec![], transaction_pool: vec![], fee_pool: Amount::zero() };
    assert!(matches!(chain.mine_pending_transactions_at(Ok(5)), Ok(None)));
}

#[test]
fn waiting_transactions_are_mined_with_the_reward() {
    let mut chain = chain();
    let paid = transaction("alice", "b\"ob", 12.5, 0.1, "s\n\u{7f}");
    chain.add_transaction(paid.entry(), amount(0.0 + 0.1)).unwrap();
    assert_eq!(chain.transaction_pool.len(), 1);
    assert_eq!(chain.fee_pool.text, "0.1");

    let block = chain.mine_pending_transactions_at(Ok(5)).unwrap().unwrap();
    assert_eq!(block.index, 1);
    assert_eq!(block.timestamp, 5);
    assert_eq!(block.nonce, 444);
    assert_eq!(
        block.hash,
        "0099dbf52d7e800ab819109bf48f522b0ec55e4b5974230aa12aca93b83389fa"
    );
    assert_eq!(block.previous_hash, GENESIS_HASH);
    assert_eq!(block.transactions.len(), 2);
    let reward = &block.transactions[1];
    assert_eq!(reward.sender, "Network");
    assert_eq!(reward.receiver, "MinerWalletAddress");
    assert_eq!(reward.amount.text, "0.1");
    assert_eq!(reward.fee.text, "0.0");
    assert_eq!(reward.signature, "Reward");

    assert_eq!(chain.chain.len(), 2);
    assert_eq!(chain.chain[1].hash, block.hash);
    assert!(chain.transaction_pool.is_empty());
    assert_eq!(chain.fee_pool.text, "0.0");
}

#[test]
fn a_failed_clock_leaves_the_pool() {
    let mut chain = chain();
    let paid = transaction("a", "b", 1.0, 0.5, "s");
    chain.add_transaction(paid.entry(), amount(0.5)).unwrap();
    let before = format!("{:?}", chain);
    assert!(matches!(
        chain.mine_pending_transactions_at(Err("late".to_string())),
        Err(BlockchainError::IoError(_))
    ));
    assert_eq!(format!("{:?}", chain), before);
}

#[test]
fn the_fee_pool_is_the_sum_of_the_waiting_fees() {
    let mut chain = chain();
    let mut sum: f32 = 0.0;
    for fee in [0.1f32, 0.2, 0.3] {
        let entry = transaction("a", "b", 1.0, fee, "s").entry();
        let (fees, own) = chain.fee_terms(&entry);
        assert_eq!(fees.text, format!("{:?}", sum));
        assert_eq!(own.text, format!("{:?}", fee));
        sum = fees.text.parse::<f32>().unwrap() + own.text.parse::<f32>().unwrap();
        chain.add_transaction(entry, amount(sum)).unwrap();
    }
    let block = chain.mine_pending_transactions_at(Ok(9)).unwrap().unwrap();
    assert_eq!(block.transactions.len(), 4);
    assert_eq!(block.transactions[3].amount.text, format!("{:?}", 0.1f32 + 0.2 + 0.3));
    assert_eq!(block.transactions[0].fee.text, "0.1");
    assert_eq!(block.transactions[2].fee.text, "0.3");
}

#[test]
fn a_peer_block_leaves_the_waiting_fees() {
    let mut chain = chain();
    let mut peer_block = plain_block(0);
    peer_block.previous_hash = GENESIS_HASH.to_string();
    peer_block.hash = peer_block.calculate_hash();
    chain.add_transaction(transaction("a", "b", 1.0, 0.25, "s").entry(), amount(0.25)).unwrap();
    chain.add_block_from_peer(peer_block.clone()).unwrap();
    assert_eq!(chain.fee_pool.text, "0.25");
    assert_eq!(chain.transaction_pool.len(), 1);
    chain.add_transaction(transaction("c", "d", 1.0, 0.5, "s").entry(), amount(0.75)).unwrap();
    let block = chain.mine_pending_transactions_at(Ok(3)).unwrap().unwrap();
    assert_eq!(block.index, 2);
    assert_eq!(block.previous_hash, peer_block.hash);
    assert_eq!(block.transactions.len(), 3);
    assert_eq!(block.transactions[2].amount.text, "0.75");
    assert_eq!(block.transactions[2].receiver, block.miner_wallet);
}

#[test]
fn a_mined_block_is_accepted_by_a_node_with_the_same_last_block() {
    let mut miner = chain();
    let mut peer = chain();
    miner.add_transaction(transaction("a", "b", 1.0, 0.5, "s").entry(), amount(0.5)).unwrap();
    let block = miner.mine_pending_transactions().unwrap().unwrap();
    peer.add_block_from_peer(block.clone()).unwrap();
    assert_eq!(format!("{:?}", peer.chain), format!("{:?}", miner.chain));
    assert!(matches!(
        peer.add_block_from_peer(block),
        Err(BlockchainError::BlockchainInvalid)
    ));
    assert_eq!(peer.chain.len(), 2);
}

#[test]
fn a_changed_block_is_refused() {
    let mut miner = chain();
    let mut peer = chain();
    miner.add_transaction(transaction("a", "b", 1.0, 0.5, "s").entry(), amount(0.5)).unwrap();
    let mut block = miner.mine_pending_transactions_at(Ok(5)).unwrap().unwrap();
    block.transactions[0].receiver = "mallory".to_string();
    assert!(matches!(
        peer.add_block_from_peer(block),
        Err(BlockchainError::BlockchainInvalid)
    ));
    assert_eq!(peer.chain.len(), 1);
}

#[test]
fn a_block_that_continues_another_chain_is_refused() {
    let mut peer = chain();
    let mut stranger = plain_block(0);
    stranger.mine_block(2);
    assert!(matches!(
        peer.add_block_from_peer(stranger),
        Err(BlockchainError::BlockchainInvalid)
    ));
}

#[test]
fn a_peer_block_need_not_be_sealed_or_numbered() {
    let mut peer = chain();
    let mut block = plain_block(0);
    block.index = 99;
    block.previous_hash = GENESIS_HASH.to_string();
    block.hash = block.calculate_hash();
    assert!(!block.hash.starts_with("00"));
    peer.add_block_from_peer(block).unwrap();
    assert_eq!(peer.chain.len(), 2);
}

#[test]
fn an_empty_chain_accepts_nothing() {
    let mut empty = Blockchain { chain: vec![], transaction_pool: vec![], fee_pool: Amount::zero() };
    let mut block = plain_block(0);
    block.mine_block(2);
    assert!(matches!(
        empty.add_block_from_peer(block),
        Err(BlockchainError::BlockchainInvalid)
    ));
    assert!(empty.chain.is_empty());
}

#[test]
fn every_chain_stays_linked() {
    let mut chain = chain();
    for round in 0..4u128 {
        chain.add_transaction(transaction("a", "b", 1.0, 0.5, "s").entry(), amount(0.5)).unwrap();
        chain.mine_pending_transactions_at(Ok(round)).unwrap();
    }
    assert_eq!(chain.chain.len(), 5);
    assert_eq!(chain.chain[0].hash, GENESIS_HASH);
    for i in 0..chain.chain.len() {
        let block = &chain.chain[i];
        assert_eq!(block.index as usize, i);
        assert_eq!(block.hash, block.calculate_hash());
        assert!(block.hash.starts_with("00"));
        if i > 0 {
            assert_eq!(block.previous_hash, chain.chain[i - 1].hash);
        }
    }
}

#[test]
fn fields_run_into_each_other() {
    let mut a = plain_block(0);
    a.index = 1;
    a.timestamp = 23;
    let mut b = plain_block(0);
    b.index = 12;
    b.timestamp = 3;
    assert_eq!(a.calculate_hash(), b.calculate_hash());
    b.timestamp = 4;
    assert_ne!(a.calculate_hash(), b.calculate_hash());
}

#[test]
fn nothing_waits_after_mining() {
    let mut chain = chain();
    chain.add_transaction(transaction("a", "b", 1.0, 0.5, "s").entry(), amount(0.5)).unwrap();
    assert!(matches!(chain.mine_pending_transactions_at(Ok(1)), Ok(Some(_))));
    assert!(matches!(chain.mine_pending_transactions_at(Ok(2)), Ok(None)));
    assert_eq!(chain.chain.len(), 2);
}

#[test]
fn error_messages() {
    let text = || "why".to_string();
    assert_eq!(BlockchainError::IoError(text()).message(), "IO Error occurred: why");
    assert_eq!(BlockchainError::SerdeJsonError(text()).message(), "Serde JSON Error: why");
    assert_eq!(BlockchainError::RingError(text()).message(), "Ring Crypto Error: why");
    assert_eq!(BlockchainError::WebSocketError(text()).message(), "WebSocket Error: why");
    assert_eq!(BlockchainError::InvalidPeerAddress.message(), "Invalid Peer Address");
    assert_eq!(BlockchainError::BlockchainInvalid.message(), "Blockchain Validation Failed");
    assert_eq!(BlockchainError::TransactionError(text()).message(), "Transaction Error: why");
    assert_eq!(BlockchainError::NonceExhausted.message(), "Nonce Space Exhausted");
}
