//! Wallets, endpoints and the decisions of a node on concrete values.

use ledger_node::clock::{millis_from, unix_millis, whole_millis};
use ledger_node::error::BlockchainError;
use ledger_node::network::{
    received_text, Endpoint, ListenerAction, ListenerEvent, PeerAddr, PEER_BUFFER_SIZE,
};
use ledger_node::node::{
    handle_other_message, handle_transaction_connection, handle_transaction_connection_at, Node,
    PeerListenerAction, PeerMessage, SocketAction, SocketEvent,
};
use ledger_node::transaction::{Amount, Transaction};
use ledger_node::wallet::{generate_wallet, wallet_address, wallet_from_pkcs8};
use ring::rand::SystemRandom;
use ring::signature::{Ed25519KeyPair, KeyPair};

fn node() -> Node {
    Node::new_at(Ok(1700000000000)).unwrap()
}

fn v4(last: u8, port: u16) -> PeerAddr {
    PeerAddr::V4 { ip4: u32::from_be_bytes([127, 0, 0, last]), port }
}

fn transaction(fee: &str) -> Transaction {
    Transaction {
        sender: "a".to_string(),
        receiver: "b".to_string(),
        amount: Amount { text: "1.0".to_string() },
        fee: Amount { text: fee.to_string() },
        signature: "s".to_string(),
    }
}

fn fees(text: &str) -> Amount {
    Amount { text: text.to_string() }
}

#[test]
fn an_address_is_lower_case_hexadecimal() {
    assert_eq!(wallet_address(&[0, 1, 15, 16, 159, 160, 255]), "00010f109fa0ff");
    assert_eq!(wallet_address(&[]), "");
}

#[test]
fn a_wallet_is_the_public_key_of_its_pair() {
    let document = Ed25519KeyPair::generate_pkcs8(&SystemRandom::new()).unwrap();
    let pair = Ed25519KeyPair::from_pkcs8(document.as_ref()).unwrap();
    let address = wallet_from_pkcs8(Ok(document.as_ref().to_vec())).unwrap();
    assert_eq!(address, hex::encode(pair.public_key().as_ref()));
}

#[test]
fn a_key_that_was_not_drawn_gives_no_wallet() {
    match wallet_from_pkcs8(Err("Unspecified".to_string())) {
        Err(BlockchainError::RingError(text)) => {
            assert_eq!(text, "Key generation error: Unspecified")
        }
        _ => panic!("no key, no wallet"),
    }
}

#[test]
fn a_document_that_holds_no_key_gives_no_wallet() {
    match wallet_from_pkcs8(Ok(vec![1, 2, 3])) {
        Err(BlockchainError::RingError(text)) => {
            assert_eq!(text, "Key pair error: KeyRejected(\"InvalidEncoding\")")
        }
        _ => panic!("no key, no wallet"),
    }
}

#[test]
fn generated_wallets_differ() {
    let a = generate_wallet().unwrap();
    let b = generate_wallet().unwrap();
    assert_eq!(a.len(), 64);
    assert!(a.chars().all(|c| c.is_ascii_digit() || ('a'..='f').contains(&c)));
    assert_ne!(a, b);
}

#[test]
fn the_clock_counts_milliseconds() {
    assert_eq!(whole_millis(0, 999_999), 0);
    assert_eq!(whole_millis(1, 1_000_000), 1001);
    assert_eq!(whole_millis(u64::MAX, 999_999_999), u64::MAX as u128 * 1000 + 999);
    assert_eq!(millis_from(Ok((1700000000, 123_456_789))), Ok(1700000000123));
    assert_eq!(millis_from(Err("late".to_string())), Err("late".to_string()));
    let a = unix_millis().unwrap();
    let b = unix_millis().unwrap();
    assert!(a > 1_600_000_000_000 && a < 10_000_000_000_000);
    assert!(b >= a || a - b < 60_000);
}

#[test]
fn a_port_that_is_named_is_taken() {
    let endpoint = node().start_listener(8080).endpoint;
    assert_eq!(endpoint.port, 8080);
    assert_eq!(endpoint.addr, "127.0.0.1:8080");
    assert_eq!(node().start_listener(65535).endpoint.addr, "127.0.0.1:65535");
}

#[test]
fn a_port_that_is_not_named_is_drawn() {
    let node = node();
    let mut ports = vec![];
    for _ in 0..200 {
        let endpoint = node.start_listener(0).endpoint;
        assert!(endpoint.port >= 1024 && endpoint.port < 65535);
        assert_eq!(endpoint.addr, format!("127.0.0.1:{}", endpoint.port));
        ports.push(endpoint.port);
    }
    ports.dedup();
    assert!(ports.len() > 1);
}

#[test]
fn the_drawn_port_counts_only_where_none_is_named() {
    assert_eq!(Node::listening_endpoint(0, 2000).port, 2000);
    assert_eq!(Node::listening_endpoint(80, 2000).port, 80);
    assert_eq!(Node::listening_endpoint(80, 2000).addr, "127.0.0.1:80");
}

#[test]
fn websockets_get_the_next_port() {
    let endpoint = Endpoint::websocket(8080);
    assert_eq!(endpoint.port, 8081);
    assert_eq!(endpoint.addr, "127.0.0.1:8081");
    assert_eq!(Endpoint::websocket(65534).port, 65535);
}

#[test]
fn the_peer_listener_outlives_a_failed_connection() {
    let listener = node().start_listener(8080);
    assert!(matches!(
        listener.listen_for_peers(ListenerEvent::Bound),
        PeerListenerAction::Accept
    ));
    match listener.listen_for_peers(ListenerEvent::AcceptFailed("reset".to_string())) {
        PeerListenerAction::Report(reason) => assert_eq!(reason, "reset"),
        _ => panic!("a failed connection is reported"),
    }
    match listener.listen_for_peers(ListenerEvent::BindFailed("in use".to_string())) {
        PeerListenerAction::Finish(BlockchainError::IoError(reason)) => {
            assert_eq!(reason, "in use")
        }
        _ => panic!("a port in use ends the listener"),
    }
}

#[test]
fn every_peer_is_served_with_the_node_of_the_start() {
    let mut node = node();
    let listener = node.start_listener(8080);
    let start = format!("{:?}", node);
    node.connect_to_peer(v4(1, 80), true);
    handle_transaction_connection(
        &mut node,
        SocketEvent::Transaction(transaction("0.5"), fees("0.5")),
    );
    assert_ne!(format!("{:?}", node), start);
    for _ in 0..3 {
        match listener.listen_for_peers(ListenerEvent::Accepted) {
            PeerListenerAction::Serve(copy) => assert_eq!(format!("{:?}", copy), start),
            _ => panic!("a connection is served"),
        }
    }
}

#[test]
fn the_websocket_listener_ends_with_a_failed_connection() {
    assert!(matches!(Node::start_websocket_listener(ListenerEvent::Bound), ListenerAction::Accept));
    assert!(matches!(
        Node::start_websocket_listener(ListenerEvent::Accepted),
        ListenerAction::Serve
    ));
    assert!(matches!(
        Node::start_websocket_listener(ListenerEvent::AcceptFailed("reset".to_string())),
        ListenerAction::Finish(Ok(()))
    ));
    assert!(matches!(
        Node::start_websocket_listener(ListenerEvent::BindFailed("in use".to_string())),
        ListenerAction::Finish(Err(BlockchainError::IoError(_)))
    ));
}

#[test]
fn a_message_is_the_bytes_that_were_read() {
    let mut buffer = vec![0u8; PEER_BUFFER_SIZE];
    assert_eq!(buffer.len(), 1024);
    assert_eq!(received_text(&buffer, 0), None);
    buffer[..6].copy_from_slice("h\u{e9}llo".as_bytes());
    assert_eq!(received_text(&buffer, 6), Some("h\u{e9}llo".to_string()));
    assert_eq!(received_text(&buffer, 2), Some("h\u{fffd}".to_string()));
    buffer[0] = 0xff;
    assert_eq!(received_text(&buffer, 1), Some("\u{fffd}".to_string()));
}

#[test]
fn a_new_node_has_no_peers() {
    let node = Node::new().unwrap();
    assert!(node.peers.is_empty());
    assert_eq!(node.blockchain.chain.len(), 1);
    assert!(matches!(
        Node::new_at(Err("late".to_string())),
        Err(BlockchainError::IoError(_))
    ));
}

#[test]
fn a_peer_is_listed_once() {
    let mut node = node();
    assert!(node.connect_to_peer(v4(1, 80), true));
    assert!(node.connect_to_peer(v4(2, 80), true));
    assert!(node.connect_to_peer(v4(1, 80), true));
    assert!(node.connect_to_peer(v4(1, 81), true));
    assert!(!node.connect_to_peer(v4(3, 80), false));
    assert_eq!(node.peers, vec![v4(1, 80), v4(2, 80), v4(1, 81)]);
    assert_eq!(node.broadcast_block(), node.peers);
}

#[test]
fn v6_peers_differ_in_every_part() {
    let mut node = node();
    let base = PeerAddr::V6 { ip6: 1, port: 80, flowinfo: 0, scope_id: 0 };
    let other = PeerAddr::V6 { ip6: 1, port: 80, flowinfo: 0, scope_id: 1 };
    node.connect_to_peer(base, true);
    node.connect_to_peer(other, true);
    node.connect_to_peer(base, true);
    assert_eq!(node.peers, vec![base, other]);
}

#[test]
fn a_block_from_a_peer_is_checked_and_not_kept() {
    let node = node();
    let mut miner = node.clone();
    miner.blockchain.add_transaction(transaction("0.5"), fees("0.5")).unwrap();
    let block = miner.blockchain.mine_pending_transactions_at(Ok(5)).unwrap().unwrap();
    let before = format!("{:?}", node);
    assert!(node.handle_peer_connection(PeerMessage::Block(block.clone())).is_ok());
    let mut changed = block;
    changed.nonce += 1;
    assert!(matches!(
        node.handle_peer_connection(PeerMessage::Block(changed)),
        Err(BlockchainError::BlockchainInvalid)
    ));
    assert!(node.handle_peer_connection(PeerMessage::Other).is_ok());
    assert!(node.handle_peer_connection(PeerMessage::Empty).is_ok());
    assert!(node.handle_peer_connection(PeerMessage::ReadFailed("reset".to_string())).is_ok());
    assert_eq!(format!("{:?}", node), before);
}

#[test]
fn a_transaction_is_mined_and_broadcast() {
    let mut node = node();
    let peer = node.clone();
    let action = handle_transaction_connection(
        &mut node,
        SocketEvent::Transaction(transaction("0.5"), fees("0.5")),
    );
    match action {
        SocketAction::Broadcast(block) => {
            assert_eq!(node.blockchain.chain.len(), 2);
            assert_eq!(node.blockchain.chain[1].hash, block.hash);
            assert_eq!(block.transactions.len(), 2);
            assert!(node.blockchain.transaction_pool.is_empty());
            assert_eq!(node.blockchain.fee_pool.text, "0.0");
            assert!(peer.handle_peer_connection(PeerMessage::Block(block)).is_ok());
        }
        _ => panic!("the block is broadcast"),
    }
}

#[test]
fn a_transaction_waits_where_the_clock_fails() {
    let mut node = node();
    let action = handle_transaction_connection_at(
        &mut node,
        SocketEvent::Transaction(transaction("0.5"), fees("0.5")),
        Err("late".to_string()),
    );
    assert!(matches!(action, SocketAction::Finish(Err(BlockchainError::IoError(_)))));
    assert_eq!(node.blockchain.chain.len(), 1);
    assert_eq!(node.blockchain.transaction_pool.len(), 1);
    assert_eq!(node.blockchain.fee_pool.text, "0.5");
    let action = handle_transaction_connection_at(
        &mut node,
        SocketEvent::Transaction(transaction("0.25"), fees("0.75")),
        Ok(5),
    );
    match action {
        SocketAction::Broadcast(block) => {
            assert_eq!(block.transactions.len(), 3);
            assert_eq!(block.transactions[2].amount.text, "0.75");
        }
        _ => panic!("the block is broadcast"),
    }
}

#[test]
fn other_messages_change_nothing() {
    let mut node = node();
    let before = format!("{:?}", node);
    match handle_transaction_connection(&mut node, SocketEvent::Malformed("eof".to_string())) {
        SocketAction::Report(reason) => assert_eq!(reason, "eof"),
        _ => panic!("a malformed text is reported"),
    }
    match handle_transaction_connection(&mut node, SocketEvent::Failed("reset".to_string())) {
        SocketAction::Report(reason) => assert_eq!(reason, "reset"),
        _ => panic!("a failure is reported"),
    }
    assert!(matches!(
        handle_transaction_connection(&mut node, SocketEvent::NonText),
        SocketAction::Ignore
    ));
    assert!(matches!(
        handle_transaction_connection(&mut node, SocketEvent::Closed),
        SocketAction::Finish(Ok(()))
    ));
    assert_eq!(format!("{:?}", node), before);
}

#[test]
fn other_messages_need_no_node() {
    match handle_other_message(SocketEvent::Malformed("eof".to_string())) {
        SocketAction::Report(reason) => assert_eq!(reason, "eof"),
        _ => panic!("a malformed text is reported"),
    }
    match handle_other_message(SocketEvent::Failed("reset".to_string())) {
        SocketAction::Report(reason) => assert_eq!(reason, "reset"),
        _ => panic!("a failure is reported"),
    }
    assert!(matches!(handle_other_message(SocketEvent::NonText), SocketAction::Ignore));
    assert!(matches!(handle_other_message(SocketEvent::Closed), SocketAction::Finish(Ok(()))));
}
