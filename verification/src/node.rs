//! A node: a chain, the peers it talks to, and what it decides as they talk.

use crate::block::{Block, DIFFICULTY};
use crate::blockchain::{Blockchain, BlockchainView};
use crate::clock::unix_millis;
use crate::error::{BlockchainError, ErrorView};
use crate::network::{
    random_in, Endpoint, ListenerAction, ListenerEvent, PeerAddr, DRAWN_PORT_END, FIRST_DRAWN_PORT,
};
use crate::transaction::{Amount, Transaction, TransactionView};
use vstd::prelude::*;

verus! {

/// A network node.
#[derive(Debug)]
pub struct Node {
    /// The node's own chain.
    pub blockchain: Blockchain,
    /// The peers the node has connected to, in the order of the first connection.
    pub peers: Vec<PeerAddr>,
}

/// The mathematical model of a [`Node`].
pub struct NodeView {
    pub blockchain: BlockchainView,
    pub peers: Seq<PeerAddr>,
}

impl View for Node {
    type V = NodeView;

    open spec fn view(&self) -> NodeView {
        NodeView { blockchain: self.blockchain@, peers: self.peers@ }
    }
}

impl NodeView {
    /// The node after it connected to `addr`: a peer is listed once.
    pub open spec fn with_peer(self, addr: PeerAddr) -> NodeView {
        if self.peers.contains(addr) {
            self
        } else {
            NodeView { peers: self.peers.push(addr), ..self }
        }
    }

    /// The node with another chain.
    pub open spec fn with_blockchain(self, blockchain: BlockchainView) -> NodeView {
        NodeView { blockchain, ..self }
    }
}

/// A listener for peers.
#[derive(Debug)]
pub struct PeerListener {
    /// Where it listens.
    pub endpoint: Endpoint,
    /// The node as it was when the listener started.
    pub node: Node,
}

/// What a listener for peers does next.
#[derive(Debug)]
pub enum PeerListenerAction {
    /// Waits for a connection.
    Accept,
    /// Serves the connection with this copy of the node in a task of its own, and waits for the
    /// next one.
    Serve(Node),
    /// Reports the reason, and waits for the next connection.
    Report(String),
    /// Ends with the error.
    Finish(BlockchainError),
}

/// The mathematical model of a [`PeerListenerAction`].
pub enum PeerListenerActionView {
    Accept,
    Serve(NodeView),
    Report(Seq<char>),
    Finish(ErrorView),
}

impl View for PeerListenerAction {
    type V = PeerListenerActionView;

    open spec fn view(&self) -> PeerListenerActionView {
        match self {
            PeerListenerAction::Accept => PeerListenerActionView::Accept,
            PeerListenerAction::Serve(node) => PeerListenerActionView::Serve(node@),
            PeerListenerAction::Report(reason) => PeerListenerActionView::Report(reason@),
            PeerListenerAction::Finish(e) => PeerListenerActionView::Finish(e@),
        }
    }
}

/// What a listener for peers that started with `node` does about `event`.
pub open spec fn peer_action(node: NodeView, event: ListenerEvent) -> PeerListenerActionView {
    match event {
        ListenerEvent::Bound => PeerListenerActionView::Accept,
        ListenerEvent::BindFailed(reason) => PeerListenerActionView::Finish(
            ErrorView::IoError(reason@),
        ),
        ListenerEvent::Accepted => PeerListenerActionView::Serve(node),
        ListenerEvent::AcceptFailed(reason) => PeerListenerActionView::Report(reason@),
    }
}

impl PeerListener {
    /// What the listener does next: it serves every connection with a copy of the node as it was
    /// when the listener started, and a connection that fails does not stop it.
    pub fn listen_for_peers(&self, event: ListenerEvent) -> (r: PeerListenerAction)
        ensures
            r@ == peer_action(self.node@, event),
            match event {
                ListenerEvent::Bound => r is Accept,
                ListenerEvent::BindFailed(reason) => r matches PeerListenerAction::Finish(e)
                    && e matches BlockchainError::IoError(text) && text@ == reason@,
                ListenerEvent::Accepted => r matches PeerListenerAction::Serve(node)
                    && node.blockchain@ == self.node.blockchain@ && node.peers@
                    == self.node.peers@,
                ListenerEvent::AcceptFailed(reason) => r matches PeerListenerAction::Report(text)
                    && text@ == reason@,
            },
    {
        match event {
            ListenerEvent::Bound => PeerListenerAction::Accept,
            ListenerEvent::BindFailed(reason) => PeerListenerAction::Finish(
                BlockchainError::IoError(reason),
            ),
            ListenerEvent::Accepted => PeerListenerAction::Serve(self.node.clone()),
            ListenerEvent::AcceptFailed(reason) => PeerListenerAction::Report(reason),
        }
    }
}

/// What a peer's connection brought.
#[derive(Debug)]
pub enum PeerMessage {
    /// A block.
    Block(Block),
    /// Bytes that are no block.
    Other,
    /// No bytes.
    Empty,
    /// The connection could not be read, for this reason.
    ReadFailed(String),
}

/// What a WebSocket connection brought.
#[derive(Debug)]
pub enum SocketEvent {
    /// A transaction, and the sum of the amounts that [`Blockchain::fee_terms`] gives for it.
    Transaction(Transaction, Amount),
    /// A text that is no transaction, for this reason.
    Malformed(String),
    /// A message that is no text.
    NonText,
    /// The connection failed, for this reason.
    Failed(String),
    /// The connection ended.
    Closed,
}

/// What the node does about what a WebSocket connection brought.
#[derive(Debug)]
pub enum SocketAction {
    /// Sends the block to the peers, and reads on.
    Broadcast(Block),
    /// Reads on.
    Ignore,
    /// Reports the reason, and reads on.
    Report(String),
    /// Ends.
    Finish(Result<(), BlockchainError>),
}

impl Clone for Node {
    fn clone(&self) -> (r: Self)
        ensures
            r@ == self@,
    {
        let peers = self.peers.clone();
        assert(peers@ =~= self.peers@);
        Node { blockchain: self.blockchain.clone(), peers }
    }
}

impl Node {
    /// A new node, with the time that `clock` gives for its first block: a new chain and no
    /// peers.
    pub fn new_at(clock: Result<u128, String>) -> (r: Result<Node, BlockchainError>)
        ensures
            match clock {
                Err(message) => r matches Err(e) && e@ == ErrorView::IoError(message@),
                Ok(timestamp) => if crate::blockchain::genesis_template(timestamp).can_be_sealed(
                    DIFFICULTY as nat,
                ) {
                    r matches Ok(node) && node@.blockchain.starts_at(timestamp) && node@.peers
                        == Seq::<PeerAddr>::empty()
                } else {
                    r matches Err(e) && e@ == ErrorView::NonceExhausted
                },
            },
    {
        match Blockchain::new_at(clock) {
            Ok(blockchain) => Ok(Node { blockchain, peers: Vec::new() }),
            Err(e) => Err(e),
        }
    }

    /// A new node: a new chain, with the present time, and no peers.
    ///
    /// The result is that of [`Node::new_at`] on what the clock gave.
    pub fn new() -> (r: Result<Node, BlockchainError>)
        ensures
            match r {
                Ok(node) => {
                    &&& node@.blockchain.starts_at(node@.blockchain.chain[0].timestamp)
                    &&& crate::clock::on_the_clock(node@.blockchain.chain[0].timestamp)
                    &&& crate::clock::clock_gave(Ok(node@.blockchain.chain[0].timestamp))
                    &&& node@.peers == Seq::<PeerAddr>::empty()
                },
                Err(e) => {
                    ||| e@ matches ErrorView::IoError(message) && crate::clock::clock_gave(
                        Err(message),
                    )
                    ||| e@ is NonceExhausted && exists|timestamp: u128|
                        crate::clock::on_the_clock(timestamp) && crate::clock::clock_gave(
                            Ok(timestamp),
                        ) && !(#[trigger] crate::blockchain::genesis_template(
                            timestamp,
                        )).can_be_sealed(DIFFICULTY as nat)
                },
            },
    {
        let clock = unix_millis();
        Node::new_at(clock)
    }

    /// Where the node listens for peers if `drawn` is the port that was drawn for it: at `port`,
    /// or, where `port` is 0, at `drawn`.
    pub fn listening_endpoint(port: u16, drawn: u16) -> (r: Endpoint)
        ensures
            r.port == if port == 0 { drawn } else { port },
            r.addr@ == crate::network::local_addr(r.port),
            r.addr@ == "127.0.0.1:"@ + crate::text::decimal(r.port as nat),
    {
        Endpoint::local(if port == 0 { drawn } else { port })
    }

    /// The listener for peers: at `port`, or, where `port` is 0, at a port that is drawn, and with
    /// a copy of the node as it is now.
    pub fn start_listener(&self, port: u16) -> (r: PeerListener)
        ensures
            port != 0 ==> r.endpoint.port == port,
            port == 0 ==> FIRST_DRAWN_PORT <= r.endpoint.port < DRAWN_PORT_END,
            port == 0 ==> 1024 <= r.endpoint.port < 65535,
            port == 0 ==> crate::provenance::drawn_between(1024, 65535, r.endpoint.port),
            r.endpoint.addr@ == crate::network::local_addr(r.endpoint.port),
            r.endpoint.addr@ == "127.0.0.1:"@ + crate::text::decimal(r.endpoint.port as nat),
            r.node@ == self@,
            r.node.blockchain@ == self.blockchain@,
            r.node.peers@ == self.peers@,
    {
        let drawn: u16 = if port == 0 {
            random_in(FIRST_DRAWN_PORT, DRAWN_PORT_END)
        } else {
            port
        };
        PeerListener { endpoint: Node::listening_endpoint(port, drawn), node: self.clone() }
    }

    /// What the WebSocket listener does next: it serves every connection until one fails.
    pub fn start_websocket_listener(event: ListenerEvent) -> (r: ListenerAction)
        ensures
            match event {
                ListenerEvent::Bound => r is Accept,
                ListenerEvent::BindFailed(reason) => r matches ListenerAction::Finish(Err(e)) && e@
                    == ErrorView::IoError(reason@),
                ListenerEvent::Accepted => r is Serve,
                ListenerEvent::AcceptFailed(_) => r matches ListenerAction::Finish(Ok(())),
            },
    {
        match event {
            ListenerEvent::Bound => ListenerAction::Accept,
            ListenerEvent::BindFailed(reason) => ListenerAction::Finish(
                Err(BlockchainError::IoError(reason)),
            ),
            ListenerEvent::Accepted => ListenerAction::Serve,
            ListenerEvent::AcceptFailed(_) => ListenerAction::Finish(Ok(())),
        }
    }

    /// Takes what a peer's connection brought. A block is held against a copy of the chain: one
    /// that does not continue it is an error, and the node itself stays as it is either way.
    pub fn handle_peer_connection(&self, message: PeerMessage) -> (r: Result<(), BlockchainError>)
        ensures
            match message {
                PeerMessage::Block(block) => if self@.blockchain.accepts(block@) {
                    r is Ok
                } else {
                    r matches Err(e) && e@ == ErrorView::BlockchainInvalid
                },
                _ => r is Ok,
            },
            r is Err <==> (message matches PeerMessage::Block(block) && !{
                &&& self.blockchain.chain@.len() > 0
                &&& block.previous_hash@ == self.blockchain.chain@.last().hash@
                &&& block.hash@ == block@.content_hash()
            }),
    {
        match message {
            PeerMessage::Block(block) => {
                let mut node_blockchain = self.blockchain.clone();
                node_blockchain.add_block_from_peer(block)
            },
            PeerMessage::Other | PeerMessage::Empty | PeerMessage::ReadFailed(_) => Ok(()),
        }
    }

    /// Whether the node has connected to `addr` before.
    fn has_peer(&self, addr: PeerAddr) -> (r: bool)
        ensures
            r == self@.peers.contains(addr),
    {
        let mut i: usize = 0;
        while i < self.peers.len()
            invariant
                i <= self.peers.len(),
                forall|j: int| 0 <= j < i ==> self.peers@[j] != addr,
            decreases self.peers.len() - i,
        {
            if self.peers[i] == addr {
                return true;
            }
            i += 1;
        }
        false
    }

    /// Takes the outcome of connecting to `addr`: a peer that was reached is listed, once, and
    /// the node's chain is to be sent to it.
    pub fn connect_to_peer(&mut self, addr: PeerAddr, connected: bool) -> (send: bool)
        ensures
            send == connected,
            connected ==> final(self)@ == old(self)@.with_peer(addr),
            !connected ==> final(self)@ == old(self)@,
            connected ==> final(self)@.peers.contains(addr),
            final(self).peers@ == if connected && !old(self).peers@.contains(addr) {
                old(self).peers@.push(addr)
            } else {
                old(self).peers@
            },
            final(self).blockchain == old(self).blockchain,
            old(self)@.peers.no_duplicates() ==> final(self)@.peers.no_duplicates(),
    {
        proof {
            crate::laws::law_peer_is_listed_once(self@, addr);
        }
        if connected {
            if !self.has_peer(addr) {
                self.peers.push(addr);
            }
        }
        connected
    }

    /// The peers that a block is sent to, in order.
    pub fn broadcast_block(&self) -> (r: Vec<PeerAddr>)
        ensures
            r@ == self@.peers,
            r@ == self.peers@,
    {
        let targets = self.peers.clone();
        assert(targets@ =~= self.peers@);
        targets
    }
}

/// What the node does about a message that brings no transaction: the node itself has no part in
/// it.
pub fn handle_other_message(event: SocketEvent) -> (r: SocketAction)
    requires
        event !is Transaction,
    ensures
        match event {
            SocketEvent::Transaction(_, _) => true,
            SocketEvent::Malformed(reason) => r matches SocketAction::Report(text) && text@
                == reason@,
            SocketEvent::NonText => r is Ignore,
            SocketEvent::Failed(reason) => r matches SocketAction::Report(text) && text@
                == reason@,
            SocketEvent::Closed => r matches SocketAction::Finish(Ok(())),
        },
{
    match event {
        SocketEvent::Malformed(reason) => SocketAction::Report(reason),
        SocketEvent::Failed(reason) => SocketAction::Report(reason),
        SocketEvent::Closed => SocketAction::Finish(Ok(())),
        SocketEvent::NonText | SocketEvent::Transaction(_, _) => SocketAction::Ignore,
    }
}

/// Takes what a WebSocket connection brought, with the time that `clock` gives. A transaction
/// goes into a new block at once, behind what waits already, and that block is broadcast; where
/// there is an error the transaction stays in the pool and the connection ends.
pub fn handle_transaction_connection_at(
    node: &mut Node,
    event: SocketEvent,
    clock: Result<u128, String>,
) -> (r: SocketAction)
    requires
        event is Transaction ==> old(node)@.blockchain.chain.len() > 0,
    ensures
        crate::blockchain::linked(old(node)@.blockchain.chain) ==> crate::blockchain::linked(
            final(node)@.blockchain.chain,
        ),
        old(node)@.blockchain.chain.is_prefix_of(final(node)@.blockchain.chain),
        match event {
            SocketEvent::Transaction(transaction, fee_pool) => {
                let waiting = old(node)@.blockchain.with_transaction(transaction@, fee_pool@);
                match clock {
                    Err(message) => {
                        &&& r matches SocketAction::Finish(Err(e)) && e@ == ErrorView::IoError(
                            message@,
                        )
                        &&& final(node)@ == old(node)@.with_blockchain(waiting)
                    },
                    Ok(timestamp) => if waiting.next_template(timestamp).can_be_sealed(
                        DIFFICULTY as nat,
                    ) {
                        r matches SocketAction::Broadcast(block) && {
                            &&& waiting.next_template(timestamp).mined_into(
                                block@,
                                DIFFICULTY as nat,
                            )
                            &&& final(node)@ == old(node)@.with_blockchain(
                                waiting.settled_by(block@),
                            )
                        }
                    } else {
                        &&& r matches SocketAction::Finish(Err(e)) && e@
                            == ErrorView::NonceExhausted
                        &&& final(node)@ == old(node)@.with_blockchain(waiting)
                    },
                }
            },
            SocketEvent::Malformed(reason) => {
                &&& r matches SocketAction::Report(text) && text@ == reason@
                &&& final(node)@ == old(node)@
            },
            SocketEvent::NonText => r is Ignore && final(node)@ == old(node)@,
            SocketEvent::Failed(reason) => {
                &&& r matches SocketAction::Report(text) && text@ == reason@
                &&& final(node)@ == old(node)@
            },
            SocketEvent::Closed => {
                &&& r matches SocketAction::Finish(Ok(()))
                &&& final(node)@ == old(node)@
            },
        },
        event matches SocketEvent::Transaction(transaction, fee_pool) ==> (
        r matches SocketAction::Broadcast(block) ==> {
            &&& block.index == old(node).blockchain.chain@.len() % 0x1_0000_0000
            &&& clock matches Ok(timestamp) && block.timestamp == timestamp
            &&& crate::transaction::views(block.transactions@) == crate::transaction::views(
                old(node).blockchain.transaction_pool@,
            ).push(transaction@).push(
                (TransactionView {
                    sender: "Network"@,
                    receiver: "MinerWalletAddress"@,
                    amount: fee_pool.text@,
                    fee: "0.0"@,
                    signature: "Reward"@,
                }),
            )
            &&& block.previous_hash@ == old(node).blockchain.chain@.last().hash@
            &&& block.miner_wallet@ == "MinerWalletAddress"@
            &&& block.hash@ == block@.content_hash()
            &&& block.hash@.len() == 64 && block.hash@[0] == '0' && block.hash@[1] == '0'
            &&& final(node).blockchain.chain@.len() == old(node).blockchain.chain@.len() + 1
            &&& final(node).blockchain.chain@.drop_last() == old(node).blockchain.chain@
            &&& final(node).blockchain.chain@.last()@ == block@
            &&& final(node).blockchain.transaction_pool@.len() == 0
            &&& final(node).blockchain.fee_pool.text@ == "0.0"@
        }),
        event matches SocketEvent::Transaction(transaction, fee_pool) ==> (r is Finish ==> {
            &&& final(node).blockchain.chain@ == old(node).blockchain.chain@
            &&& final(node).blockchain.transaction_pool@
                == old(node).blockchain.transaction_pool@.push(transaction)
            &&& final(node).blockchain.fee_pool == fee_pool
        }),
        event is Transaction <==> (r is Broadcast || (r matches SocketAction::Finish(Err(_)))),
        event !is Transaction ==> *final(node) == *old(node),
        final(node).peers@ == old(node).peers@,
{
    match event {
        SocketEvent::Transaction(transaction, fee_pool) => {
            match node.blockchain.add_transaction(transaction, fee_pool) {
                Err(e) => SocketAction::Finish(Err(e)),
                Ok(()) => match node.blockchain.mine_pending_transactions_at(clock) {
                    Err(e) => SocketAction::Finish(Err(e)),
                    Ok(Some(block)) => SocketAction::Broadcast(block),
                    Ok(None) => SocketAction::Ignore,
                },
            }
        },
        other => handle_other_message(other),
    }
}

/// Takes what a WebSocket connection brought, with the present time.
///
/// The result is that of [`handle_transaction_connection_at`] on what the clock gave.
pub fn handle_transaction_connection(node: &mut Node, event: SocketEvent) -> (r: SocketAction)
    requires
        event is Transaction ==> old(node)@.blockchain.chain.len() > 0,
    ensures
        crate::blockchain::linked(old(node)@.blockchain.chain) ==> crate::blockchain::linked(
            final(node)@.blockchain.chain,
        ),
        old(node)@.blockchain.chain.is_prefix_of(final(node)@.blockchain.chain),
        match event {
            SocketEvent::Transaction(transaction, fee_pool) => {
                let waiting = old(node)@.blockchain.with_transaction(transaction@, fee_pool@);
                match r {
                    SocketAction::Broadcast(block) => {
                        &&& crate::clock::on_the_clock(block.timestamp)
                        &&& crate::clock::clock_gave(Ok(block.timestamp))
                        &&& waiting.next_template(block.timestamp).mined_into(
                            block@,
                            DIFFICULTY as nat,
                        )
                        &&& final(node)@ == old(node)@.with_blockchain(waiting.settled_by(block@))
                    },
                    SocketAction::Finish(Err(e)) => {
                        &&& {
                            ||| e@ matches ErrorView::IoError(message)
                                && crate::clock::clock_gave(Err(message))
                            ||| e@ is NonceExhausted && exists|timestamp: u128|
                                crate::clock::on_the_clock(timestamp) && crate::clock::clock_gave(
                                    Ok(timestamp),
                                ) && !(#[trigger] waiting.next_template(timestamp)).can_be_sealed(
                                    DIFFICULTY as nat,
                                )
                        }
                        &&& final(node)@ == old(node)@.with_blockchain(waiting)
                    },
                    _ => false,
                }
            },
            SocketEvent::Malformed(reason) => {
                &&& r matches SocketAction::Report(text) && text@ == reason@
                &&& final(node)@ == old(node)@
            },
            SocketEvent::NonText => r is Ignore && final(node)@ == old(node)@,
            SocketEvent::Failed(reason) => {
                &&& r matches SocketAction::Report(text) && text@ == reason@
                &&& final(node)@ == old(node)@
            },
            SocketEvent::Closed => {
                &&& r matches SocketAction::Finish(Ok(()))
                &&& final(node)@ == old(node)@
            },
        },
        event matches SocketEvent::Transaction(transaction, fee_pool) ==> (
        r matches SocketAction::Broadcast(block) ==> {
            &&& block.index == old(node).blockchain.chain@.len() % 0x1_0000_0000
            &&& crate::clock::clock_gave(Ok(block.timestamp))
            &&& crate::transaction::views(block.transactions@) == crate::transaction::views(
                old(node).blockchain.transaction_pool@,
            ).push(transaction@).push(
                (TransactionView {
                    sender: "Network"@,
                    receiver: "MinerWalletAddress"@,
                    amount: fee_pool.text@,
                    fee: "0.0"@,
                    signature: "Reward"@,
                }),
            )
            &&& block.previous_hash@ == old(node).blockchain.chain@.last().hash@
            &&& block.miner_wallet@ == "MinerWalletAddress"@
            &&& block.hash@ == block@.content_hash()
            &&& block.hash@.len() == 64 && block.hash@[0] == '0' && block.hash@[1] == '0'
            &&& final(node).blockchain.chain@.len() == old(node).blockchain.chain@.len() + 1
            &&& final(node).blockchain.chain@.drop_last() == old(node).blockchain.chain@
            &&& final(node).blockchain.chain@.last()@ == block@
            &&& final(node).blockchain.transaction_pool@.len() == 0
            &&& final(node).blockchain.fee_pool.text@ == "0.0"@
        }),
        event matches SocketEvent::Transaction(transaction, fee_pool) ==> (r is Finish ==> {
            &&& final(node).blockchain.chain@ == old(node).blockchain.chain@
            &&& final(node).blockchain.transaction_pool@
                == old(node).blockchain.transaction_pool@.push(transaction)
            &&& final(node).blockchain.fee_pool == fee_pool
        }),
        event is Transaction <==> (r is Broadcast || (r matches SocketAction::Finish(Err(_)))),
        event !is Transaction ==> *final(node) == *old(node),
        final(node).peers@ == old(node).peers@,
{
    let clock = unix_millis();
    handle_transaction_connection_at(node, event, clock)
}

} // verus!
