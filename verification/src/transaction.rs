//! Transactions and the text that a block hashes of them.

use crate::text::debug_string;
use vstd::prelude::*;
use vstd::string::StringExecFns;

verus! {

/// The wallet that collects the fees.
pub const MINER_WALLET: &'static str = "MinerWalletAddress";

/// An amount of money, as a text: `1.0`, `0.25`, `1e16`.
///
/// The ledger keeps, moves and hashes amounts. It does not compute with them, and takes any text
/// for one. That the text is the shortest decimal that reads back as the same single-precision
/// number is the part of whoever makes the amount.
#[derive(Debug)]
pub struct Amount {
    pub text: String,
}

impl View for Amount {
    type V = Seq<char>;

    open spec fn view(&self) -> Seq<char> {
        self.text@
    }
}

impl Clone for Amount {
    fn clone(&self) -> (r: Self)
        ensures
            r == *self,
    {
        Amount { text: self.text.clone() }
    }
}

impl Amount {
    /// Nothing.
    pub fn zero() -> (r: Self)
        ensures
            r@ == "0.0"@,
            r.text@ == "0.0"@,
    {
        Amount { text: "0.0".to_owned() }
    }
}

/// A transfer from a sender to a receiver.
#[derive(Debug)]
pub struct Transaction {
    /// Who pays.
    pub sender: String,
    /// Who is paid.
    pub receiver: String,
    /// What the receiver gets.
    pub amount: Amount,
    /// What the miner gets.
    pub fee: Amount,
    /// The signature that came with the transaction.
    pub signature: String,
}

/// The mathematical model of a [`Transaction`].
pub struct TransactionView {
    pub sender: Seq<char>,
    pub receiver: Seq<char>,
    pub amount: Seq<char>,
    pub fee: Seq<char>,
    pub signature: Seq<char>,
}

impl View for Transaction {
    type V = TransactionView;

    open spec fn view(&self) -> TransactionView {
        TransactionView {
            sender: self.sender@,
            receiver: self.receiver@,
            amount: self.amount@,
            fee: self.fee@,
            signature: self.signature@,
        }
    }
}

impl TransactionView {
    /// The transaction that pays `fees` to the miner.
    pub open spec fn reward(fees: Seq<char>) -> TransactionView {
        TransactionView {
            sender: "Network"@,
            receiver: MINER_WALLET@,
            amount: fees,
            fee: "0.0"@,
            signature: "Reward"@,
        }
    }

    /// The transaction as Rust prints a struct with `{:?}`.
    pub open spec fn text(self) -> Seq<char> {
        "Transaction { sender: "@ + crate::text::debug_text(self.sender) + ", receiver: "@
            + crate::text::debug_text(self.receiver) + ", amount: "@ + self.amount + ", fee: "@
            + self.fee + ", signature: "@ + crate::text::debug_text(self.signature) + " }"@
    }
}

impl Clone for Transaction {
    fn clone(&self) -> (r: Self)
        ensures
            r == *self,
    {
        Transaction {
            sender: self.sender.clone(),
            receiver: self.receiver.clone(),
            amount: self.amount.clone(),
            fee: self.fee.clone(),
            signature: self.signature.clone(),
        }
    }
}

impl Transaction {
    /// The transaction that pays `fees` to the miner.
    pub fn reward(fees: Amount) -> (r: Self)
        ensures
            r@ == TransactionView::reward(fees@),
            r.sender@ == "Network"@,
            r.receiver@ == "MinerWalletAddress"@,
            r.amount == fees,
            r.fee.text@ == "0.0"@,
            r.signature@ == "Reward"@,
    {
        Transaction {
            sender: "Network".to_owned(),
            receiver: MINER_WALLET.to_owned(),
            amount: fees,
            fee: Amount::zero(),
            signature: "Reward".to_owned(),
        }
    }

    /// Appends the transaction to `out` as Rust prints a struct with `{:?}`.
    pub fn push_text(&self, out: &mut String)
        ensures
            final(out)@ == old(out)@ + self@.text(),
            final(out)@ == old(out)@ + ("Transaction { sender: "@ + crate::text::debug_text(
                self.sender@,
            ) + ", receiver: "@ + crate::text::debug_text(self.receiver@) + ", amount: "@
                + self.amount.text@ + ", fee: "@ + self.fee.text@ + ", signature: "@
                + crate::text::debug_text(self.signature@) + " }"@),
    {
        out.append("Transaction { sender: ");
        out.append(debug_string(self.sender.as_str()).as_str());
        out.append(", receiver: ");
        out.append(debug_string(self.receiver.as_str()).as_str());
        out.append(", amount: ");
        out.append(self.amount.text.as_str());
        out.append(", fee: ");
        out.append(self.fee.text.as_str());
        out.append(", signature: ");
        out.append(debug_string(self.signature.as_str()).as_str());
        out.append(" }");
        assert(out@ =~= old(out)@ + self@.text());
    }
}

/// The models of a list of transactions.
pub open spec fn views(transactions: Seq<Transaction>) -> Seq<TransactionView> {
    transactions.map_values(|t: Transaction| t@)
}

/// The texts of the transactions with `, ` between them.
pub open spec fn joined_text(transactions: Seq<TransactionView>) -> Seq<char>
    decreases transactions.len(),
{
    if transactions.len() == 0 {
        Seq::empty()
    } else if transactions.len() == 1 {
        transactions[0].text()
    } else {
        joined_text(transactions.drop_last()) + ", "@ + transactions.last().text()
    }
}

/// A list of transactions as Rust prints a `Vec` with `{:?}`.
pub open spec fn list_text(transactions: Seq<TransactionView>) -> Seq<char> {
    "["@ + joined_text(transactions) + "]"@
}

/// Appends the transactions to `out` as Rust prints a `Vec` with `{:?}`.
pub fn push_list_text(transactions: &Vec<Transaction>, out: &mut String)
    ensures
        final(out)@ == old(out)@ + list_text(views(transactions@)),
{
    let ghost all = views(transactions@);
    out.append("[");
    let mut i: usize = 0;
    while i < transactions.len()
        invariant
            i <= transactions.len(),
            all == views(transactions@),
            out@ == old(out)@ + "["@ + joined_text(all.take(i as int)),
        decreases transactions.len() - i,
    {
        if i > 0 {
            out.append(", ");
        }
        transactions[i].push_text(out);
        proof {
            let next = all.take(i + 1);
            assert(next.drop_last() =~= all.take(i as int));
            assert(next.last() == transactions@[i as int]@);
            if i == 0 {
                assert(all.take(0) =~= Seq::empty());
            }
            assert(out@ =~= old(out)@ + "["@ + joined_text(next));
        }
        i += 1;
    }
    out.append("]");
    proof {
        assert(all.take(all.len() as int) =~= all);
        assert(out@ =~= old(out)@ + list_text(all));
    }
}

/// A copy of a list of transactions.
pub fn clone_list(transactions: &Vec<Transaction>) -> (r: Vec<Transaction>)
    ensures
        r@ == transactions@,
{
    let mut copy: Vec<Transaction> = Vec::new();
    let mut i: usize = 0;
    while i < transactions.len()
        invariant
            i <= transactions.len(),
            copy@ == transactions@.take(i as int),
        decreases transactions.len() - i,
    {
        copy.push(transactions[i].clone());
        assert(copy@ =~= transactions@.take(i + 1));
        i += 1;
    }
    assert(transactions@.take(transactions.len() as int) =~= transactions@);
    copy
}

} // verus!
