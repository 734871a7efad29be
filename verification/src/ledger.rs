use vstd::prelude::*;
use crate::wallet::{TxKind, WalletTx};

verus! {

/// A balance movement as it is read back from the wallet's stream: each
/// field is present where the message holds it with the right type.
#[derive(Debug)]
pub struct TxMessage {
    pub request_id: Option<String>,
    pub user_id: Option<String>,
    pub kind: Option<String>,
    pub amount: Option<i64>,
    pub balance: Option<i64>,
}

/// A row of the movement table, with the balance it leaves.
#[derive(Debug)]
pub struct LedgerRow {
    pub request_id: String,
    pub user_id: String,
    pub kind: String,
    pub amount: i64,
    pub balance: i64,
}

/// The text of an optional text field, empty where it is missing.
pub open spec fn text_or_empty(s: Option<String>) -> Seq<char> {
    match s {
        Some(t) => t@,
        None => Seq::empty(),
    }
}

/// The number of an optional number field, 0 where it is missing.
pub open spec fn number_or_zero(n: Option<i64>) -> i64 {
    match n {
        Some(v) => v,
        None => 0,
    }
}

fn text_field(s: Option<String>) -> (t: String)
    ensures
        t@ == text_or_empty(s),
{
    match s {
        Some(t) => t,
        None => String::new(),
    }
}

/// The row that a read-back movement is recorded as: missing texts are
/// recorded empty and missing numbers as 0.
pub fn ledger_row(msg: TxMessage) -> (row: LedgerRow)
    ensures
        row.request_id@ == text_or_empty(msg.request_id),
        row.user_id@ == text_or_empty(msg.user_id),
        row.kind@ == text_or_empty(msg.kind),
        row.amount == number_or_zero(msg.amount),
        row.balance == number_or_zero(msg.balance),
{
    LedgerRow {
        request_id: text_field(msg.request_id),
        user_id: text_field(msg.user_id),
        kind: text_field(msg.kind),
        amount: match msg.amount {
            Some(a) => a,
            None => 0,
        },
        balance: match msg.balance {
            Some(b) => b,
            None => 0,
        },
    }
}

/// The message that the wallet publishes for movement `tx`: every field
/// present, the kind by its name.
pub fn tx_message(tx: &WalletTx) -> (m: TxMessage)
    ensures
        m.request_id matches Some(r) && r@ == tx.request_id@,
        m.user_id matches Some(u) && u@ == tx.user_id@,
        m.kind matches Some(k) && k@ == tx.kind.name(),
        m.amount == Some(tx.amount),
        m.balance == Some(tx.balance),
{
    TxMessage {
        request_id: Some(tx.request_id.clone()),
        user_id: Some(tx.user_id.clone()),
        kind: Some(String::from_str(tx.kind.as_str())),
        amount: Some(tx.amount),
        balance: Some(tx.balance),
    }
}

/// What the stream consumer records of a published movement is the movement
/// itself: the same request, player, kind, amount and balance.
pub proof fn lemma_ledger_records_published(tx: WalletTx, m: TxMessage)
    requires
        m.request_id matches Some(r) && r@ == tx.request_id@,
        m.user_id matches Some(u) && u@ == tx.user_id@,
        m.kind matches Some(k) && k@ == tx.kind.name(),
        m.amount == Some(tx.amount),
        m.balance == Some(tx.balance),
    ensures
        text_or_empty(m.request_id) == tx.request_id@,
        text_or_empty(m.user_id) == tx.user_id@,
        text_or_empty(m.kind) == tx.kind.name(),
        number_or_zero(m.amount) == tx.amount,
        number_or_zero(m.balance) == tx.balance,
{
}

/// A missing text field is recorded empty and a present one as it is; a
/// missing number is recorded as 0 and a present one as it is.
pub proof fn lemma_field_defaults(t: String, n: i64)
    ensures
        text_or_empty(None) == Seq::<char>::empty(),
        text_or_empty(Some(t)) == t@,
        number_or_zero(None) == 0,
        number_or_zero(Some(n)) == n,
{
}

/// The two kinds of movement are published under different names.
pub proof fn lemma_kind_names_distinct()
    ensures
        TxKind::Bet.name() != TxKind::Win.name(),
{
    reveal_strlit("bet");
    reveal_strlit("win");
    assert("bet"@[0] != "win"@[0]);
}

} // verus!
