use vstd::prelude::*;
use crate::proto::{BetResponse, WinResponse};

verus! {

/// The storage key under which a player's balance is kept.
pub open spec fn spec_balance_key(user_id: Seq<char>) -> Seq<char> {
    "bal:"@ + user_id
}

/// The storage key under which the player that a session token belongs to
/// is kept.
pub open spec fn spec_token_key(token: Seq<char>) -> Seq<char> {
    "token:"@ + token
}

/// The key of `user_id`'s balance: `bal:` followed by the id.
pub fn balance_key(user_id: &str) -> (k: String)
    ensures
        k@ == spec_balance_key(user_id@),
{
    let mut k = String::from_str("bal:");
    k.append(user_id);
    k
}

/// The key of session `token`: `token:` followed by the token.
pub fn token_key(token: &str) -> (k: String)
    ensures
        k@ == spec_token_key(token@),
{
    let mut k = String::from_str("token:");
    k.append(token);
    k
}

/// The kind of a balance movement.
#[derive(Debug, Clone, Copy, PartialEq, Eq, Structural)]
pub enum TxKind {
    /// A stake taken from the balance.
    Bet,
    /// A win paid into the balance.
    Win,
}

impl TxKind {
    pub open spec fn name(self) -> Seq<char> {
        match self {
            TxKind::Bet => "bet"@,
            TxKind::Win => "win"@,
        }
    }

    /// The name under which the movement is published.
    pub fn as_str(&self) -> (s: &'static str)
        ensures
            s@ == self.name(),
    {
        match self {
            TxKind::Bet => "bet",
            TxKind::Win => "win",
        }
    }
}

/// A balance movement as the wallet publishes it on its stream.
#[derive(Debug)]
pub struct WalletTx {
    pub kind: TxKind,
    pub user_id: String,
    pub request_id: String,
    pub amount: i64,
    pub balance: i64,
}

/// `tx` records a movement of `kind` of `amount` for `user_id`, made by
/// request `request_id`, after which the balance is `balance`.
pub open spec fn records(
    tx: WalletTx,
    kind: TxKind,
    user_id: Seq<char>,
    request_id: Seq<char>,
    amount: i64,
    balance: i64,
) -> bool {
    &&& tx.kind == kind
    &&& tx.user_id@ == user_id
    &&& tx.request_id@ == request_id
    &&& tx.amount == amount
    &&& tx.balance == balance
}

/// The message of a stake that the balance does not cover.
pub open spec fn insufficient_msg() -> Seq<char> {
    "insufficient balance"@
}

/// Judges a stake of `amount` for `user_id` once the storage has run the
/// stake script, which answers a negative number when the balance did not
/// cover the stake and the new balance otherwise: a negative answer refuses
/// the stake; any other is the new balance, and the movement is to be
/// published.
pub fn settle_deduct(user_id: &str, amount: i64, request_id: &str, new_bal: i64) -> (r: Result<WalletTx, String>)
    ensures
        new_bal < 0 ==> (r matches Err(m) && m@ == insufficient_msg()),
        new_bal >= 0 ==> (r matches Ok(tx) && records(tx, TxKind::Bet, user_id@, request_id@, amount, new_bal)),
        new_bal >= 0 ==> (r matches Ok(tx) && tx.kind == TxKind::Bet && tx.user_id@ == user_id@
            && tx.request_id@ == request_id@ && tx.amount == amount && tx.balance == new_bal),
{
    if new_bal < 0 {
        return Err(String::from_str("insufficient balance"));
    }
    Ok(WalletTx {
        kind: TxKind::Bet,
        user_id: String::from_str(user_id),
        request_id: String::from_str(request_id),
        amount,
        balance: new_bal,
    })
}

/// The movement to publish once the storage has paid `amount` into
/// `user_id`'s balance, which is then `new_bal`.
pub fn settle_add(user_id: &str, amount: i64, request_id: &str, new_bal: i64) -> (tx: WalletTx)
    ensures
        records(tx, TxKind::Win, user_id@, request_id@, amount, new_bal),
        tx.kind == TxKind::Win,
        tx.user_id@ == user_id@,
        tx.request_id@ == request_id@,
        tx.amount == amount,
        tx.balance == new_bal,
{
    WalletTx {
        kind: TxKind::Win,
        user_id: String::from_str(user_id),
        request_id: String::from_str(request_id),
        amount,
        balance: new_bal,
    }
}

/// The code of a refused stake.
pub const BET_FAILED: i32 = 1001;

/// The code of a failed pay-out.
pub const WIN_FAILED: i32 = 1002;

/// The wallet service's answer: code 0, message `ok` and the new balance
/// when the operation succeeded; the error code, balance 0 and the error's
/// message when it failed.
pub open spec fn answers(
    request_id: Seq<char>,
    outcome: Result<i64, String>,
    fail_code: i32,
    rid: Seq<char>,
    balance: i64,
    code: i32,
    msg: Seq<char>,
) -> bool {
    &&& rid == request_id
    &&& match outcome {
        Ok(b) => balance == b && code == 0 && msg == "ok"@,
        Err(e) => balance == 0 && code == fail_code && msg == e@,
    }
}

/// The wallet service.
pub struct WalletSvc;

impl Default for WalletSvc {
    fn default() -> (s: WalletSvc)
        ensures
            s == WalletSvc,
    {
        WalletSvc
    }
}

impl WalletSvc {
    /// The answer to stake request `request_id` whose deduction came out as
    /// `outcome`.
    pub fn bet_reply(&self, request_id: String, outcome: Result<i64, String>) -> (resp: BetResponse)
        ensures
            answers(request_id@, outcome, BET_FAILED, resp.request_id@, resp.balance, resp.code, resp.msg@),
    {
        match outcome {
            Ok(new_balance) => BetResponse {
                request_id,
                balance: new_balance,
                code: 0,
                msg: String::from_str("ok"),
            },
            Err(e) => BetResponse { request_id, balance: 0, code: BET_FAILED, msg: e },
        }
    }

    /// The answer to pay-out request `request_id` whose credit came out as
    /// `outcome`.
    pub fn win_reply(&self, request_id: String, outcome: Result<i64, String>) -> (resp: WinResponse)
        ensures
            answers(request_id@, outcome, WIN_FAILED, resp.request_id@, resp.balance, resp.code, resp.msg@),
    {
        match outcome {
            Ok(new_balance) => WinResponse {
                request_id,
                balance: new_balance,
                code: 0,
                msg: String::from_str("ok"),
            },
            Err(e) => WinResponse { request_id, balance: 0, code: WIN_FAILED, msg: e },
        }
    }
}

/// A recorded movement carries the player, the request, the amount and the
/// balance it was made with, whatever its kind: a stake and a win are booked
/// the same way.
pub proof fn lemma_records_fields(
    tx: WalletTx,
    kind: TxKind,
    user_id: Seq<char>,
    request_id: Seq<char>,
    amount: i64,
    balance: i64,
)
    ensures
        records(tx, kind, user_id, request_id, amount, balance) <==> (tx.kind == kind
            && tx.user_id@ == user_id && tx.request_id@ == request_id && tx.amount == amount
            && tx.balance == balance),
{
}

/// The wallet's answer in plain terms: a success answers code 0, `ok` and
/// the new balance; a failure answers the failure code, balance 0 and the
/// failure's message; the request id is always echoed.
pub proof fn lemma_answer_rule(
    request_id: Seq<char>,
    outcome: Result<i64, String>,
    fail_code: i32,
    rid: Seq<char>,
    balance: i64,
    code: i32,
    msg: Seq<char>,
)
    requires
        answers(request_id, outcome, fail_code, rid, balance, code, msg),
    ensures
        rid == request_id,
        outcome is Ok ==> code == 0 && msg == "ok"@ && balance == outcome->Ok_0,
        outcome is Err ==> code == fail_code && balance == 0 && msg == outcome->Err_0@,
{
}

/// No session key is ever a balance key: the two kinds of keys live apart.
pub proof fn lemma_key_spaces_disjoint(user_id: Seq<char>, token: Seq<char>)
    ensures
        spec_balance_key(user_id) != spec_token_key(token),
{
    reveal_strlit("bal:");
    reveal_strlit("token:");
    assert(spec_balance_key(user_id)[0] == 'b');
    assert(spec_token_key(token)[0] == 't');
}

/// Distinct players have distinct balance keys, and distinct tokens distinct
/// session keys.
pub proof fn lemma_keys_injective(a: Seq<char>, b: Seq<char>)
    ensures
        spec_balance_key(a) == spec_balance_key(b) ==> a == b,
        spec_token_key(a) == spec_token_key(b) ==> a == b,
{
    reveal_strlit("bal:");
    reveal_strlit("token:");
    if spec_balance_key(a) == spec_balance_key(b) {
        assert(a =~= spec_balance_key(a).skip(4));
        assert(b =~= spec_balance_key(b).skip(4));
    }
    if spec_token_key(a) == spec_token_key(b) {
        assert(a =~= spec_token_key(a).skip(6));
        assert(b =~= spec_token_key(b).skip(6));
    }
}

} // verus!
