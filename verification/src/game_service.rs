use vstd::prelude::*;
use rand::Rng;
use crate::proto::{BetRequest, BetResponse, SpinRequest, SpinResponse, WinRequest};

verus! {

/// Draws a fair coin from `rand`'s thread-local generator:
/// `rand::thread_rng().gen_ratio(1, 2)`, which samples the same Bernoulli
/// distribution (and consumes the same random word) as `gen_bool(0.5)`.
/// The outcome is chance: nothing is promised of it.
#[verifier::external_body]
fn coin_flip() -> (heads: bool) {
    rand::thread_rng().gen_ratio(1, 2)
}

/// The name of the picture line that every round of the service shows.
pub open spec fn spin_result() -> Seq<char> {
    "777"@
}

/// The win of a round on a bet of `bet`: double the bet when the coin
/// comes up, nothing otherwise.
pub open spec fn spin_win(bet: i32, won: bool) -> int {
    if won {
        2 * bet
    } else {
        0
    }
}

/// A double of the bet fits an `i32`.
pub open spec fn double_fits(bet: i32) -> bool {
    i32::MIN <= 2 * bet <= i32::MAX
}

/// The outcome of a round on a bet of `bet` whose coin came up `won`.
pub fn spin_outcome(bet: i32, won: bool) -> (r: (String, i32))
    requires
        won ==> double_fits(bet),
    ensures
        r.0@ == spin_result(),
        r.1 == spin_win(bet, won),
{
    let win: i32 = if won {
        bet * 2
    } else {
        0
    };
    (String::from_str("777"), win)
}

/// Plays one round on a bet of `bet`: with even chance the round pays double
/// the bet, otherwise nothing.
pub fn spin(bet: i32) -> (r: (String, i32))
    requires
        double_fits(bet),
    ensures
        r.0@ == spin_result(),
        r.1 == 0 || r.1 == 2 * bet,
{
    let won = coin_flip();
    spin_outcome(bet, won)
}

/// What the game service answers a round, once the wallet has answered the
/// stake.
pub enum SpinVerdict {
    /// The wallet refused the stake; its message is passed on.
    Refused(String),
    /// The round was played; a win is to be credited, then the response sent.
    Played { credit: Option<WinRequest>, response: SpinResponse },
}

/// The verdict for round `r` whose stake the wallet answered with
/// `bet_code` and `bet_msg` and (when the stake was taken) whose play came
/// out as `outcome`.
pub open spec fn spec_verdict(
    r: SpinRequest,
    bet_code: i32,
    bet_msg: Seq<char>,
    outcome: (Seq<char>, int),
    v: SpinVerdict,
) -> bool {
    if bet_code != 0 {
        v matches SpinVerdict::Refused(m) && m@ == bet_msg
    } else {
        match v {
            SpinVerdict::Played { credit, response } => {
                &&& response.request_id@ == r.request_id@
                &&& response.result@ == outcome.0
                &&& response.win == outcome.1
                &&& (outcome.1 > 0 <==> credit is Some)
                &&& (credit matches Some(w) ==> {
                    &&& w.user_id@ == r.user_id@
                    &&& w.request_id@ == r.request_id@
                    &&& w.amount == outcome.1
                })
            },
            SpinVerdict::Refused(_) => false,
        }
    }
}

/// The game service, which stakes a player's bet with the wallet, plays the
/// round and credits a win.
pub struct GameSvc;

impl GameSvc {
    /// The stake that round `r` asks the wallet to take.
    pub fn bet_request(&self, r: &SpinRequest) -> (b: BetRequest)
        ensures
            b.user_id@ == r.user_id@,
            b.request_id@ == r.request_id@,
            b.amount == r.bet,
    {
        BetRequest { user_id: r.user_id.clone(), request_id: r.request_id.clone(), amount: r.bet as i64 }
    }

    /// Decides round `r` from the wallet's answer to its stake and from the
    /// play's outcome `(result, win)`: a refused stake refuses the round with
    /// the wallet's message; otherwise the round is answered with the outcome,
    /// and a positive win is to be credited first.
    pub fn settle(&self, r: SpinRequest, bet: &BetResponse, result: String, win: i32) -> (v: SpinVerdict)
        ensures
            spec_verdict(r, bet.code, bet.msg@, (result@, win as int), v),
    {
        if bet.code != 0 {
            return SpinVerdict::Refused(bet.msg.clone());
        }
        let credit = if win > 0 {
            Some(WinRequest { user_id: r.user_id.clone(), request_id: r.request_id.clone(), amount: win as i64 })
        } else {
            None
        };
        SpinVerdict::Played { credit, response: SpinResponse { request_id: r.request_id, result, win } }
    }

    /// Plays round `r` on a coin that came up `won`, once the wallet has
    /// answered its stake: a won coin pays double the bet and credits it, a
    /// lost one pays nothing; a refused stake refuses the round.
    pub fn play_with_coin(&self, r: SpinRequest, bet: &BetResponse, won: bool) -> (v: SpinVerdict)
        requires
            bet.code == 0 && won ==> double_fits(r.bet),
        ensures
            spec_verdict(r, bet.code, bet.msg@, (spin_result(), spin_win(r.bet, won)), v),
            bet.code != 0 ==> (v matches SpinVerdict::Refused(m) && m@ == bet.msg@),
            bet.code == 0 && won ==> (v matches SpinVerdict::Played { credit, response }
                && response.win == 2 * r.bet && (r.bet > 0 ==> (credit matches Some(w) && w.amount
                == 2 * r.bet && w.user_id@ == r.user_id@ && w.request_id@ == r.request_id@))),
            bet.code == 0 && !won ==> (v matches SpinVerdict::Played { credit, response }
                && response.win == 0 && credit is None),
    {
        if bet.code != 0 {
            return SpinVerdict::Refused(bet.msg.clone());
        }
        let (result, win) = spin_outcome(r.bet, won);
        self.settle(r, bet, result, win)
    }

    /// Plays round `r` once the wallet has answered its stake: the round is
    /// played, on a fair coin, only when the stake was taken.
    pub fn play(&self, r: SpinRequest, bet: &BetResponse) -> (v: SpinVerdict)
        requires
            bet.code == 0 ==> double_fits(r.bet),
        ensures
            bet.code != 0 ==> (v matches SpinVerdict::Refused(m) && m@ == bet.msg@),
            bet.code == 0 ==> exists|win: int|
                (win == 0 || win == 2 * r.bet) && #[trigger] spec_verdict(r, bet.code, bet.msg@, (spin_result(), win), v),
            exists|won: bool|
                #[trigger] spec_verdict(r, bet.code, bet.msg@, (spin_result(), spin_win(r.bet, won)), v),
    {
        if bet.code != 0 {
            let v = SpinVerdict::Refused(bet.msg.clone());
            assert(spec_verdict(r, bet.code, bet.msg@, (spin_result(), spin_win(r.bet, false)), v));
            return v;
        }
        let won = coin_flip();
        let ghost rr = r;
        let v = self.play_with_coin(r, bet, won);
        assert(spec_verdict(rr, bet.code, bet.msg@, (spin_result(), spin_win(rr.bet, won)), v));
        v
    }
}

/// The decision of a round in plain terms.  A refused stake (a non-zero
/// code) refuses the round with the wallet's message.  A taken stake plays
/// it: the answer carries the round's request id, result and win, and a
/// credit for the player's id and request id of exactly the win is made
/// when, and only when, the win is positive.
pub proof fn lemma_verdict_rule(
    r: SpinRequest,
    code: i32,
    msg: Seq<char>,
    outcome: (Seq<char>, int),
    v: SpinVerdict,
)
    requires
        spec_verdict(r, code, msg, outcome, v),
    ensures
        code != 0 <==> v is Refused,
        code != 0 ==> (v matches SpinVerdict::Refused(m) && m@ == msg),
        code == 0 ==> (v matches SpinVerdict::Played { credit, response } && response.request_id@
            == r.request_id@ && response.result@ == outcome.0 && response.win == outcome.1
            && (outcome.1 > 0 ==> (credit matches Some(w) && w.amount == outcome.1 && w.user_id@
            == r.user_id@ && w.request_id@ == r.request_id@)) && (outcome.1 <= 0 ==> credit is None)),
{
}

/// A stake that the wallet refused for want of balance reaches the player
/// as a refused round carrying the wallet's message, whatever the play
/// would have shown.
pub proof fn lemma_refused_stake_refuses_round(
    r: SpinRequest,
    refusal: String,
    bet: BetResponse,
    outcome: (Seq<char>, int),
    v: SpinVerdict,
)
    requires
        refusal@ == crate::wallet::insufficient_msg(),
        crate::wallet::answers(
            r.request_id@,
            Err(refusal),
            crate::wallet::BET_FAILED,
            bet.request_id@,
            bet.balance,
            bet.code,
            bet.msg@,
        ),
        spec_verdict(r, bet.code, bet.msg@, outcome, v),
    ensures
        v matches SpinVerdict::Refused(m) && m@ == crate::wallet::insufficient_msg(),
{
}

/// A round whose stake was taken pays a credit exactly when it won, and
/// the credit is the win that the player is answered.
pub proof fn lemma_credit_matches_answer(
    r: SpinRequest,
    bet: BetResponse,
    outcome: (Seq<char>, int),
    v: SpinVerdict,
)
    requires
        bet.code == 0,
        spec_verdict(r, bet.code, bet.msg@, outcome, v),
    ensures
        v matches SpinVerdict::Played { credit, response } && (credit matches Some(w) ==> w.amount
            == response.win && response.win > 0) && (credit is None ==> response.win <= 0),
{
}

/// A won coin pays double the bet and a lost one nothing, and the shown
/// line is always `777`.
pub proof fn lemma_coin_pays(bet: i32)
    ensures
        spin_win(bet, true) == 2 * bet,
        spin_win(bet, false) == 0,
        spin_result() == "777"@,
{
}

} // verus!
