use slots::auth::{login_plan, token_claims, LoginReq, INITIAL_BALANCE, SESSION_TTL_SECS, TOKEN_EXPIRY};
use slots::game::GameStatus;
use slots::game_service::{spin, spin_outcome, GameSvc, SpinVerdict};
use slots::gateway::{
    game_outcome, invalid_token_reply, spin_reply, ws_bet, ws_reply, WsRequest, INVALID_TOKEN, SPIN_FAILED,
};
use slots::ledger::{ledger_row, tx_message, TxMessage};
use slots::proto::{BetResponse, SpinRequest, SpinResponse};
use slots::wallet::{
    balance_key, settle_add, settle_deduct, token_key, TxKind, WalletSvc, BET_FAILED, WIN_FAILED,
};

fn round(bet: i32) -> SpinRequest {
    SpinRequest { request_id: "r-1".to_string(), user_id: "alice".to_string(), bet }
}

fn stake_answer(code: i32, msg: &str) -> BetResponse {
    BetResponse { request_id: "r-1".to_string(), balance: 90, code, msg: msg.to_string() }
}

#[test]
fn keys_follow_the_storage_schema() {
    assert_eq!(balance_key("alice"), "bal:alice");
    assert_eq!(token_key("abc.def"), "token:abc.def");
    assert_eq!(balance_key(""), "bal:");
}

#[test]
fn is_spinning_except_at_rest() {
    assert!(!GameStatus::Idle.is_spinning());
    assert!(GameStatus::Spinning.is_spinning());
    assert!(GameStatus::Stopping.is_spinning());
}

#[test]
fn spin_outcome_doubles_a_win() {
    let (result, win) = spin_outcome(25, true);
    assert_eq!(result, "777");
    assert_eq!(win, 50);
    assert_eq!(spin_outcome(25, false), ("777".to_string(), 0));
    assert_eq!(spin_outcome(-4, true).1, -8);
}

#[test]
fn spin_pays_nothing_or_double() {
    let mut seen_win = false;
    let mut seen_loss = false;
    for _ in 0..200 {
        let (result, win) = spin(7);
        assert_eq!(result, "777");
        assert!(win == 0 || win == 14);
        seen_win |= win == 14;
        seen_loss |= win == 0;
    }
    assert!(seen_win && seen_loss);
}

#[test]
fn bet_request_carries_the_round() {
    let b = GameSvc.bet_request(&round(30));
    assert_eq!(b.user_id, "alice");
    assert_eq!(b.request_id, "r-1");
    assert_eq!(b.amount, 30);
}

#[test]
fn settle_refuses_a_refused_stake() {
    match GameSvc.settle(round(30), &stake_answer(1001, "insufficient balance"), "777".to_string(), 60) {
        SpinVerdict::Refused(m) => assert_eq!(m, "insufficient balance"),
        _ => panic!("a refused stake must refuse the round"),
    }
}

#[test]
fn settle_credits_a_win() {
    match GameSvc.settle(round(30), &stake_answer(0, "ok"), "777".to_string(), 60) {
        SpinVerdict::Played { credit, response } => {
            let credit = credit.expect("a win is credited");
            assert_eq!(credit.user_id, "alice");
            assert_eq!(credit.request_id, "r-1");
            assert_eq!(credit.amount, 60);
            assert_eq!(response.request_id, "r-1");
            assert_eq!(response.result, "777");
            assert_eq!(response.win, 60);
        }
        _ => panic!("a taken stake plays the round"),
    }
}

#[test]
fn settle_credits_nothing_on_a_loss() {
    match GameSvc.settle(round(30), &stake_answer(0, "ok"), "777".to_string(), 0) {
        SpinVerdict::Played { credit, response } => {
            assert!(credit.is_none());
            assert_eq!(response.win, 0);
        }
        _ => panic!("a taken stake plays the round"),
    }
}

#[test]
fn play_refuses_without_playing() {
    match GameSvc.play(round(i32::MAX), &stake_answer(1001, "no")) {
        SpinVerdict::Refused(m) => assert_eq!(m, "no"),
        _ => panic!("a refused stake must refuse the round"),
    }
}

#[test]
fn play_answers_nothing_or_double() {
    for _ in 0..50 {
        match GameSvc.play(round(5), &stake_answer(0, "ok")) {
            SpinVerdict::Played { credit, response } => {
                assert!(response.win == 0 || response.win == 10);
                assert_eq!(credit.is_some(), response.win == 10);
            }
            _ => panic!("a taken stake plays the round"),
        }
    }
}

#[test]
fn settle_deduct_refuses_a_negative_answer() {
    assert_eq!(settle_deduct("alice", 50, "r-1", -1).unwrap_err(), "insufficient balance");
}

#[test]
fn settle_deduct_records_the_new_balance() {
    let tx = settle_deduct("alice", 50, "r-1", 9950).unwrap();
    assert_eq!(tx.kind, TxKind::Bet);
    assert_eq!(tx.user_id, "alice");
    assert_eq!(tx.request_id, "r-1");
    assert_eq!(tx.amount, 50);
    assert_eq!(tx.balance, 9950);
    assert!(settle_deduct("bob", 10, "r-2", 0).is_ok());
}

#[test]
fn settle_add_records_a_win() {
    let tx = settle_add("alice", 100, "r-9", 10100);
    assert_eq!(tx.kind, TxKind::Win);
    assert_eq!(tx.kind.as_str(), "win");
    assert_eq!(TxKind::Bet.as_str(), "bet");
    assert_eq!(tx.balance, 10100);
    assert_eq!(tx.amount, 100);
}

#[test]
fn wallet_replies_carry_codes() {
    let svc = WalletSvc::default();
    let ok = svc.bet_reply("r-1".to_string(), Ok(70));
    assert_eq!((ok.request_id.as_str(), ok.balance, ok.code, ok.msg.as_str()), ("r-1", 70, 0, "ok"));
    let bad = svc.bet_reply("r-1".to_string(), Err("insufficient balance".to_string()));
    assert_eq!(
        (bad.balance, bad.code, bad.msg.as_str()),
        (0, BET_FAILED, "insufficient balance")
    );
    assert_eq!(BET_FAILED, 1001);
    let win_bad = svc.win_reply("r-2".to_string(), Err("XADD error".to_string()));
    assert_eq!((win_bad.balance, win_bad.code, win_bad.msg.as_str()), (0, WIN_FAILED, "XADD error"));
    assert_eq!(WIN_FAILED, 1002);
    let win_ok = svc.win_reply("r-2".to_string(), Ok(120));
    assert_eq!((win_ok.balance, win_ok.code), (120, 0));
}

#[test]
fn game_outcome_reads_the_answer() {
    let ok = game_outcome(Ok(SpinResponse { request_id: "r".into(), result: "777".into(), win: 4 }));
    assert_eq!(ok, Ok(("777".to_string(), 4)));
    assert_eq!(game_outcome(Err("down".into())), Err("down".to_string()));
}

#[test]
fn http_replies() {
    let bad = invalid_token_reply("r-3".to_string());
    assert_eq!((bad.code, bad.msg.as_str()), (401, "invalid token"));
    assert_eq!(INVALID_TOKEN, 401);
    assert!(bad.result.is_none() && bad.win.is_none());
    let ok = spin_reply("r-3".to_string(), Ok(("777".to_string(), 20)));
    assert_eq!((ok.code, ok.msg.as_str(), ok.result.as_deref(), ok.win), (0, "ok", Some("777"), Some(20)));
    let err = spin_reply("r-3".to_string(), Err("wallet bet failed".to_string()));
    assert_eq!((err.code, err.msg.as_str()), (SPIN_FAILED, "wallet bet failed"));
    assert!(err.result.is_none() && err.win.is_none());
    assert_eq!(err.request_id, "r-3");
}

#[test]
fn ws_bet_defaults_and_truncates() {
    let req = |bet| WsRequest { request_id: "w".into(), action: "spin".into(), bet };
    assert_eq!(ws_bet(&req(Some(15))), 15);
    assert_eq!(ws_bet(&req(None)), 0);
    assert_eq!(ws_bet(&req(Some(4_294_967_301))), 5);
    assert_eq!(ws_bet(&req(Some(-3))), -3);
}

#[test]
fn ws_replies() {
    let ok = ws_reply("w".to_string(), Ok(("777".to_string(), 8)));
    assert_eq!((ok.code, ok.msg.as_str()), (0, "ok"));
    let data = ok.data.expect("played rounds carry data");
    assert_eq!((data.result.as_str(), data.win), ("777", 8));
    let err = ws_reply("w".to_string(), Err("x".to_string()));
    assert_eq!((err.code, err.msg.as_str()), (1001, "x"));
    assert!(err.data.is_none());
}

#[test]
fn login_plans_session_and_balance() {
    let claims = token_claims("alice");
    assert_eq!(claims.sub, "alice");
    assert_eq!(claims.exp, 2_000_000_000);
    assert_eq!(TOKEN_EXPIRY, 2_000_000_000);
    let plan = login_plan(&LoginReq { user_id: "alice".to_string() }, "tok".to_string());
    assert_eq!(plan.session_key, "token:tok");
    assert_eq!(plan.session_user, "alice");
    assert_eq!(plan.session_ttl_secs, 3600);
    assert_eq!(SESSION_TTL_SECS, 3600);
    assert_eq!(plan.balance_key, "bal:alice");
    assert_eq!(plan.initial_balance, 10000);
    assert_eq!(INITIAL_BALANCE, 10000);
    assert_eq!(plan.response.token, "tok");
}

#[test]
fn ledger_defaults_missing_fields() {
    let row = ledger_row(TxMessage { request_id: None, user_id: None, kind: None, amount: None, balance: None });
    assert_eq!((row.request_id.as_str(), row.user_id.as_str(), row.kind.as_str()), ("", "", ""));
    assert_eq!((row.amount, row.balance), (0, 0));
}

#[test]
fn ledger_records_what_the_wallet_published() {
    let tx = settle_deduct("alice", 50, "r-1", 9950).unwrap();
    let row = ledger_row(tx_message(&tx));
    assert_eq!(row.request_id, "r-1");
    assert_eq!(row.user_id, "alice");
    assert_eq!(row.kind, "bet");
    assert_eq!((row.amount, row.balance), (50, 9950));
}
