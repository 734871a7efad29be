use vstd::prelude::*;

verus! {

/// A player's request to the game service to play one round.
#[derive(Debug)]
pub struct SpinRequest {
    pub request_id: String,
    pub user_id: String,
    pub bet: i32,
}

/// The game service's answer to a round it played.
#[derive(Debug)]
pub struct SpinResponse {
    pub request_id: String,
    pub result: String,
    pub win: i32,
}

/// The game service's request to the wallet to take a stake.
#[derive(Debug)]
pub struct BetRequest {
    pub user_id: String,
    pub request_id: String,
    pub amount: i64,
}

/// The wallet's answer to a stake: code 0 with the new balance, or an error
/// code with a message.
#[derive(Debug)]
pub struct BetResponse {
    pub request_id: String,
    pub balance: i64,
    pub code: i32,
    pub msg: String,
}

/// The game service's request to the wallet to pay out a win.
#[derive(Debug)]
pub struct WinRequest {
    pub user_id: String,
    pub request_id: String,
    pub amount: i64,
}

/// The wallet's answer to a pay-out.
#[derive(Debug)]
pub struct WinResponse {
    pub request_id: String,
    pub balance: i64,
    pub code: i32,
    pub msg: String,
}

} // verus!
