use vstd::prelude::*;
use crate::proto::SpinResponse;

verus! {

/// A round requested over HTTP.
#[derive(Debug)]
pub struct SpinHttpReq {
    pub token: String,
    pub request_id: String,
    pub bet: i32,
}

/// The HTTP answer to a round.
#[derive(Debug)]
pub struct SpinHttpResp {
    pub request_id: String,
    pub code: i32,
    pub msg: String,
    pub result: Option<String>,
    pub win: Option<i32>,
}

/// The code of a request whose session token is unknown.
pub const INVALID_TOKEN: i32 = 401;

/// The code of a round that the game service did not play.
pub const SPIN_FAILED: i32 = 1001;

/// Reads the game service's answer: the round's result and win, or the
/// message of the status it failed with.
pub fn game_outcome(resp: Result<SpinResponse, String>) -> (r: Result<(String, i32), String>)
    ensures
        match resp {
            Ok(s) => r matches Ok(p) && p.0@ == s.result@ && p.1 == s.win,
            Err(m) => r matches Err(e) && e@ == m@,
        },
{
    match resp {
        Ok(s) => Ok((s.result, s.win)),
        Err(m) => Err(m),
    }
}

/// The answer to round `request_id` whose token matches no player.
pub fn invalid_token_reply(request_id: String) -> (resp: SpinHttpResp)
    ensures
        resp.request_id@ == request_id@,
        resp.code == INVALID_TOKEN,
        resp.msg@ == "invalid token"@,
        resp.result is None,
        resp.win is None,
{
    SpinHttpResp {
        request_id,
        code: INVALID_TOKEN,
        msg: String::from_str("invalid token"),
        result: None,
        win: None,
    }
}

/// The HTTP answer to round `request_id` that the game service answered
/// with `outcome`: code 0 with the result and the win, or code 1001 with the
/// service's message.
pub fn spin_reply(request_id: String, outcome: Result<(String, i32), String>) -> (resp: SpinHttpResp)
    ensures
        resp.request_id@ == request_id@,
        match outcome {
            Ok(p) => resp.code == 0 && resp.msg@ == "ok"@ && (resp.result matches Some(s) && s@
                == p.0@) && resp.win == Some(p.1),
            Err(m) => resp.code == SPIN_FAILED && resp.msg@ == m@ && resp.result is None
                && resp.win is None,
        },
{
    match outcome {
        Ok((result, win)) => SpinHttpResp {
            request_id,
            code: 0,
            msg: String::from_str("ok"),
            result: Some(result),
            win: Some(win),
        },
        Err(msg) => SpinHttpResp { request_id, code: SPIN_FAILED, msg, result: None, win: None },
    }
}

/// A message that a player sends over the socket: the request id, the
/// action, and the `bet` field of its data where that is an integer.
#[derive(Debug)]
pub struct WsRequest {
    pub request_id: String,
    pub action: String,
    pub bet: Option<i64>,
}

/// The data of a played round on the socket.
#[derive(Debug)]
pub struct SpinData {
    pub result: String,
    pub win: i32,
}

/// An answer on the socket.
#[derive(Debug)]
pub struct WsResponse<T> {
    pub request_id: String,
    pub code: i32,
    pub msg: String,
    pub data: Option<T>,
}

/// The bet of a socket message: its integer `bet` field cut to 32 bits, or
/// 0 where there is none.
pub fn ws_bet(req: &WsRequest) -> (bet: i32)
    ensures
        bet == (match req.bet {
            Some(b) => b as i32,
            None => 0i32,
        }),
{
    match req.bet {
        Some(b) => b as i32,
        None => 0,
    }
}

/// The socket answer to round `request_id` that the game service answered
/// with `outcome`: code 0 with the result and win as data, or code 1001
/// with the service's message and no data.
pub fn ws_reply(request_id: String, outcome: Result<(String, i32), String>) -> (resp: WsResponse<SpinData>)
    ensures
        resp.request_id@ == request_id@,
        match outcome {
            Ok(p) => resp.code == 0 && resp.msg@ == "ok"@ && (resp.data matches Some(d) && d.result@
                == p.0@ && d.win == p.1),
            Err(m) => resp.code == SPIN_FAILED && resp.msg@ == m@ && resp.data is None,
        },
{
    match outcome {
        Ok((result, win)) => WsResponse {
            request_id,
            code: 0,
            msg: String::from_str("ok"),
            data: Some(SpinData { result, win }),
        },
        Err(msg) => WsResponse { request_id, code: SPIN_FAILED, msg, data: None },
    }
}

} // verus!
