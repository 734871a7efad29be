use vstd::prelude::*;
use crate::wallet::{balance_key, spec_balance_key, spec_token_key, token_key};

verus! {

/// A login request.
#[derive(Debug)]
pub struct LoginReq {
    pub user_id: String,
}

/// The answer to a login: the session token.
#[derive(Debug)]
pub struct LoginResp {
    pub token: String,
}

/// The claims that a session token is signed over: the player, and the
/// time (seconds since the epoch) at which the token expires.
#[derive(Debug)]
pub struct Claims {
    pub sub: String,
    pub exp: usize,
}

/// The expiry written into every token.
pub const TOKEN_EXPIRY: usize = 2000000000;

/// How long a session lasts in storage, in seconds.
pub const SESSION_TTL_SECS: u64 = 3600;

/// The balance a player starts with at the first login.
pub const INITIAL_BALANCE: i64 = 10000;

/// The claims of a token for player `uid`.
pub fn token_claims(uid: &str) -> (c: Claims)
    ensures
        c.sub@ == uid@,
        c.exp == TOKEN_EXPIRY,
{
    Claims { sub: String::from_str(uid), exp: TOKEN_EXPIRY }
}

/// What a login writes to storage and answers.
#[derive(Debug)]
pub struct LoginPlan {
    /// Under this key, the player that the session belongs to ...
    pub session_key: String,
    /// ... is stored, for this many seconds.
    pub session_user: String,
    pub session_ttl_secs: u64,
    /// Under this key the initial balance is stored, unless a balance is
    /// there already.
    pub balance_key: String,
    pub initial_balance: i64,
    /// The answer to the client.
    pub response: LoginResp,
}

/// The plan of the login of `req` once its token `token` has been signed:
/// the session `token:<token>` maps to the player for an hour, the balance
/// `bal:<player>` starts at 10000 where it does not exist, and the token is
/// answered.
pub fn login_plan(req: &LoginReq, token: String) -> (p: LoginPlan)
    ensures
        p.session_key@ == spec_token_key(token@),
        p.session_user@ == req.user_id@,
        p.session_ttl_secs == SESSION_TTL_SECS,
        p.balance_key@ == spec_balance_key(req.user_id@),
        p.initial_balance == INITIAL_BALANCE,
        p.response.token@ == token@,
{
    let session_key = token_key(token.as_str());
    let balance_key = balance_key(req.user_id.as_str());
    LoginPlan {
        session_key,
        session_user: req.user_id.clone(),
        session_ttl_secs: SESSION_TTL_SECS,
        balance_key,
        initial_balance: INITIAL_BALANCE,
        response: LoginResp { token },
    }
}

} // verus!
