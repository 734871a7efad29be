//! Verified core of a small slot-machine game and its wallet back end.
//!
//! The client side (`symbol`, `reel`, `game`) holds the rules of the
//! three-reel machine: which picture a reel shows on a row, when a spin may
//! start, how the status moves from idle to spinning to stopping and back,
//! and what the centre line pays.  The server side (`wallet`, `game_service`,
//! `gateway`, `auth`, `ledger`, `proto`) holds the decisions that the
//! services make between their calls to storage and to each other.
pub mod symbol;
pub mod reel;
pub mod game;
pub mod proto;
pub mod game_service;
pub mod wallet;
pub mod gateway;
pub mod auth;
pub mod ledger;

