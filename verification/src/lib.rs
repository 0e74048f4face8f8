//! The rules of the bottle bidding game and of the server that hosts it.
//!
//! Two players bid money against each other; whoever wins a round pays the bid
//! and pulls the bottle one step to their own end of the table. This library
//! holds every decision that the server takes: the rounds of a game, the
//! collection of a bid, the pool of players and how they are matched, the login
//! dialogue, the framing of messages and the rating of players. Each of them is
//! a value that says which action is due and moves on when it is told what came
//! of it; the program around the library performs the actions.
pub mod bidding;
pub mod connection;
pub mod database_ops;
pub mod elo;
pub mod elo_range;
pub mod elo_rounding;
pub mod error;
pub mod framing;
pub mod game;
pub mod game_master;
pub mod manager_start;
pub mod player_management;
pub mod player_manager;
pub mod player_table;
pub mod proto_utils;
pub mod types;

pub use error::BidError;
pub use types::{Event, GMPlayer, GameResult, GameResultType, GameStatus, Player, StreamId};
