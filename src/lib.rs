//! A chess rules engine: board model, attack detection, move generation,
//! move application with rollback, and FEN / algebraic notation.

pub mod color;
pub mod piece_type;
pub mod move_type;
pub mod move_error;
pub mod piece;
pub mod square;
pub mod chess_move;
pub mod rules;
pub mod board;
pub mod notation;
pub mod algebraic;
pub mod movegen;
pub mod fen;
pub mod evaluation;
pub mod perft;
pub mod game;
pub mod laws;
pub mod round_trip;
pub mod uci;
pub mod uci_engine;
