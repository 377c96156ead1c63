//! Rock-Paper-Scissors against an opponent that chooses at random: the rules
//! of the game, the recognition of what a player types, and the course of a
//! session. Every function states what it returns, and Verus proves that it
//! does; the two calls into other crates, for pattern matching and for
//! chance, are the only statements taken on trust.

pub mod chance;
pub mod choice;
pub mod grammar;
pub mod input;
pub mod name;
pub mod replay;
pub mod session;
pub mod text;
