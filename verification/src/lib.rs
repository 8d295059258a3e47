//! A trainer for blackjack basic strategy.
//!
//! The library deals two-card hands against a dealer up-card, classifies
//! them, looks the textbook decision up in a strategy table, draws the cards
//! as text and judges a player's answer. Reading the answer and printing are
//! left to the program that drives it.

pub mod answer;
pub mod cards;
pub mod decision;
pub mod loader;
mod random;
pub mod render;
pub mod session;
pub mod strategy;
pub mod table;
pub mod text;
