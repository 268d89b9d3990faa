//! Sessions of a social deduction card game for five to ten players: hidden
//! roles, elections, legislation with a policy deck, presidential powers,
//! and what each player may see of it all.
//!
//! A [`game_state::GameState`] is one session. Contracts speak of its view, a
//! [`model::GameModel`]; the rules are spec functions on that model, the
//! operations are proved to follow them and to keep the model well formed,
//! and `laws` states what holds of every game.

pub mod cards;
pub mod chat;
pub mod election;
pub mod error;
pub mod game_state;
pub mod laws;
pub mod legislation;
pub mod lobby;
pub mod model;
pub mod phase;
pub mod powers;
pub mod projection;
pub mod protocol;
pub mod roles;
pub mod roster;
pub mod rules;
pub mod seating;
pub mod wellformed;
