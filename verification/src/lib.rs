//! Simulation of the setup and turn progression of a card-drafting
//! board game: a table seats 2 to 6 players with pairwise-distinct
//! bears, builds and shuffles the quest and resource decks, selects an
//! initial player, deals every player five resource cards and three
//! quest tiles, and then advances a finite state machine
//! (`Uninitialized` to `PlayerReady` to `Done`) until a winner is
//! declared. Each stepping operation carries a contract that pins the
//! deck sizes, the dealt counts, and the conservation of every card in
//! play.

pub mod deck;
pub mod models;
mod rng;
pub mod system;
