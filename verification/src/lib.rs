//! Core of a command-line study client for a spaced-repetition flashcard
//! collection: deck catalogue, card sides, and the rating-driven review step.

pub mod answer;
pub mod deck_laws;
pub mod decks;
pub mod note;
pub mod notetype;
pub mod text;
pub mod util;
pub mod view_card;
