//! Builds vocabulary flashcards: a word, an example sentence, a translation
//! and the word's reading, rendered as one `front;back` record per card.

pub mod kana;
pub mod reading;
pub mod card;
pub mod batch;
