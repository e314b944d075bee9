//! Extraction of the game's assets: decryption of text assets, the layout
//! of sprite-sheet puzzles, and the extractor's options.

pub mod args;
pub mod puzzle;
pub mod text;
