//! Ranking of a shell command history and the state machines of the terminal
//! dialogue in which the ranked list is reviewed before it is saved.
//!
//! The library holds no terminal and opens no file. It folds lines into a
//! ranked list, decides what each key press does to a review, and says what a
//! frame shows; a program around it reads, draws and writes.

pub mod exclude;
pub mod history;
pub mod text;

pub mod terminal;
