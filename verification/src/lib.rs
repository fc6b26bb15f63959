//! A small digital pet: its stats, the actions that change them, the mood
//! it shows, and the decisions of its command line and terminal screen.

pub mod clock;
pub mod pet;
pub mod personality;
pub mod text;
pub mod app;
pub mod cli;
