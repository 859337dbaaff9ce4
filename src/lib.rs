//! A two-pane ticket board: a selection store holding records and a cyclic
//! cursor, and the key dispatch of the loop that draws and reads input.

pub mod selection;
pub mod run_loop;
pub mod screen;
