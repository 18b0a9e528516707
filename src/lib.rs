//! Conway's Game of Life on a bounded grid, with a pausable playback scheduler.
pub mod board;
pub mod grid;
pub mod grid_evolver;
pub mod index_grid;
pub mod game;
pub mod pointer;
pub mod game_loop;
pub mod game_manager;
