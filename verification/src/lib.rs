//! Board geometry and interface decisions of the Chessian desktop front end.
//!
//! The library holds everything the front end decides: where each square is
//! drawn, which square lies under the mouse, what a click, a key press or an
//! engine report does to the interface state, and which commands the host loop
//! has to carry out against the game and the background evaluation.
pub mod square;
pub mod pieces;
pub mod geometry;
pub mod gui;
pub mod render;
pub mod laws;
pub mod event_laws;
pub mod geometry_laws;
