//! Interaction logic for a two-player chess board shown on one screen.
//!
//! The crate owns no window and no rules engine. It maps pointer pixels to
//! squares, sequences clicks into selections and move requests, latches the
//! outcome of a game, and lays out what a frame has to show. The caller
//! carries each request to its rules engine and hands the answer back.
//!
//! One pass of the caller's loop runs like this: on a press of the pointer
//! button, [`controller::Controller::on_click`], and where it asks for a move,
//! the engine's answer to [`controller::Controller::record_move_result`]; then
//! the engine's checkmate flags to [`controller::Controller::observe_mate`];
//! then [`controller::Controller::frame`], the drawing of that frame, and last
//! the reset of the engine where the frame asks for one.

pub mod geometry;
pub mod pieces;
pub mod controller;
pub mod frame;
