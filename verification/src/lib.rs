//! A clip playback engine, verified.
//!
//! The heart of the crate is the transport of a clip and the chain of
//! suppliers behind it. For every block that the real-time thread asks
//! for, they work out which frames of the source the block plays, how far
//! the play position moves, and which state the clip is in afterwards:
//!
//! - [`units`] holds the integer arithmetic on frames, time and tempo;
//! - [`supplier`] holds the suppliers: material, section, looper and
//!   stretcher, and the chain that they form;
//! - [`clip_source`] holds the state machine of the transport, the block
//!   by block processing, and what is proved of both;
//! - [`slot`] holds the slot that takes the commands of the control side;
//! - [`midi`] holds the messages that silence a clip.
//!
//! Around it stand the parts of the application that need no host to be
//! stated: the undo [`history`], what a client is told at first
//! ([`proto`]), the targets that drive clips and presets ([`targets`]), the
//! preset browser ([`pot`]), the written form of sources and presets
//! ([`persistence`]), the kinds of sources and modes ([`source_model`],
//! [`mode_model`]), checks on compartment data ([`data`]) and texts for the
//! user ([`ui_util`]).
//!
//! Times are counted in nanoseconds, tempo in thousandths of a beat per
//! minute, levels in thousandths and material in frames: no function here
//! takes or gives a float, and none of them can fail on overflow.

pub mod clip_source;
pub mod data;
pub mod history;
pub mod midi;
pub mod mode_model;
pub mod persistence;
pub mod pot;
pub mod proto;
pub mod slot;
pub mod source_model;
pub mod supplier;
pub mod targets;
pub mod ui_util;
pub mod units;
