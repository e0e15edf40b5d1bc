//! The transport of a clip: its state, the commands that change it, and
//! what each block of the real-time thread does with it.

pub mod block;
pub mod block_info;
pub mod laws;
pub mod skills;
pub mod source;
pub mod state;
