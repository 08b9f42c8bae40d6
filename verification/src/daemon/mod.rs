//! The daemon: queue, playback transitions and the tasks around them.

pub mod dispatch;
pub mod engine;
pub mod guards;
pub mod laws;
pub mod listener;
pub mod notify;
pub mod playback_laws;
pub mod playback_ops;
pub mod prebuffer;
pub mod random;
pub mod settle;
pub mod state;
pub mod task_laws;
