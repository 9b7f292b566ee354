//! A streaming execution bridge: a blocking job runs on its own workers, its
//! output and termination status travel over a channel as typed events, and a
//! cooperative relay hands them to the owning session, in order, until the
//! terminal event.

pub mod event;
pub mod channel;
pub mod relay;
pub mod lines;
pub mod sink;
pub mod worker;
pub mod job;
pub mod process;
pub mod install;
pub mod native;
