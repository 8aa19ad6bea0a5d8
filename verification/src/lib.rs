//! Job, clip and setup logic of the rscapt replay-clip processor.
pub mod text;
pub mod paths;
pub mod job;
pub mod queue;
pub mod clips;
pub mod config;
pub mod processor;
pub mod ipc;
pub mod daemon;
pub mod share;
pub mod tui;
pub mod setup;
pub mod wizard;
pub mod updater;
pub mod obs;
pub mod obs_profile;
pub mod installer;
pub mod notify;
