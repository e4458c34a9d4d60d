//! One compaction round: the planned outputs, and the task that carries them out.

pub mod output;
pub mod round;
pub mod task;
