//! Motion in time: straight-line trajectories and the task sequencer.

pub mod sequencer;
pub mod trajectory;

pub use trajectory::{LinearTrajectory, TrajectoryView};
pub use sequencer::{
    clamp, segment_duration, BallState, MissionError, Phase, Sequencer, SequencerView,
};
