//! The arm and its kinematics.

pub mod robot_arm;

pub use robot_arm::{IKResult, IkError, JointSolution, LinkParams, RobotArm};
