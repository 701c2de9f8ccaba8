//! Kinematics and motion sequencing for a two-link, three-joint arm that
//! repeats a pick-and-place cycle: from home to a start point, a dwell to
//! pick the object, on to a goal point, a dwell to place it, back home, a
//! wait, and round again.
//!
//! Everything here is exact integer arithmetic. Lengths and coordinates are
//! whole micrometres, times are whole microseconds, speeds are micrometres
//! per second, masses are grams.
//!
//! - [`geometry`]: points, squared distances and integer square roots.
//! - [`robot`]: the arm; which targets its tool can reach, and for those the
//!   exact cosine of the elbow angle. Turning that solution into joint
//!   angles, and angles into joint positions, takes trigonometric functions
//!   and their inverses; that is floating point and left to the program
//!   that draws the arm.
//! - [`sim`]: the straight-line trajectory between two points, and the
//!   sequencer, the state machine of the cycle.
//! - [`ui`]: what the control panel decides from keys and clicks.
//! - [`text`]: numbers written out for messages.

pub mod geometry;
pub mod robot;
pub mod sim;
pub mod text;
pub mod ui;

pub use geometry::Point;
pub use robot::{IKResult, IkError, JointSolution, LinkParams, RobotArm};
pub use sim::{BallState, LinearTrajectory, MissionError, Phase, Sequencer};
