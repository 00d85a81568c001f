//! A proportional-integral-derivative (PID) controller over saturating
//! decimal fixed-point numbers.
pub mod ctrl;
pub mod fixed;
pub mod limits;
pub mod term;

pub use ctrl::{PidCtrl, PidIn, PidOut};
pub use fixed::Fixed;
pub use limits::{Limits, PidError};
pub use term::{KDTerm, KITerm, KPTerm};
