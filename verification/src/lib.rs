//! A break reminder: a cycle of work intervals and rest intervals, with a
//! desktop notice at the end of each work interval.
//!
//! The crate holds the decisions of the reminder and proves them:
//!
//! * [`params`]: the two settings, their ranges and the durations they stand for;
//! * [`text`]: decimal numbers and the labels shown to the user;
//! * [`notice`]: what the break notice says and how long it is shown;
//! * [`timer`]: the cancellable wait and the timing loop built on it, as a
//!   state machine from an observation to the next action;
//! * [`engine`]: the Idle/Running controller that the window drives.
//!
//! Nothing here sleeps, reads a clock or talks to the desktop: the caller
//! performs each action and reports what it observed.

pub mod params;
pub mod text;
pub mod notice;
pub mod timer;
pub mod engine;
