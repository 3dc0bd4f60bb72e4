//! Daily work-hour tracking: the session plan computed from two work periods,
//! the monitor that decides when to warn and when the day is done, the
//! encrypted credential vault, and the pieces of the time-card client that do
//! not touch the network.
pub mod timemath;
pub mod monitor;
pub mod vault;
pub mod timecard;
