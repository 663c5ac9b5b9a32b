//! The data and decision core of a stock dashboard: background fetches tracked
//! one at a time per need, reconciled into the buffers that the display reads.

pub mod chart;
pub mod market;
pub mod search;
pub mod slot;
pub mod watch;
