//! A terminal process dashboard, split into a verified core and a thin
//! unverified shell. The core keeps an ordered list of process snapshots
//! together with a selection cursor, routes input events to cursor moves,
//! and formats each snapshot as a row of table cells. Terminal handling,
//! process enumeration and drawing live outside the library.

pub mod control;
pub mod model;
pub mod render;
pub mod snapshot;
