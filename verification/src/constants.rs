//! Built-in defaults and global bounds, in milliseconds unless named
//! otherwise.

use vstd::prelude::*;

verus! {

/// Refresh interval used when neither source supplies a rate.
pub const DEFAULT_REFRESH_RATE_IN_MILLISECONDS: u64 = 1000;

/// Default width of the displayed time window.
pub const DEFAULT_TIME_MILLISECONDS: u64 = 60000;

/// Default step by which the time window is widened or narrowed.
pub const TIME_CHANGE_MILLISECONDS: u64 = 15000;

/// Global staleness maximum: no time window nor time step may exceed it.
pub const STALE_MAX_MILLISECONDS: u64 = 600000;

/// Identifier of the widget selected when no other widget is named.
pub const DEFAULT_WIDGET_ID: u64 = 56;

/// Fixed sentinel identifier of the basic-mode table container.
pub const BASIC_TABLE_WIDGET_ID: u64 = 100;

} // verus!
