//! Circuit constants and configuration values shared by every gate.
use vstd::prelude::*;

verus! {

/// Maximum number of 8-bit chunks for 64-bit decomposition.
pub const MAX_CHUNKS: usize = 8;

/// Lookup table size for range checks: the table holds 0..=255.
pub const LOOKUP_TABLE_SIZE: u64 = 256;

/// Default threshold for range checks.
pub const DEFAULT_RANGE_THRESHOLD: u64 = 256;

/// Maximum circuit size (approximate row budget).
pub const MAX_CIRCUIT_SIZE: usize = 1048576;

/// Number of witness (advice) columns in the shared column plan.
pub const NUM_ADVICE_COLUMNS: usize = 15;

/// Number of fixed (public-parameter) columns in the shared column plan.
pub const NUM_FIXED_COLUMNS: usize = 2;

} // verus!
