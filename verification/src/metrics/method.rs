//! The labels of the three methods.

use vstd::prelude::*;

verus! {

pub const ETH_CALL: &'static str = "eth_call";

pub const DEBUG_TRACE: &'static str = "debug_traceCall";

pub const TRACE_CALL: &'static str = "trace_call";

} // verus!
