use vstd::prelude::*;

use crate::api_type::LogMessageData;

verus! {

/// A stored log line: the shared wire shape, retained as-is.
pub type LogMessage = LogMessageData;

} // verus!
