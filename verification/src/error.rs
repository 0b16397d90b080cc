//! The error a plugin hands back to the gateway.
use vstd::prelude::*;

verus! {

/// Why a plugin stage did not complete.
#[derive(Debug, Clone, PartialEq, Eq)]
pub enum PluginError {
    /// The plugin could not carry out its work; the text says why.
    ExecuteError(String),
    /// The request is refused with this status code and response body.
    Reject(u16, String),
}

impl PluginError {
    /// True when this is an `ExecuteError` whose text is `msg`.
    pub open spec fn is_execute(&self, msg: Seq<char>) -> bool {
        self matches PluginError::ExecuteError(m) && m@ == msg
    }
}

/// An `ExecuteError` with the given text.
pub fn execute_error(msg: String) -> (e: PluginError)
    ensures
        e.is_execute(msg@),
{
    PluginError::ExecuteError(msg)
}

} // verus!
