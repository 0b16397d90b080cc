//! The echo plugin, which logs each request and response line.
use vstd::prelude::*;
use crate::text::{join2, join3};

verus! {

/// The echo plugin.
pub struct EchoPlugin;

impl EchoPlugin {
    /// The plugin.
    pub fn new() -> (r: Self) {
        EchoPlugin
    }

    /// The plugin's name.
    pub fn name(&self) -> (r: &'static str)
        ensures
            r@ == "Echo"@,
    {
        "Echo"
    }

    /// The log line for a request: `[id] METHOD URI`.
    pub fn request_line(&self, request_id: &str, method: &str, uri: &str) -> (r: String)
        ensures
            r@ == "["@ + request_id@ + "] "@ + method@ + " "@ + uri@,
    {
        let head = join3("[", request_id, "] ");
        join2(join3(head.as_str(), method, " ").as_str(), uri)
    }

    /// The log line for a response: `[id] STATUS CODE`, where `status` is the
    /// status as displayed (code and reason) and `code` its number.
    pub fn response_line(&self, request_id: &str, status: &str, code: &str) -> (r: String)
        ensures
            r@ == "["@ + request_id@ + "] "@ + status@ + " "@ + code@,
    {
        let head = join3("[", request_id, "] ");
        join2(join3(head.as_str(), status, " ").as_str(), code)
    }
}

} // verus!
