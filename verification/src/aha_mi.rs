//! Aha model request conversion (the request-side half of the Aha adapter).
use vstd::prelude::*;
use crate::aha::{aha_request, transform_request_body};
use crate::error::PluginError;
use crate::json::{json_result, Json};
use crate::model::parsed;

verus! {

/// The Aha request conversion plugin.
pub struct AhaModelRequestWrapperPlugin;

impl AhaModelRequestWrapperPlugin {
    /// The plugin.
    pub fn new() -> (r: Self) {
        AhaModelRequestWrapperPlugin
    }

    /// The plugin's name.
    pub fn name(&self) -> (r: &'static str)
        ensures
            r@ == "aha-mi"@,
    {
        "aha-mi"
    }

    /// The request body sent on, given the client's body as parsed JSON (or
    /// the parser's error text).
    pub fn execute(&self, body: Result<Json, String>) -> (r: Result<Json, PluginError>)
        ensures
            match parsed(body) {
                Err(t) => r matches Err(e) && e.is_execute(t),
                Ok(b) => json_result(r, aha_request(b)),
            },
    {
        match body {
            Ok(b) => transform_request_body(b),
            Err(t) => Err(PluginError::ExecuteError(t)),
        }
    }
}

/// The request conversion plugin converts a body exactly as the aha
/// plugin's request body hook does: the same document, or the same error.
pub proof fn law_aha_mi_matches_aha(body: Result<Json, String>, mi: Result<Json, PluginError>, aha: Result<Json, PluginError>)
    requires
        match parsed(body) {
            Err(t) => mi matches Err(e) && e.is_execute(t),
            Ok(b) => json_result(mi, aha_request(b)),
        },
        match parsed(body) {
            Err(t) => aha matches Err(e) && e.is_execute(t),
            Ok(b) => json_result(aha, aha_request(b)),
        },
    ensures
        match (mi, aha) {
            (Ok(x), Ok(y)) => x.model() == y.model(),
            (Err(x), Err(y)) => x matches PluginError::ExecuteError(a) && y matches PluginError::ExecuteError(b) && a@ == b@,
            _ => false,
        },
{
}

} // verus!
