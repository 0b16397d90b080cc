//! Aha voice cloning request conversion.
use vstd::prelude::*;
use crate::aha::{build_voice_request, voice_request_of};
use crate::error::PluginError;
use crate::json::{field_str, json_result, str_field, Json, JsonV};
use crate::model::parsed;
use crate::text::owned;

verus! {

/// The Aha voice cloning request conversion plugin.
pub struct AhaModelRequestWrapperPlugin;

/// The converted request for a client request body.
pub open spec fn voice_conversion(body: JsonV) -> Result<JsonV, Seq<char>> {
    match str_field(body, "model"@) {
        None => Err("model field is not found"@),
        Some(m) => voice_request_of(m, body),
    }
}

impl AhaModelRequestWrapperPlugin {
    /// The plugin.
    pub fn new() -> (r: Self) {
        AhaModelRequestWrapperPlugin
    }

    /// The plugin's name.
    pub fn name(&self) -> (r: &'static str)
        ensures
            r@ == "AhaModelRequestWrapper"@,
    {
        "AhaModelRequestWrapper"
    }

    /// The voice cloning request for a client body given as parsed JSON (or
    /// the parser's error text).
    pub fn execute(&self, body: Result<Json, String>) -> (r: Result<Json, PluginError>)
        ensures
            match parsed(body) {
                Err(t) => r matches Err(e) && e.is_execute(t),
                Ok(b) => json_result(r, voice_conversion(b)),
            },
    {
        let b = match body {
            Ok(b) => b,
            Err(t) => return Err(PluginError::ExecuteError(t)),
        };
        let model = match field_str(&b, "model") {
            Some(m) => m,
            None => return Err(PluginError::ExecuteError(owned("model field is not found"))),
        };
        build_voice_request(model.as_str(), &b)
    }
}

} // verus!
