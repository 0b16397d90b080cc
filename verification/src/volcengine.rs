//! The Volcengine model adapter, which passes requests and responses on unchanged.
use vstd::prelude::*;
use crate::error::PluginError;

verus! {

/// The Volcengine adapter plugin.
pub struct VolcenginePlugin;

impl VolcenginePlugin {
    /// The plugin.
    pub fn new() -> (r: Self) {
        VolcenginePlugin
    }

    /// The plugin's name.
    pub fn name(&self) -> (r: &'static str)
        ensures
            r@ == "volcengine"@,
    {
        "volcengine"
    }

    /// The request body hook: the body is sent on unchanged.
    pub fn on_request_body(&self, body: &mut Option<Vec<u8>>) -> (r: Result<(), PluginError>)
        ensures
            r is Ok,
            *final(body) == *old(body),
    {
        Ok(())
    }

    /// The response head hook: the head is passed on unchanged.
    pub fn on_response(&self) -> (r: Result<(), PluginError>)
        ensures
            r is Ok,
    {
        Ok(())
    }

    /// The response body hook: the body is passed on unchanged.
    pub fn on_response_body(&self, body: &mut Option<Vec<u8>>) -> (r: Result<(), PluginError>)
        ensures
            r is Ok,
            *final(body) == *old(body),
    {
        Ok(())
    }
}

} // verus!
