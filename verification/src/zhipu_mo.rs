//! Zhipu AI response adaptation for voice cloning (response side).
use vstd::prelude::*;
use crate::error::PluginError;
use crate::json::Json;
use crate::model::{parsed, Provider};
use crate::zhipu::{plan_response_body, response_plan};

verus! {

/// The Zhipu AI response adapter plugin.
pub struct ZhiPuMO;

impl ZhiPuMO {
    /// The plugin.
    pub fn new() -> (r: Self) {
        ZhiPuMO
    }

    /// The plugin's name.
    pub fn name(&self) -> (r: &'static str)
        ensures
            r@ == "zhipu-mo"@,
    {
        "zhipu-mo"
    }

    /// What the plugin does with a response: nothing for a failed one;
    /// otherwise the file id and API key to download the cloned audio with
    /// (which then replaces the body, as `audio/wav`), or nothing to do.
    pub fn plan(&self, success: bool, provider: Option<&Provider>, body: Result<Json, String>) -> (r: Result<Option<(String, String)>, PluginError>)
        ensures
            !success ==> r matches Ok(None),
            success ==> match response_plan(provider, parsed(body)) {
                Ok(Some((id, k))) => r matches Ok(Some((x, y))) && x@ == id && y@ == k,
                Ok(None) => r matches Ok(None),
                Err(m) => r matches Err(e) && e.is_execute(m),
            },
    {
        if !success {
            return Ok(None);
        }
        plan_response_body(provider, body)
    }
}

} // verus!
