//! The example plugin, which does nothing.
use vstd::prelude::*;
use crate::error::PluginError;

verus! {

/// The example plugin.
pub struct DemoPlugin;

impl DemoPlugin {
    /// The plugin.
    pub fn new() -> (r: Self) {
        DemoPlugin
    }

    /// The plugin's name.
    pub fn name(&self) -> (r: &'static str)
        ensures
            r@ == "demo"@,
    {
        "demo"
    }

    /// The request hook: it does nothing and lets every request through.
    pub fn on_request(&self) -> (r: Result<(), PluginError>)
        ensures
            r is Ok,
    {
        Ok(())
    }
}

} // verus!
