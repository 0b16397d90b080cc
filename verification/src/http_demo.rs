//! The example plugin that makes an HTTP call from a request stage.
use vstd::prelude::*;

verus! {

/// The HTTP call example plugin.
pub struct DemoPlugin;

impl DemoPlugin {
    /// The plugin.
    pub fn new() -> (r: Self) {
        DemoPlugin
    }

    /// The plugin's name.
    pub fn name(&self) -> (r: &'static str)
        ensures
            r@ == "http-demo"@,
    {
        "http-demo"
    }
}

} // verus!
