//! Bailian request conversion, returning the converted request.
use vstd::prelude::*;
use crate::bailian::{build_image_request, image_endpoint, image_request, model_and_prompt, read_model_and_prompt};
use crate::error::PluginError;
use crate::json::{json_result, str_field, Json, JsonV};
use crate::model::{parsed, Provider};
use crate::text::{ends_with, owned};

verus! {

/// The Bailian request conversion plugin.
pub struct BaiLianModelRequestWrapper;

/// The provider found in the request state: an error text when reading the
/// state failed, nothing when there is none.
pub open spec fn state_url(provider: Result<Option<&Provider>, String>) -> Result<Option<Seq<char>>, Seq<char>> {
    match provider {
        Err(t) => Err(t@),
        Ok(Some(p)) => Ok(Some(p.api_url@)),
        Ok(None) => Ok(None),
    }
}

/// The converted request for a client body routed to a provider.
pub open spec fn converted_request(provider: Result<Option<Seq<char>>, Seq<char>>, body: Result<JsonV, Seq<char>>) -> Result<JsonV, Seq<char>> {
    match provider {
        Err(t) => Err(t),
        Ok(None) => Err("provider is not found"@),
        Ok(Some(url)) => match body {
            Err(t) => Err(t),
            Ok(b) => match model_and_prompt(b) {
                Err(m) => Err(m),
                Ok((m, p)) => if image_endpoint(url) {
                    Ok(image_request(m, p))
                } else {
                    Ok(b)
                },
            },
        },
    }
}

/// A body routed to an address ending in Bailian's multimodal generation
/// path becomes the text-to-image request for its model and prompt; one
/// routed anywhere else comes back as it was.
pub proof fn law_image_endpoint_converts(url: Seq<char>, body: JsonV, m: Seq<char>, p: Seq<char>)
    requires
        str_field(body, "model"@) == Some(m),
        str_field(body, "prompt"@) == Some(p),
    ensures
        "/api/v1/services/aigc/multimodal-generation/generation"@.is_suffix_of(url)
            ==> converted_request(Ok(Some(url)), Ok(body)) == Ok::<JsonV, Seq<char>>(image_request(m, p)),
        !"/api/v1/services/aigc/multimodal-generation/generation"@.is_suffix_of(url)
            ==> converted_request(Ok(Some(url)), Ok(body)) == Ok::<JsonV, Seq<char>>(body),
{
}

impl BaiLianModelRequestWrapper {
    /// The plugin.
    pub fn new() -> (r: Self) {
        BaiLianModelRequestWrapper
    }

    /// The plugin's name.
    pub fn name(&self) -> (r: &'static str)
        ensures
            r@ == "BaiLianModelRequestWrapper"@,
    {
        "BaiLianModelRequestWrapper"
    }

    /// The converted request, given the provider read from the request state
    /// and the client body as parsed JSON (or the parser's error text).
    pub fn execute(&self, provider: Result<Option<&Provider>, String>, body: Result<Json, String>) -> (r: Result<Json, PluginError>)
        ensures
            json_result(r, converted_request(state_url(provider), parsed(body))),
    {
        let provider = match provider {
            Err(t) => return Err(PluginError::ExecuteError(t)),
            Ok(None) => return Err(PluginError::ExecuteError(owned("provider is not found"))),
            Ok(Some(p)) => p,
        };
        let b = match body {
            Ok(b) => b,
            Err(t) => return Err(PluginError::ExecuteError(t)),
        };
        let converted = match read_model_and_prompt(&b) {
            Ok((model, prompt)) => {
                if ends_with(provider.api_url.as_str(), "/api/v1/services/aigc/multimodal-generation/generation") {
                    Some(build_image_request(model, prompt))
                } else {
                    None
                }
            },
            Err(e) => return Err(e),
        };
        match converted {
            Some(j) => Ok(j),
            None => Ok(b),
        }
    }
}

} // verus!
