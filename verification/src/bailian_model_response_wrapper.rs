//! Bailian text-to-image response conversion.
use vstd::prelude::*;
use crate::bailian::image_endpoint;
use crate::bailian_model_request_wrapper::state_url;
use crate::clock::unix_time;
use crate::error::PluginError;
use crate::json::{
    arr, array1, elem, field, index_at, index_key, jstr, json_result, obj, object1, object2, opt_str,
    text_of, text_of_string, Json, JsonNumber, JsonV, NumberV,
};
use crate::model::{parsed, Provider};
use crate::text::{ends_with, owned};

verus! {

/// The Bailian response conversion plugin.
pub struct BaiLianModelResponseWrapper;

/// `body["output"]["choices"][0]["message"]["content"][0]["image"].as_str()`.
pub open spec fn output_image(body: JsonV) -> Option<Seq<char>> {
    text_of(
        field(
            elem(field(field(elem(field(field(body, "output"@), "choices"@), 0), "message"@), "content"@), 0),
            "image"@,
        ),
    )
}

/// The image generation response: its creation time and image address.
pub open spec fn image_response(created: u32, url: Seq<char>) -> JsonV {
    obj(seq![
        ("created"@, JsonV::Number(NumberV::PosInt(created as u64))),
        ("data"@, arr(seq![obj(seq![("url"@, jstr(url))])])),
    ])
}

/// The converted response, with the clock reading `now` (seconds since the
/// Unix epoch, or the clock's error text); the time is cut to 32 bits.
pub open spec fn converted_response(
    provider: Result<Option<Seq<char>>, Seq<char>>,
    body: Result<JsonV, Seq<char>>,
    now: Result<u64, Seq<char>>,
) -> Result<JsonV, Seq<char>> {
    match provider {
        Err(t) => Err(t),
        Ok(None) => Err("provider is not found"@),
        Ok(Some(url)) => match body {
            Err(t) => Err(t),
            Ok(b) => match output_image(b) {
                None => Err("image field is not found"@),
                Some(image) => match now {
                    Err(t) => Err(t),
                    Ok(secs) => if image_endpoint(url) {
                        Ok(image_response(secs as u32, image))
                    } else {
                        Ok(b)
                    },
                },
            },
        },
    }
}

/// The clock reading as a spec value.
pub open spec fn clock_reading(now: Result<u64, String>) -> Result<u64, Seq<char>> {
    match now {
        Ok(t) => Ok(t),
        Err(t) => Err(t@),
    }
}

fn find_output_image(body: &Json) -> (r: Option<&String>)
    ensures
        match r {
            Some(s) => output_image(body.model()) == Some(s@),
            None => output_image(body.model()) is None,
        },
{
    let v = index_key(Some(body), "output");
    let v = index_key(v, "choices");
    let v = index_at(v, 0);
    let v = index_key(v, "message");
    let v = index_key(v, "content");
    let v = index_at(v, 0);
    let v = index_key(v, "image");
    opt_str(v)
}

impl BaiLianModelResponseWrapper {
    /// The plugin.
    pub fn new() -> (r: Self) {
        BaiLianModelResponseWrapper
    }

    /// The plugin's name.
    pub fn name(&self) -> (r: &'static str)
        ensures
            r@ == "BaiLianModelResponseWrapper"@,
    {
        "BaiLianModelResponseWrapper"
    }

    /// The converted response at clock reading `now`, given the provider read
    /// from the request state and the response body as parsed JSON (or the
    /// parser's error text).
    pub fn execute_at(
        &self,
        provider: Result<Option<&Provider>, String>,
        body: Result<Json, String>,
        now: Result<u64, String>,
    ) -> (r: Result<Json, PluginError>)
        ensures
            json_result(r, converted_response(state_url(provider), parsed(body), clock_reading(now))),
    {
        let provider = match provider {
            Err(t) => return Err(PluginError::ExecuteError(t)),
            Ok(None) => return Err(PluginError::ExecuteError(owned("provider is not found"))),
            Ok(Some(p)) => p,
        };
        let b = match body {
            Ok(b) => b,
            Err(t) => return Err(PluginError::ExecuteError(t)),
        };
        let converted = match find_output_image(&b) {
            None => return Err(PluginError::ExecuteError(owned("image field is not found"))),
            Some(image) => {
                let secs = match now {
                    Ok(t) => t,
                    Err(t) => return Err(PluginError::ExecuteError(t)),
                };
                if ends_with(provider.api_url.as_str(), "/api/v1/services/aigc/multimodal-generation/generation") {
                    let created = Json::Number(JsonNumber::PosInt(secs as u32 as u64));
                    Some(object2("created", created, "data", array1(object1("url", text_of_string(image)))))
                } else {
                    None
                }
            },
        };
        match converted {
            Some(j) => Ok(j),
            None => Ok(b),
        }
    }

    /// The converted response at the current time.
    pub fn execute(&self, provider: Result<Option<&Provider>, String>, body: Result<Json, String>) -> (r: Result<Json, PluginError>)
        ensures
            exists|now: Result<u64, Seq<char>>|
                json_result(r, #[trigger] converted_response(state_url(provider), parsed(body), now)),
    {
        let now = unix_time();
        self.execute_at(provider, body, now)
    }
}

} // verus!
