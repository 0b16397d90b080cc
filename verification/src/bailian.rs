//! Request adaptation for Alibaba Bailian text-to-image models.
use vstd::prelude::*;
use crate::error::PluginError;
use crate::json::{arr, array1, field_str, jstr, obj, object1, object2, str_field, text_of_string, text, Json, JsonV};
use crate::model::{parsed, BodyChange, BodyChangeV, Provider};
use crate::text::{ends_with, owned};

verus! {

/// The Bailian adapter plugin.
pub struct BaiLianModelWrapper;

/// Whether `url` is Bailian's multimodal generation (text-to-image) endpoint.
pub open spec fn image_endpoint(url: Seq<char>) -> bool {
    "/api/v1/services/aigc/multimodal-generation/generation"@.is_suffix_of(url)
}

/// Bailian's text-to-image request for `prompt` to `model`.
pub open spec fn image_request(model: Seq<char>, prompt: Seq<char>) -> JsonV {
    obj(seq![
        ("model"@, jstr(model)),
        ("input"@, obj(seq![("messages"@, arr(seq![obj(seq![
            ("role"@, jstr("user"@)),
            ("content"@, arr(seq![obj(seq![("text"@, jstr(prompt))])])),
        ])]))])),
    ])
}

/// The model and prompt of a client body, or the error for the first one missing.
pub open spec fn model_and_prompt(body: JsonV) -> Result<(Seq<char>, Seq<char>), Seq<char>> {
    match str_field(body, "model"@) {
        None => Err("model field is not found"@),
        Some(m) => match str_field(body, "prompt"@) {
            None => Err("prompt field is not found"@),
            Some(p) => Ok((m, p)),
        },
    }
}

/// What becomes of a client request body routed to a provider.
pub open spec fn bailian_request(provider: Option<Seq<char>>, body: Result<JsonV, Seq<char>>) -> Result<BodyChangeV, Seq<char>> {
    match provider {
        None => Err("provider is not found"@),
        Some(url) => match body {
            Err(t) => Err(t),
            Ok(b) => match model_and_prompt(b) {
                Err(m) => Err(m),
                Ok((m, p)) => if image_endpoint(url) {
                    Ok(BodyChangeV::Json(image_request(m, p)))
                } else {
                    Ok(BodyChangeV::Keep)
                },
            },
        },
    }
}

/// A body routed to an address ending in Bailian's multimodal generation
/// path becomes the text-to-image request for its model and prompt; one
/// routed anywhere else is kept as it is.
pub proof fn law_image_endpoint_decides(url: Seq<char>, body: JsonV, m: Seq<char>, p: Seq<char>)
    requires
        str_field(body, "model"@) == Some(m),
        str_field(body, "prompt"@) == Some(p),
    ensures
        "/api/v1/services/aigc/multimodal-generation/generation"@.is_suffix_of(url)
            ==> bailian_request(Some(url), Ok(body)) == Ok::<BodyChangeV, Seq<char>>(BodyChangeV::Json(image_request(m, p))),
        !"/api/v1/services/aigc/multimodal-generation/generation"@.is_suffix_of(url)
            ==> bailian_request(Some(url), Ok(body)) == Ok::<BodyChangeV, Seq<char>>(BodyChangeV::Keep),
{
}

/// The API address of an optional provider.
pub open spec fn provider_url(provider: Option<&Provider>) -> Option<Seq<char>> {
    match provider {
        Some(p) => Some(p.api_url@),
        None => None,
    }
}

/// Bailian's text-to-image request.
pub fn build_image_request(model: &String, prompt: &String) -> (r: Json)
    ensures
        r.model() == image_request(model@, prompt@),
{
    let content = array1(object1("text", text_of_string(prompt)));
    let message = object2("role", text("user"), "content", content);
    object2("model", text_of_string(model), "input", object1("messages", array1(message)))
}

/// The model and prompt of a client body.
pub fn read_model_and_prompt(body: &Json) -> (r: Result<(&String, &String), PluginError>)
    ensures
        match model_and_prompt(body.model()) {
            Ok((m, p)) => r matches Ok((x, y)) && x@ == m && y@ == p,
            Err(t) => r matches Err(e) && e.is_execute(t),
        },
{
    let model = match field_str(body, "model") {
        Some(m) => m,
        None => return Err(PluginError::ExecuteError(owned("model field is not found"))),
    };
    let prompt = match field_str(body, "prompt") {
        Some(p) => p,
        None => return Err(PluginError::ExecuteError(owned("prompt field is not found"))),
    };
    Ok((model, prompt))
}

impl BaiLianModelWrapper {
    /// The plugin.
    pub fn new() -> (r: Self) {
        BaiLianModelWrapper
    }

    /// The plugin's name.
    pub fn name(&self) -> (r: &'static str)
        ensures
            r@ == "BaiLian"@,
    {
        "BaiLian"
    }

    /// What becomes of a client request body (given as parsed JSON, or the
    /// parser's error text) routed to `provider`.
    pub fn on_request_body(&self, provider: Option<&Provider>, body: Result<Json, String>) -> (r: Result<BodyChange, PluginError>)
        ensures
            match bailian_request(provider_url(provider), parsed(body)) {
                Ok(c) => r matches Ok(x) && x.model() == c,
                Err(m) => r matches Err(e) && e.is_execute(m),
            },
    {
        let provider = match provider {
            Some(p) => p,
            None => return Err(PluginError::ExecuteError(owned("provider is not found"))),
        };
        let b = match body {
            Ok(b) => b,
            Err(t) => return Err(PluginError::ExecuteError(t)),
        };
        let (model, prompt) = match read_model_and_prompt(&b) {
            Ok(mp) => mp,
            Err(e) => return Err(e),
        };
        if ends_with(provider.api_url.as_str(), "/api/v1/services/aigc/multimodal-generation/generation") {
            Ok(BodyChange::Json(build_image_request(model, prompt)))
        } else {
            Ok(BodyChange::Keep)
        }
    }
}

} // verus!
