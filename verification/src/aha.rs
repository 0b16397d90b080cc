//! Request and response adaptation for models served by Aha.
use vstd::prelude::*;
use vstd::string::*;
use vstd::utf8::*;
use crate::codec::{decode_standard, standard_decoded};
use crate::error::PluginError;
use crate::json::{
    arr, array1, array2, elem, field, index_at, index_key, jstr, json_result, obj, object1, object2,
    object3, empty_object, opt_model, opt_str, str_field, str_equal, text, text_of, text_of_string,
    field_str, Json, JsonV,
};
use crate::model::{change_result, parsed, BodyChange, BodyChangeV};
use crate::text::{owned, starts_with, strip_prefix};

verus! {

/// The Aha model adapter plugin.
pub struct AhaPlugin;

/// Models whose request body is passed on unchanged.
pub open spec fn passes_through(m: Seq<char>) -> bool {
    "minicpm4"@.is_prefix_of(m) || "qwen2.5vl"@.is_prefix_of(m) || "qwen3"@.is_prefix_of(m)
        || m == "deepseek-ocr"@ || m == "hunyuan-ocr"@ || m == "paddleocr-vl"@
}

/// The chat request for background removal of `image`.
pub open spec fn rmbg_request(image: Seq<char>) -> JsonV {
    obj(
        seq![
            ("model"@, jstr("rmbg2.0"@)),
            ("messages"@, arr(seq![obj(seq![
                ("role"@, jstr("user"@)),
                ("content"@, arr(seq![obj(seq![
                    ("type"@, jstr("image"@)),
                    ("image_url"@, obj(seq![("url"@, jstr(image))])),
                ])])),
            ])])),
        ],
    )
}

/// The chat request that speaks `input` in the voice of the sample `voice`,
/// whose transcript is `voice_text`.
pub open spec fn voice_request(model: Seq<char>, voice: Seq<char>, input: Seq<char>, voice_text: Seq<char>) -> JsonV {
    obj(
        seq![
            ("model"@, jstr(model)),
            ("messages"@, arr(seq![obj(seq![
                ("role"@, jstr("user"@)),
                ("content"@, arr(seq![
                    obj(seq![("type"@, jstr("audio"@)), ("audio_url"@, obj(seq![("url"@, jstr(voice))]))]),
                    obj(seq![("type"@, jstr("text"@)), ("text"@, jstr(input))]),
                ])),
            ])])),
            ("metadata"@, obj(seq![("prompt_text"@, jstr(voice_text))])),
        ],
    )
}

/// The voice cloning request built from a body's `input`, `voice` and
/// `voice_text`, checked in that order.
pub open spec fn voice_request_of(model: Seq<char>, body: JsonV) -> Result<JsonV, Seq<char>> {
    match str_field(body, "input"@) {
        None => Err("input field is not found"@),
        Some(input) => match str_field(body, "voice"@) {
            None => Err("voice field is not found"@),
            Some(voice) => match str_field(body, "voice_text"@) {
                None => Err("voice_text field is not found"@),
                Some(voice_text) => Ok(voice_request(model, voice, input, voice_text)),
            },
        },
    }
}

/// The request body sent on for a client request body, by model.
pub open spec fn aha_request(body: JsonV) -> Result<JsonV, Seq<char>> {
    match str_field(body, "model"@) {
        None => Err("model field is not found"@),
        Some(m) => if passes_through(m) {
            Ok(body)
        } else if m == "rmbg2.0"@ {
            match str_field(body, "image"@) {
                None => Err("input field is not found"@),
                Some(image) => Ok(rmbg_request(image)),
            }
        } else if "voxcpm"@.is_prefix_of(m) {
            voice_request_of(m, body)
        } else {
            Ok(obj(Seq::empty()))
        },
    }
}

fn model_passes_through(m: &str) -> (r: bool)
    ensures
        r == passes_through(m@),
{
    starts_with(m, "minicpm4") || starts_with(m, "qwen2.5vl") || starts_with(m, "qwen3")
        || str_equal(m, "deepseek-ocr") || str_equal(m, "hunyuan-ocr") || str_equal(m, "paddleocr-vl")
}

/// The voice cloning request for `model` from `body`.
pub fn build_voice_request(model: &str, body: &Json) -> (r: Result<Json, PluginError>)
    ensures
        json_result(r, voice_request_of(model@, body.model())),
{
    let input = match field_str(body, "input") {
        Some(s) => s,
        None => return Err(PluginError::ExecuteError(owned("input field is not found"))),
    };
    let voice = match field_str(body, "voice") {
        Some(s) => s,
        None => return Err(PluginError::ExecuteError(owned("voice field is not found"))),
    };
    let voice_text = match field_str(body, "voice_text") {
        Some(s) => s,
        None => return Err(PluginError::ExecuteError(owned("voice_text field is not found"))),
    };
    let audio = object2("type", text("audio"), "audio_url", object1("url", text_of_string(voice)));
    let said = object2("type", text("text"), "text", text_of_string(input));
    let message = object2("role", text("user"), "content", array2(audio, said));
    Ok(object3(
        "model",
        text(model),
        "messages",
        array1(message),
        "metadata",
        object1("prompt_text", text_of_string(voice_text)),
    ))
}

/// The request body sent on for a client request body.
pub fn transform_request_body(body: Json) -> (r: Result<Json, PluginError>)
    ensures
        json_result(r, aha_request(body.model())),
{
    let model = match field_str(&body, "model") {
        Some(m) => owned(m.as_str()),
        None => return Err(PluginError::ExecuteError(owned("model field is not found"))),
    };
    if model_passes_through(model.as_str()) {
        Ok(body)
    } else if str_equal(model.as_str(), "rmbg2.0") {
        let image = match field_str(&body, "image") {
            Some(s) => s,
            None => return Err(PluginError::ExecuteError(owned("input field is not found"))),
        };
        let content = object2("type", text("image"), "image_url", object1("url", text_of_string(image)));
        let message = object2("role", text("user"), "content", array1(content));
        Ok(object2("model", text("rmbg2.0"), "messages", array1(message)))
    } else if starts_with(model.as_str(), "voxcpm") {
        build_voice_request(model.as_str(), &body)
    } else {
        Ok(empty_object())
    }
}


/// A chat or OCR model's request is sent on unchanged: every model whose
/// name starts with `minicpm4`, `qwen2.5vl` or `qwen3`, or is
/// `deepseek-ocr`, `hunyuan-ocr` or `paddleocr-vl`.
pub proof fn law_chat_models_pass_through(body: JsonV, m: Seq<char>)
    requires
        str_field(body, "model"@) == Some(m),
        "minicpm4"@.is_prefix_of(m) || "qwen2.5vl"@.is_prefix_of(m) || "qwen3"@.is_prefix_of(m)
            || m == "deepseek-ocr"@ || m == "hunyuan-ocr"@ || m == "paddleocr-vl"@,
    ensures
        aha_request(body) == Ok::<JsonV, Seq<char>>(body),
{
}

/// Every voice model (a name starting with `voxcpm`, the same test that
/// makes the response `audio/wav`) has its reply replaced by the decoded
/// audio: the base64 text of the reply's audio URL, after the
/// `data:audio/wav;base64,` prefix when there is one.
pub proof fn law_voice_replies_become_audio(model: Seq<char>, body: JsonV, url: Seq<char>, data: Seq<char>, bytes: Seq<u8>)
    requires
        "voxcpm"@.is_prefix_of(model),
        content_url(body, "audio_url"@) == Some(url),
        url == "data:audio/wav;base64,"@ + data || (!"data:audio/wav;base64,"@.is_prefix_of(url) && url == data),
        standard_decoded(encode_utf8(data)) == Ok::<Seq<u8>, Seq<char>>(bytes),
    ensures
        aha_response(model, body) == Ok::<BodyChangeV, Seq<char>>(BodyChangeV::Bytes(bytes)),
{
    reveal_strlit("voxcpm");
    reveal_strlit("rmbg2.0");
    assert(model[0] == "voxcpm"@[0]);
    assert(model != "rmbg2.0"@) by {
        assert("rmbg2.0"@[0] == 'r');
    }
    let prefix = "data:audio/wav;base64,"@;
    if url == prefix + data {
        assert(prefix.is_prefix_of(url)) by {
            assert(url.subrange(0, prefix.len() as int) =~= prefix);
        }
        assert(url.skip(prefix.len() as int) =~= data);
    }
    assert(audio_data(url) == data);
}

/// The response body of a model other than `rmbg2.0` and the voice models
/// is passed on unchanged.
pub proof fn law_other_model_responses_kept(model: Seq<char>, body: JsonV)
    requires
        model != "rmbg2.0"@,
        !"voxcpm"@.is_prefix_of(model),
    ensures
        aha_response(model, body) == Ok::<BodyChangeV, Seq<char>>(BodyChangeV::Keep),
{
}

/// `body["choices"][0]["message"]["content"][0][kind]["url"].as_str()`.
pub open spec fn content_url(body: JsonV, kind: Seq<char>) -> Option<Seq<char>> {
    text_of(
        field(
            field(elem(field(field(elem(field(body, "choices"@), 0), "message"@), "content"@), 0), kind),
            "url"@,
        ),
    )
}

/// The image generation response carrying `image` as base64.
pub open spec fn rmbg_response(image: Seq<char>) -> JsonV {
    obj(seq![("data"@, arr(seq![obj(seq![("b64_json"@, jstr(image)), ("revised_prompt"@, JsonV::Null)])]))])
}

/// An audio URL's base64 payload: without its `data:audio/wav;base64,`
/// prefix when it has one.
pub open spec fn audio_data(url: Seq<char>) -> Seq<char> {
    if "data:audio/wav;base64,"@.is_prefix_of(url) {
        url.skip("data:audio/wav;base64,"@.len() as int)
    } else {
        url
    }
}

/// What becomes of a model's response body.
pub open spec fn aha_response(model: Seq<char>, body: JsonV) -> Result<BodyChangeV, Seq<char>> {
    if model == "rmbg2.0"@ {
        match content_url(body, "image_url"@) {
            None => Err("image_url field is not found"@),
            Some(image) => Ok(BodyChangeV::Json(rmbg_response(image))),
        }
    } else if "voxcpm"@.is_prefix_of(model) {
        match content_url(body, "audio_url"@) {
            None => Err("audio_url field is not found"@),
            Some(url) => match standard_decoded(encode_utf8(audio_data(url))) {
                Ok(bytes) => Ok(BodyChangeV::Bytes(bytes)),
                Err(t) => Err(t),
            },
        }
    } else {
        Ok(BodyChangeV::Keep)
    }
}

/// `body["choices"][0]["message"]["content"][0][kind]["url"].as_str()`.
pub fn find_content_url<'a>(body: &'a Json, kind: &str) -> (r: Option<&'a String>)
    ensures
        match r {
            Some(s) => content_url(body.model(), kind@) == Some(s@),
            None => content_url(body.model(), kind@) is None,
        },
{
    let v = index_key(Some(body), "choices");
    let v = index_at(v, 0);
    let v = index_key(v, "message");
    let v = index_key(v, "content");
    let v = index_at(v, 0);
    let v = index_key(v, kind);
    let v = index_key(v, "url");
    opt_str(v)
}

/// The image generation response carrying `image`.
pub fn build_rmbg_response(image: &String) -> (r: Json)
    ensures
        r.model() == rmbg_response(image@),
{
    let item = object2("b64_json", text_of_string(image), "revised_prompt", Json::Null);
    object1("data", array1(item))
}

/// `STANDARD.decode` of an audio URL's payload.
pub fn decode_audio(url: &str) -> (r: Result<Vec<u8>, PluginError>)
    ensures
        match standard_decoded(encode_utf8(audio_data(url@))) {
            Ok(b) => r matches Ok(v) && v@ == b,
            Err(t) => r matches Err(e) && e.is_execute(t),
        },
{
    let data: &str = match strip_prefix(url, "data:audio/wav;base64,") {
        Some(rest) => rest,
        None => url,
    };
    match decode_standard(data.as_bytes()) {
        Ok(v) => Ok(v),
        Err(t) => Err(PluginError::ExecuteError(t)),
    }
}

/// What becomes of a model's response body.
pub fn transform_response_body(model: &str, body: &Json) -> (r: Result<BodyChange, PluginError>)
    ensures
        change_result(r, aha_response(model@, body.model())),
{
    if str_equal(model, "rmbg2.0") {
        match find_content_url(body, "image_url") {
            None => Err(PluginError::ExecuteError(owned("image_url field is not found"))),
            Some(image) => Ok(BodyChange::Json(build_rmbg_response(image))),
        }
    } else if starts_with(model, "voxcpm") {
        match find_content_url(body, "audio_url") {
            None => Err(PluginError::ExecuteError(owned("audio_url field is not found"))),
            Some(url) => match decode_audio(url.as_str()) {
                Ok(bytes) => Ok(BodyChange::Bytes(bytes)),
                Err(e) => Err(e),
            },
        }
    } else {
        Ok(BodyChange::Keep)
    }
}

impl AhaPlugin {
    /// The plugin.
    pub fn new() -> (r: Self) {
        AhaPlugin
    }

    /// The plugin's name.
    pub fn name(&self) -> (r: &'static str)
        ensures
            r@ == "aha"@,
    {
        "aha"
    }

    /// The request body sent on, given the client's body as parsed JSON
    /// (or the parser's error text).
    pub fn on_request_body(&self, body: Result<Json, String>) -> (r: Result<Json, PluginError>)
        ensures
            match parsed(body) {
                Err(t) => r matches Err(e) && e.is_execute(t),
                Ok(b) => json_result(r, aha_request(b)),
            },
    {
        match body {
            Ok(b) => transform_request_body(b),
            Err(t) => Err(PluginError::ExecuteError(t)),
        }
    }

    /// The content type the response is given: `audio/wav` for voice models.
    pub fn on_response(&self, model_name: Option<&str>) -> (r: Option<&'static str>)
        ensures
            match model_name {
                Some(m) => if "voxcpm"@.is_prefix_of(m@) {
                    r matches Some(t) && t@ == "audio/wav"@
                } else {
                    r is None
                },
                None => r is None,
            },
    {
        match model_name {
            Some(m) => if starts_with(m, "voxcpm") {
                Some("audio/wav")
            } else {
                None
            },
            None => None,
        }
    }

    /// What becomes of the response body of model `model_name`, given the
    /// body as parsed JSON (or the parser's error text). Without a model name
    /// the body is left alone and not read.
    pub fn on_response_body(&self, model_name: Option<&str>, body: Result<Json, String>) -> (r: Result<BodyChange, PluginError>)
        ensures
            match model_name {
                None => r matches Ok(c) && c is Keep,
                Some(m) => match parsed(body) {
                    Err(t) => r matches Err(e) && e.is_execute(t),
                    Ok(b) => change_result(r, aha_response(m@, b)),
                },
            },
    {
        match model_name {
            None => Ok(BodyChange::Keep),
            Some(m) => match body {
                Err(t) => Err(PluginError::ExecuteError(t)),
                Ok(b) => transform_response_body(m, &b),
            },
        }
    }
}

} // verus!
