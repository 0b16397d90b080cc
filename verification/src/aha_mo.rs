//! Aha model response conversion (the response-side half of the Aha adapter).
use vstd::prelude::*;
use vstd::string::*;
use vstd::utf8::*;
use crate::aha::{build_rmbg_response, content_url, find_content_url, rmbg_response};
use crate::codec::{decode_standard, standard_decoded};
use crate::error::PluginError;
use crate::json::{field_str, str_equal, str_field, Json, JsonV};
use crate::model::{parsed, BodyChange, BodyChangeV};
use crate::text::{owned, starts_with, strip_prefix};

verus! {

/// The Aha response conversion plugin.
pub struct AhaModelResponseWrapperPlugin;

/// The audio prefix that a voice model's audio URL carries.
pub open spec fn wav_prefix() -> Seq<char> {
    "data:audio/wav;base64,"@
}

/// The response change and the content type that comes with it.
pub open spec fn mo_response(model: Seq<char>, body: JsonV) -> Result<(BodyChangeV, Option<Seq<char>>), Seq<char>> {
    if model == "rmbg2.0"@ {
        match content_url(body, "image_url"@) {
            None => Err("image_url field is not found"@),
            Some(image) => Ok((BodyChangeV::Json(rmbg_response(image)), None)),
        }
    } else if "voxcpm"@.is_prefix_of(model) {
        match content_url(body, "audio_url"@) {
            None => Err("audio_url field is not found"@),
            Some(url) => match standard_decoded(encode_utf8(url.skip(wav_prefix().len() as int))) {
                Ok(bytes) => Ok((BodyChangeV::Bytes(bytes), Some("audio/wav"@))),
                Err(t) => Err(t),
            },
        }
    } else {
        Ok((BodyChangeV::Keep, None))
    }
}

/// The outcome for a response: nothing for a failed one; otherwise the
/// response body is read first, then the request body's model.
pub open spec fn mo_outcome(success: bool, response: Result<JsonV, Seq<char>>, request: Result<JsonV, Seq<char>>) -> Result<(BodyChangeV, Option<Seq<char>>), Seq<char>> {
    if !success {
        Ok((BodyChangeV::Keep, None))
    } else {
        match response {
            Err(t) => Err(t),
            Ok(body) => match request {
                Err(t) => Err(t),
                Ok(req) => match str_field(req, "model"@) {
                    None => Err("model field is not found"@),
                    Some(m) => mo_response(m, body),
                },
            },
        }
    }
}

/// The inputs on which the conversion panics: a voice model whose audio URL
/// lacks the `data:audio/wav;base64,` prefix.
pub open spec fn mo_panics(success: bool, response: Result<JsonV, Seq<char>>, request: Result<JsonV, Seq<char>>) -> bool {
    &&& success
    &&& response is Ok
    &&& request is Ok
    &&& str_field(request->Ok_0, "model"@) matches Some(m)
    &&& m != "rmbg2.0"@
    &&& "voxcpm"@.is_prefix_of(m)
    &&& content_url(response->Ok_0, "audio_url"@) matches Some(url)
    &&& !wav_prefix().is_prefix_of(url)
}

/// Every voice model's reply (a model name starting with `voxcpm`) becomes
/// the decoded audio after the `data:audio/wav;base64,` prefix, sent as
/// `audio/wav`.
pub proof fn law_voice_replies_become_wav(model: Seq<char>, body: JsonV, data: Seq<char>, bytes: Seq<u8>)
    requires
        "voxcpm"@.is_prefix_of(model),
        content_url(body, "audio_url"@) == Some("data:audio/wav;base64,"@ + data),
        standard_decoded(encode_utf8(data)) == Ok::<Seq<u8>, Seq<char>>(bytes),
    ensures
        mo_response(model, body) == Ok::<(BodyChangeV, Option<Seq<char>>), Seq<char>>(
            (BodyChangeV::Bytes(bytes), Some("audio/wav"@)),
        ),
{
    reveal_strlit("voxcpm");
    reveal_strlit("rmbg2.0");
    assert(model[0] == "voxcpm"@[0]);
    assert(model != "rmbg2.0"@) by {
        assert("rmbg2.0"@[0] == 'r');
    }
    let url = "data:audio/wav;base64,"@ + data;
    assert(url.skip(wav_prefix().len() as int) =~= data);
}

impl AhaModelResponseWrapperPlugin {
    /// The plugin.
    pub fn new() -> (r: Self) {
        AhaModelResponseWrapperPlugin
    }

    /// The plugin's name.
    pub fn name(&self) -> (r: &'static str)
        ensures
            r@ == "aha-mo"@,
    {
        "aha-mo"
    }

    /// Whether `execute` meets an input it cannot convert: a voice model's
    /// audio URL without the `data:audio/wav;base64,` prefix.
    pub fn cannot_convert(&self, success: bool, response: &Result<Json, String>, request: &Result<Json, String>) -> (r: bool)
        ensures
            r == mo_panics(success, parsed(*response), parsed(*request)),
    {
        if !success {
            return false;
        }
        let (body, req) = match (response, request) {
            (Ok(b), Ok(q)) => (b, q),
            _ => return false,
        };
        let model = match field_str(req, "model") {
            Some(m) => m,
            None => return false,
        };
        if str_equal(model.as_str(), "rmbg2.0") || !starts_with(model.as_str(), "voxcpm") {
            return false;
        }
        match find_content_url(body, "audio_url") {
            Some(url) => !starts_with(url.as_str(), "data:audio/wav;base64,"),
            None => false,
        }
    }

    /// What becomes of a response: `success` says whether its status is a
    /// success; the response and request bodies come as parsed JSON (or the
    /// parser's error text). The second part of the result is the content
    /// type the response is given, when it changes.
    pub fn execute(&self, success: bool, response: Result<Json, String>, request: Result<Json, String>) -> (r: Result<(BodyChange, Option<&'static str>), PluginError>)
        requires
            !mo_panics(success, parsed(response), parsed(request)),
        ensures
            match mo_outcome(success, parsed(response), parsed(request)) {
                Ok((c, t)) => r matches Ok((rc, rt)) && rc.model() == c && match t {
                    Some(t) => rt matches Some(x) && x@ == t,
                    None => rt is None,
                },
                Err(m) => r matches Err(e) && e.is_execute(m),
            },
    {
        if !success {
            return Ok((BodyChange::Keep, None));
        }
        let body = match response {
            Ok(b) => b,
            Err(t) => return Err(PluginError::ExecuteError(t)),
        };
        let req = match request {
            Ok(b) => b,
            Err(t) => return Err(PluginError::ExecuteError(t)),
        };
        let model = match field_str(&req, "model") {
            Some(m) => m,
            None => return Err(PluginError::ExecuteError(owned("model field is not found"))),
        };
        if str_equal(model.as_str(), "rmbg2.0") {
            match find_content_url(&body, "image_url") {
                None => Err(PluginError::ExecuteError(owned("image_url field is not found"))),
                Some(image) => Ok((BodyChange::Json(build_rmbg_response(image)), None)),
            }
        } else if starts_with(model.as_str(), "voxcpm") {
            match find_content_url(&body, "audio_url") {
                None => Err(PluginError::ExecuteError(owned("audio_url field is not found"))),
                Some(url) => {
                    let data = match strip_prefix(url.as_str(), "data:audio/wav;base64,") {
                        Some(d) => d,
                        None => {
                            assert(false);
                            url.as_str()
                        },
                    };
                    match decode_standard(data.as_bytes()) {
                        Ok(bytes) => Ok((BodyChange::Bytes(bytes), Some("audio/wav"))),
                        Err(t) => Err(PluginError::ExecuteError(t)),
                    }
                },
            }
        } else {
            Ok((BodyChange::Keep, None))
        }
    }
}

} // verus!
