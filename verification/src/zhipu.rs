//! Adaptation for Zhipu AI voice cloning: the voice sample is uploaded as
//! a file and its id sent on; the cloned audio is downloaded by file id.
use vstd::prelude::*;
use vstd::utf8::*;
use crate::codec::{decode_standard, standard_decoded};
use crate::error::PluginError;
use crate::json::{field_str, jstr, json_result, obj, object4, str_field, text_of_string, Json, JsonV};
use crate::model::{parsed, Provider};
use crate::text::{join2, join3, decimal, ends_with, owned, starts_with, u64_to_decimal};

verus! {

/// The Zhipu AI adapter plugin.
pub struct ZhiPuPlugin;

/// Where Zhipu takes uploaded files.
pub open spec fn upload_file_url() -> Seq<char> {
    "https://open.bigmodel.cn/api/paas/v4/files"@
}

/// Where Zhipu serves the content of file `file_id`.
pub open spec fn download_file_url(file_id: Seq<char>) -> Seq<char> {
    "https://open.bigmodel.cn/api/paas/v4/files/"@ + file_id + "/content"@
}

/// Zhipu's file upload address.
pub fn upload_url() -> (r: String)
    ensures
        r@ == upload_file_url(),
{
    owned("https://open.bigmodel.cn/api/paas/v4/files")
}

/// The download address of file `file_id` (the `<file_id>` slot of the
/// address template filled in).
pub fn download_url(file_id: &str) -> (r: String)
    ensures
        r@ == download_file_url(file_id@),
{
    join3("https://open.bigmodel.cn/api/paas/v4/files/", file_id, "/content")
}

/// The `Authorization` header value for `api_key`.
pub fn bearer(api_key: &str) -> (r: String)
    ensures
        r@ == "Bearer "@ + api_key@,
{
    join2("Bearer ", api_key)
}

/// How long a voice sample or cloned audio download may take: 30 seconds.
pub fn download_timeout_ms() -> (r: u64)
    ensures
        r == 30_000,
{
    30_000
}

/// The multipart upload of a voice sample to Zhipu.
pub struct UploadRequest {
    /// Where it is sent (by `POST`).
    pub url: String,
    /// Its `Authorization` header.
    pub authorization: String,
    /// The form field that carries the file.
    pub file_field: &'static str,
    /// The file name the sample is sent under.
    pub file_name: &'static str,
    /// The sample's content type.
    pub mime_type: &'static str,
    /// The form field that names the file's purpose.
    pub purpose_field: &'static str,
    /// The purpose.
    pub purpose: &'static str,
    /// How long the upload may take, in milliseconds.
    pub timeout_ms: u64,
}

/// The upload of a voice sample with `api_key`: a multipart `POST` to the
/// file address, the sample as field `file` (`uploaded_file.wav`,
/// `application/octet-stream`) and `purpose` set to `voice-clone-input`,
/// within 60 seconds.
pub fn upload_request(api_key: &str) -> (r: UploadRequest)
    ensures
        r.url@ == upload_file_url(),
        r.authorization@ == "Bearer "@ + api_key@,
        r.file_field@ == "file"@,
        r.file_name@ == "uploaded_file.wav"@,
        r.mime_type@ == "application/octet-stream"@,
        r.purpose_field@ == "purpose"@,
        r.purpose@ == "voice-clone-input"@,
        r.timeout_ms == 60_000,
{
    UploadRequest {
        url: upload_url(),
        authorization: bearer(api_key),
        file_field: "file",
        file_name: "uploaded_file.wav",
        mime_type: "application/octet-stream",
        purpose_field: "purpose",
        purpose: "voice-clone-input",
        timeout_ms: 60_000,
    }
}

/// What the plugin does with a request body.
#[derive(Debug, PartialEq, Eq)]
pub enum RequestPlan {
    /// Send this body on as it is.
    Forward(Json),
    /// Upload the voice sample `voice` with `api_key`, then build the cloning
    /// request from `body`.
    CloneVoice { voice: String, api_key: String, body: Json },
}

/// Mathematical model of a `RequestPlan`.
pub enum RequestPlanV {
    Forward(JsonV),
    CloneVoice { voice: Seq<char>, api_key: Seq<char>, body: JsonV },
}

impl RequestPlan {
    pub open spec fn model(&self) -> RequestPlanV {
        match self {
            RequestPlan::Forward(b) => RequestPlanV::Forward(b.model()),
            RequestPlan::CloneVoice { voice, api_key, body } => RequestPlanV::CloneVoice {
                voice: voice@,
                api_key: api_key@,
                body: body.model(),
            },
        }
    }
}

/// Whether `url` is Zhipu's voice cloning endpoint.
pub open spec fn clone_endpoint(url: Seq<char>) -> bool {
    "/voice/clone"@.is_suffix_of(url)
}

/// The API key of a provider, when it has one.
pub open spec fn key_of(provider: &Provider) -> Option<Seq<char>> {
    match provider.api_key {
        Some(k) => Some(k@),
        None => None,
    }
}

/// What the plugin does with a request body routed to `provider`.
pub open spec fn request_plan(provider: Option<&Provider>, body: Result<JsonV, Seq<char>>) -> Result<RequestPlanV, Seq<char>> {
    match provider {
        None => Err("provider is not found"@),
        Some(p) => match body {
            Err(t) => Err(t),
            Ok(b) => if clone_endpoint(p.api_url@) {
                match str_field(b, "voice"@) {
                    None => Err("voice field is not found"@),
                    Some(voice) => match key_of(p) {
                        None => Err("api_key is not found"@),
                        Some(k) => Ok(RequestPlanV::CloneVoice { voice, api_key: k, body: b }),
                    },
                }
            } else {
                Ok(RequestPlanV::Forward(b))
            },
        },
    }
}

/// What the plugin does with a request body routed to `provider`, given as
/// parsed JSON (or the parser's error text).
pub fn plan_request_body(provider: Option<&Provider>, body: Result<Json, String>) -> (r: Result<RequestPlan, PluginError>)
    ensures
        match request_plan(provider, parsed(body)) {
            Ok(p) => r matches Ok(x) && x.model() == p,
            Err(m) => r matches Err(e) && e.is_execute(m),
        },
{
    let p = match provider {
        Some(p) => p,
        None => return Err(PluginError::ExecuteError(owned("provider is not found"))),
    };
    let b = match body {
        Ok(b) => b,
        Err(t) => return Err(PluginError::ExecuteError(t)),
    };
    if ends_with(p.api_url.as_str(), "/voice/clone") {
        let voice = match field_str(&b, "voice") {
            Some(v) => v.clone(),
            None => return Err(PluginError::ExecuteError(owned("voice field is not found"))),
        };
        let api_key = match &p.api_key {
            Some(k) => k.clone(),
            None => return Err(PluginError::ExecuteError(owned("api_key is not found"))),
        };
        Ok(RequestPlan::CloneVoice { voice, api_key, body: b })
    } else {
        Ok(RequestPlan::Forward(b))
    }
}

/// Where a voice sample comes from.
#[derive(Debug, Clone, PartialEq, Eq)]
pub enum FileSource {
    /// It is downloaded from this address.
    Url(String),
    /// It is these bytes (decoded from base64).
    Bytes(Vec<u8>),
}

/// Whether a voice sample is given as an HTTP(S) address.
pub open spec fn is_http_url(file: Seq<char>) -> bool {
    "http://"@.is_prefix_of(file) || "https://"@.is_prefix_of(file)
}

/// Where the voice sample `file` comes from: an address, or base64 bytes.
pub fn file_source(file: &str) -> (r: Result<FileSource, PluginError>)
    ensures
        if is_http_url(file@) {
            r matches Ok(FileSource::Url(u)) && u@ == file@
        } else {
            match standard_decoded(encode_utf8(file@)) {
                Ok(b) => r matches Ok(FileSource::Bytes(x)) && x@ == b,
                Err(t) => r matches Err(e) && e.is_execute("Failed to decode base64: "@ + t),
            }
        },
{
    if starts_with(file, "http://") || starts_with(file, "https://") {
        Ok(FileSource::Url(owned(file)))
    } else {
        match decode_standard(file.as_bytes()) {
            Ok(b) => Ok(FileSource::Bytes(b)),
            Err(t) => Err(PluginError::ExecuteError(join2("Failed to decode base64: ", t.as_str()))),
        }
    }
}

/// The downloaded voice sample, when the download answered 200.
pub fn downloaded(status: u16, body: Vec<u8>) -> (r: Result<Vec<u8>, PluginError>)
    ensures
        if status == 200 {
            r matches Ok(b) && b@ == body@
        } else {
            r matches Err(e) && e.is_execute("Download failed with status "@ + decimal(status as nat))
        },
{
    if status != 200 {
        let s = u64_to_decimal(status as u64);
        return Err(PluginError::ExecuteError(join2("Download failed with status ", s.as_str())));
    }
    Ok(body)
}

/// The id of an uploaded file from the upload's answer: its status, its body
/// as text (invalid UTF-8 replaced), and its body as parsed JSON (or the
/// parser's error text).
pub open spec fn upload_answer(status: u16, text: Seq<char>, json: Result<JsonV, Seq<char>>) -> Result<Seq<char>, Seq<char>> {
    if status != 200 {
        Err("Upload failed with status "@ + decimal(status as nat) + ": "@ + text)
    } else {
        match json {
            Err(t) => Err("Failed to parse response JSON: "@ + t),
            Ok(j) => match str_field(j, "id"@) {
                None => Err("File ID not found in response"@),
                Some(id) => Ok(id),
            },
        }
    }
}

/// The id of an uploaded file from the upload's answer.
pub fn uploaded_file_id(status: u16, text: &str, json: Result<Json, String>) -> (r: Result<String, PluginError>)
    ensures
        match upload_answer(status, text@, parsed(json)) {
            Ok(id) => r matches Ok(s) && s@ == id,
            Err(m) => r matches Err(e) && e.is_execute(m),
        },
{
    if status != 200 {
        let s = u64_to_decimal(status as u64);
        return Err(PluginError::ExecuteError(join2(join3("Upload failed with status ", s.as_str(), ": ").as_str(), text)));
    }
    let j = match json {
        Ok(j) => j,
        Err(t) => return Err(PluginError::ExecuteError(join2("Failed to parse response JSON: ", t.as_str()))),
    };
    match field_str(&j, "id") {
        Some(id) => Ok(id.clone()),
        None => Err(PluginError::ExecuteError(owned("File ID not found in response"))),
    }
}

/// A lower-case hexadecimal digit.
pub open spec fn lower_hex(c: char) -> bool {
    ('0' <= c && c <= '9') || ('a' <= c && c <= 'f')
}

/// The text of a random (version 4, RFC 4122 variant) UUID in hyphenated
/// lower-case form: 32 hex digits in groups of 8-4-4-4-12, the version
/// digit `4` and a variant digit of `8`, `9`, `a` or `b`.
pub open spec fn uuid_v4_text(s: Seq<char>) -> bool {
    &&& s.len() == 36
    &&& forall|i: int| 0 <= i < 36 ==> if i == 8 || i == 13 || i == 18 || i == 23 {
        s[i] == '-'
    } else {
        lower_hex(#[trigger] s[i])
    }
    &&& s[14] == '4'
    &&& (s[19] == '8' || s[19] == '9' || s[19] == 'a' || s[19] == 'b')
}

/// One text of that form, all of whose free digits are zero.
pub open spec fn sample_uuid() -> Seq<char> {
    Seq::new(36, |i: int| if i == 8 || i == 13 || i == 18 || i == 23 {
        '-'
    } else if i == 14 {
        '4'
    } else if i == 19 {
        '8'
    } else {
        '0'
    })
}

/// A fresh random voice name: `uuid::Uuid::new_v4().to_string()`. The
/// source masks in version 4 and the RFC 4122 variant and formats the
/// UUID hyphenated in lower case; the random digits are not stated.
#[verifier::external_body]
fn new_voice_name() -> (r: String)
    ensures
        uuid_v4_text(r@),
{
    uuid::Uuid::new_v4().to_string()
}

/// The voice cloning request for uploaded file `file_id`, named `voice_name`.
pub open spec fn clone_request(body: JsonV, file_id: Seq<char>, voice_name: Seq<char>) -> Result<JsonV, Seq<char>> {
    match str_field(body, "model"@) {
        None => Err("model field is not found"@),
        Some(model) => match str_field(body, "input"@) {
            None => Err("input field is not found"@),
            Some(input) => Ok(obj(seq![
                ("model"@, jstr(model)),
                ("voice_name"@, jstr(voice_name)),
                ("input"@, jstr(input)),
                ("file_id"@, jstr(file_id)),
            ])),
        },
    }
}

/// The voice cloning request for uploaded file `file_id`, under a fresh
/// random voice name (a version 4 UUID).
pub fn build_clone_request(body: &Json, file_id: &String) -> (r: Result<Json, PluginError>)
    ensures
        exists|name: Seq<char>| uuid_v4_text(name) && json_result(r, #[trigger] clone_request(body.model(), file_id@, name)),
{
    let model = match field_str(body, "model") {
        Some(m) => m,
        None => {
            let e = PluginError::ExecuteError(owned("model field is not found"));
            assert(json_result(Err::<Json, PluginError>(e), clone_request(body.model(), file_id@, sample_uuid())));
            return Err(e);
        },
    };
    let input = match field_str(body, "input") {
        Some(i) => i,
        None => {
            let e = PluginError::ExecuteError(owned("input field is not found"));
            assert(json_result(Err::<Json, PluginError>(e), clone_request(body.model(), file_id@, sample_uuid())));
            return Err(e);
        },
    };
    let name = new_voice_name();
    let r = object4(
        "model",
        text_of_string(model),
        "voice_name",
        Json::Str(name),
        "input",
        text_of_string(input),
        "file_id",
        text_of_string(file_id),
    );
    assert(json_result(Ok::<Json, PluginError>(r), clone_request(body.model(), file_id@, name@)));
    Ok(r)
}

/// What the plugin does with a response body: download file `file_id` with
/// `api_key` in its place, or keep it.
pub open spec fn response_plan(provider: Option<&Provider>, body: Result<JsonV, Seq<char>>) -> Result<Option<(Seq<char>, Seq<char>)>, Seq<char>> {
    match provider {
        None => Err("provider is not found"@),
        Some(p) => match body {
            Err(t) => Err(t),
            Ok(b) => if p.api_url@.len() > 0 {
                match str_field(b, "file_id"@) {
                    None => Err("file_id field is not found"@),
                    Some(id) => match key_of(p) {
                        None => Err("api_key is not found"@),
                        Some(k) => Ok(Some((id, k))),
                    },
                }
            } else {
                Ok(None)
            },
        },
    }
}

/// What the plugin does with a response body routed from `provider`, given
/// as parsed JSON (or the parser's error text): the file id and API key to
/// download its replacement with, or nothing to do.
pub fn plan_response_body(provider: Option<&Provider>, body: Result<Json, String>) -> (r: Result<Option<(String, String)>, PluginError>)
    ensures
        match response_plan(provider, parsed(body)) {
            Ok(Some((id, k))) => r matches Ok(Some((x, y))) && x@ == id && y@ == k,
            Ok(None) => r matches Ok(None),
            Err(m) => r matches Err(e) && e.is_execute(m),
        },
{
    let p = match provider {
        Some(p) => p,
        None => return Err(PluginError::ExecuteError(owned("provider is not found"))),
    };
    let b = match body {
        Ok(b) => b,
        Err(t) => return Err(PluginError::ExecuteError(t)),
    };
    if p.api_url.as_str().is_empty() {
        return Ok(None);
    }
    let id = match field_str(&b, "file_id") {
        Some(id) => id.clone(),
        None => return Err(PluginError::ExecuteError(owned("file_id field is not found"))),
    };
    let key = match &p.api_key {
        Some(k) => k.clone(),
        None => return Err(PluginError::ExecuteError(owned("api_key is not found"))),
    };
    Ok(Some((id, key)))
}

/// Only a request routed to the voice cloning endpoint uploads anything:
/// without a provider the request is refused, and a body routed elsewhere
/// is sent on as it is.
pub proof fn law_only_clone_requests_upload(provider: Option<&Provider>, body: JsonV)
    ensures
        provider is None ==> request_plan(provider, Ok(body)) == Err::<RequestPlanV, Seq<char>>("provider is not found"@),
        provider matches Some(p) && !"/voice/clone"@.is_suffix_of(p.api_url@) ==> request_plan(provider, Ok(body))
            == Ok::<RequestPlanV, Seq<char>>(RequestPlanV::Forward(body)),
{
}

/// A body routed to an address ending in `/voice/clone` that names a voice
/// sample, with a provider key, is planned as the upload of that sample
/// with that key.
pub proof fn law_clone_endpoint_uploads_voice(provider: &Provider, body: JsonV, voice: Seq<char>, key: String)
    requires
        "/voice/clone"@.is_suffix_of(provider.api_url@),
        str_field(body, "voice"@) == Some(voice),
        provider.api_key == Some(key),
    ensures
        request_plan(Some(provider), Ok(body))
            == Ok::<RequestPlanV, Seq<char>>(RequestPlanV::CloneVoice { voice, api_key: key@, body }),
{
}

impl ZhiPuPlugin {
    /// The plugin.
    pub fn new() -> (r: Self) {
        ZhiPuPlugin
    }

    /// The plugin's name.
    pub fn name(&self) -> (r: &'static str)
        ensures
            r@ == "zhipu"@,
    {
        "zhipu"
    }

    /// The content type the response is given: `audio/wav` whenever the
    /// provider has an API address.
    pub fn on_response(&self, provider: Option<&Provider>) -> (r: Option<&'static str>)
        ensures
            match provider {
                Some(p) => if p.api_url@.len() > 0 {
                    r matches Some(t) && t@ == "audio/wav"@
                } else {
                    r is None
                },
                None => r is None,
            },
    {
        match provider {
            Some(p) => if p.api_url.as_str().is_empty() {
                None
            } else {
                Some("audio/wav")
            },
            None => None,
        }
    }
}

} // verus!
