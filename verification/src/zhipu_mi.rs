//! Zhipu AI request adaptation for voice cloning (request side).
use vstd::prelude::*;
use crate::error::PluginError;
use crate::json::{field_str, str_field, Json, JsonV};
use crate::model::{parsed, Provider};
use crate::text::{join2, join3, owned};
use crate::zhipu::{plan_request_body, request_plan, FileSource, RequestPlan, RequestPlanV};

verus! {

/// The Zhipu AI request adapter plugin.
pub struct ZhiPuMI;

/// The id of an uploaded file from the upload's answer: whether its status
/// is a success, the status as displayed, its body as text, and its body as
/// parsed JSON (or the parser's error text).
pub open spec fn upload_answer_mi(success: bool, status: Seq<char>, text: Seq<char>, json: Result<JsonV, Seq<char>>) -> Result<Seq<char>, Seq<char>> {
    if !success {
        Err("Upload failed with status "@ + status + ": "@ + text)
    } else {
        match json {
            Err(t) => Err("Failed to parse response JSON: "@ + t),
            Ok(j) => match str_field(j, "id"@) {
                None => Err("File ID not found in response"@),
                Some(id) => Ok(id),
            },
        }
    }
}

impl ZhiPuMI {
    /// The plugin.
    pub fn new() -> (r: Self) {
        ZhiPuMI
    }

    /// The plugin's name.
    pub fn name(&self) -> (r: &'static str)
        ensures
            r@ == "zhipu-mi"@,
    {
        "zhipu-mi"
    }

    /// What the plugin does with a request body routed to `provider`, given
    /// as parsed JSON (or the parser's error text).
    pub fn plan(&self, provider: Option<&Provider>, body: Result<Json, String>) -> (r: Result<RequestPlan, PluginError>)
        ensures
            match request_plan(provider, parsed(body)) {
                Ok(p) => r matches Ok(x) && x.model() == p,
                Err(m) => r matches Err(e) && e.is_execute(m),
            },
    {
        plan_request_body(provider, body)
    }

    /// The file name a voice sample is uploaded under.
    pub fn upload_file_name(&self, source: &FileSource) -> (r: &'static str)
        ensures
            r@ == match source {
                FileSource::Url(_) => "uploaded_file.wav"@,
                FileSource::Bytes(_) => "decoded_file.wav"@,
            },
    {
        match source {
            FileSource::Url(_) => "uploaded_file.wav",
            FileSource::Bytes(_) => "decoded_file.wav",
        }
    }

    /// The id of an uploaded file from the upload's answer.
    pub fn uploaded_file_id(&self, success: bool, status: &str, text: &str, json: Result<Json, String>) -> (r: Result<String, PluginError>)
        ensures
            match upload_answer_mi(success, status@, text@, parsed(json)) {
                Ok(id) => r matches Ok(s) && s@ == id,
                Err(m) => r matches Err(e) && e.is_execute(m),
            },
    {
        if !success {
            return Err(PluginError::ExecuteError(join2(join3("Upload failed with status ", status, ": ").as_str(), text)));
        }
        let j = match json {
            Ok(j) => j,
            Err(t) => return Err(PluginError::ExecuteError(join2("Failed to parse response JSON: ", t.as_str()))),
        };
        match field_str(&j, "id") {
            Some(id) => Ok(id.clone()),
            None => Err(PluginError::ExecuteError(owned("File ID not found in response"))),
        }
    }
}

} // verus!
