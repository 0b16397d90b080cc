//! What model adapter plugins work with: the provider a request is routed
//! to, and what becomes of a body.
use vstd::prelude::*;
use crate::error::PluginError;
use crate::json::{Json, JsonV};

verus! {

/// The model provider a request is routed to: its API address and key.
#[derive(Debug, Clone, PartialEq, Eq)]
pub struct Provider {
    /// The provider's API address.
    pub api_url: String,
    /// The provider's API key, when it needs one.
    pub api_key: Option<String>,
}

/// What becomes of a response body.
#[derive(Debug, PartialEq, Eq)]
pub enum BodyChange {
    /// It is passed on unchanged.
    Keep,
    /// It is replaced by this JSON document.
    Json(Json),
    /// It is replaced by these bytes.
    Bytes(Vec<u8>),
}

/// Mathematical model of a `BodyChange`.
pub enum BodyChangeV {
    Keep,
    Json(JsonV),
    Bytes(Seq<u8>),
}

impl BodyChange {
    pub open spec fn model(&self) -> BodyChangeV {
        match self {
            BodyChange::Keep => BodyChangeV::Keep,
            BodyChange::Json(j) => BodyChangeV::Json(j.model()),
            BodyChange::Bytes(b) => BodyChangeV::Bytes(b@),
        }
    }
}

/// Whether an exec result and a spec result agree: the same change, or an
/// `ExecuteError` with the same text.
pub open spec fn change_result(r: Result<BodyChange, PluginError>, s: Result<BodyChangeV, Seq<char>>) -> bool {
    match s {
        Ok(v) => r matches Ok(c) && c.model() == v,
        Err(m) => r matches Err(e) && e.is_execute(m),
    }
}

/// A parsed body, or the text of the error that parsing it gave.
pub open spec fn parsed(body: Result<Json, String>) -> Result<JsonV, Seq<char>> {
    match body {
        Ok(b) => Ok(b.model()),
        Err(t) => Err(t@),
    }
}

} // verus!
