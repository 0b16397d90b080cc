//! Verified core of the aiway gateway plugins.
//!
//! Each plugin's decisions live here with their contracts; the gateway
//! plumbing (reading the context, parsing and writing JSON, network calls)
//! stays outside.
pub mod aha;
pub mod aha_mi;
pub mod aha_mo;
pub mod aha_model_request_wrapper;
pub mod bailian;
pub mod bailian_model_request_wrapper;
pub mod bailian_model_response_wrapper;
pub mod clock;
pub mod codec;
pub mod demo;
pub mod echo;
pub mod error;
pub mod header_operator;
pub mod headers;
pub mod http_demo;
pub mod json;
pub mod json_text;
pub mod jwt_validator;
pub mod model;
pub mod rate_limiter;
pub mod rewrite_path;
pub mod text;
pub mod volcengine;
pub mod zhipu;
pub mod zhipu_mi;
pub mod zhipu_mo;
