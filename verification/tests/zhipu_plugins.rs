use aiway_plugins::zhipu::{download_timeout_ms, upload_request};
use aiway_plugins::error::PluginError;
use aiway_plugins::json::Json;
use aiway_plugins::model::Provider;
use aiway_plugins::zhipu::{
    bearer, build_clone_request, download_url, downloaded, file_source, plan_request_body,
    plan_response_body, upload_url, uploaded_file_id, FileSource, RequestPlan, ZhiPuPlugin,
};
use aiway_plugins::zhipu_mi::ZhiPuMI;
use aiway_plugins::zhipu_mo::ZhiPuMO;

fn err(m: &str) -> PluginError {
    PluginError::ExecuteError(m.to_string())
}

fn s(v: &str) -> Json {
    Json::Str(v.to_string())
}

fn object(members: Vec<(&str, Json)>) -> Json {
    Json::Object(members.into_iter().map(|(k, v)| (k.to_string(), v)).collect())
}

fn provider(url: &str, key: Option<&str>) -> Provider {
    Provider { api_url: url.to_string(), api_key: key.map(|k| k.to_string()) }
}

fn clone_body() -> Json {
    object(vec![("model", s("glm-tts")), ("input", s("hi")), ("voice", s("https://x/a.wav"))])
}

#[test]
fn zhipu_addresses() {
    assert_eq!(upload_url(), "https://open.bigmodel.cn/api/paas/v4/files");
    assert_eq!(download_url("f-1.wav"), "https://open.bigmodel.cn/api/paas/v4/files/f-1.wav/content");
    assert_eq!(bearer("k"), "Bearer k");
    assert_eq!(ZhiPuPlugin::new().name(), "zhipu");
    assert_eq!(ZhiPuMI::new().name(), "zhipu-mi");
    assert_eq!(ZhiPuMO::new().name(), "zhipu-mo");
}

#[test]
fn zhipu_request_plan() {
    let clone = provider("https://open.bigmodel.cn/api/paas/v4/voice/clone", Some("key"));
    match plan_request_body(Some(&clone), Ok(clone_body())) {
        Ok(RequestPlan::CloneVoice { voice, api_key, body }) => {
            assert_eq!(voice, "https://x/a.wav");
            assert_eq!(api_key, "key");
            assert_eq!(body, clone_body());
        },
        other => panic!("unexpected {:?}", other),
    }
    let chat = provider("https://open.bigmodel.cn/api/paas/v4/chat", None);
    assert_eq!(plan_request_body(Some(&chat), Ok(clone_body())), Ok(RequestPlan::Forward(clone_body())));
    assert_eq!(plan_request_body(None, Ok(clone_body())), Err(err("provider is not found")));
    let no_key = provider("https://x/voice/clone", None);
    assert_eq!(plan_request_body(Some(&no_key), Ok(clone_body())), Err(err("api_key is not found")));
    assert_eq!(plan_request_body(Some(&no_key), Ok(object(vec![]))), Err(err("voice field is not found")));
    assert_eq!(plan_request_body(Some(&no_key), Err("bad".to_string())), Err(err("bad")));
}

#[test]
fn zhipu_file_sources() {
    assert_eq!(file_source("https://x/a.wav"), Ok(FileSource::Url("https://x/a.wav".to_string())));
    assert_eq!(file_source("http://x/a.wav"), Ok(FileSource::Url("http://x/a.wav".to_string())));
    assert_eq!(file_source("QUJD"), Ok(FileSource::Bytes(b"ABC".to_vec())));
    match file_source("not base64!") {
        Err(PluginError::ExecuteError(m)) => assert!(m.starts_with("Failed to decode base64: ")),
        other => panic!("unexpected {:?}", other),
    }
}

#[test]
fn zhipu_download_and_upload_answers() {
    assert_eq!(downloaded(200, vec![1, 2]), Ok(vec![1, 2]));
    assert_eq!(downloaded(404, vec![]), Err(err("Download failed with status 404")));
    let ok = object(vec![("id", s("file-9"))]);
    assert_eq!(uploaded_file_id(200, "{}", Ok(ok)), Ok("file-9".to_string()));
    assert_eq!(uploaded_file_id(500, "oops", Err("x".to_string())), Err(err("Upload failed with status 500: oops")));
    assert_eq!(uploaded_file_id(200, "", Err("eof".to_string())), Err(err("Failed to parse response JSON: eof")));
    assert_eq!(uploaded_file_id(200, "{}", Ok(object(vec![]))), Err(err("File ID not found in response")));
}

#[test]
fn zhipu_clone_request() {
    let r = build_clone_request(&clone_body(), &"file-9".to_string()).unwrap();
    let name = match r.get("voice_name") {
        Some(Json::Str(n)) => n.clone(),
        other => panic!("unexpected {:?}", other),
    };
    assert_eq!(name.len(), 36);
    let chars: Vec<char> = name.chars().collect();
    for (i, c) in chars.iter().enumerate() {
        if [8, 13, 18, 23].contains(&i) {
            assert_eq!(*c, '-');
        } else {
            assert!(c.is_ascii_digit() || ('a'..='f').contains(c));
        }
    }
    assert_eq!(chars[14], '4');
    assert!(['8', '9', 'a', 'b'].contains(&chars[19]));
    let expected = object(vec![("model", s("glm-tts")), ("voice_name", s(&name)), ("input", s("hi")), ("file_id", s("file-9"))]);
    assert_eq!(r, expected);
    assert_eq!(build_clone_request(&object(vec![("model", s("m"))]), &"f".to_string()), Err(err("input field is not found")));
}

#[test]
fn zhipu_response_side() {
    let p = ZhiPuPlugin::new();
    let pr = provider("https://x/voice/clone", Some("key"));
    assert_eq!(p.on_response(Some(&pr)), Some("audio/wav"));
    assert_eq!(p.on_response(Some(&provider("", None))), None);
    assert_eq!(p.on_response(None), None);
    let body = || Ok(object(vec![("file_id", s("f.wav"))]));
    assert_eq!(plan_response_body(Some(&pr), body()), Ok(Some(("f.wav".to_string(), "key".to_string()))));
    assert_eq!(plan_response_body(Some(&provider("", None)), body()), Ok(None));
    assert_eq!(plan_response_body(Some(&pr), Ok(object(vec![]))), Err(err("file_id field is not found")));
    assert_eq!(plan_response_body(Some(&provider("u", None)), body()), Err(err("api_key is not found")));
    assert_eq!(plan_response_body(None, body()), Err(err("provider is not found")));
}

#[test]
fn zhipu_mi_upload_answers() {
    let p = ZhiPuMI::new();
    assert_eq!(p.upload_file_name(&FileSource::Url("u".to_string())), "uploaded_file.wav");
    assert_eq!(p.upload_file_name(&FileSource::Bytes(vec![])), "decoded_file.wav");
    assert_eq!(p.uploaded_file_id(true, "200 OK", "{}", Ok(object(vec![("id", s("f"))]))), Ok("f".to_string()));
    assert_eq!(
        p.uploaded_file_id(false, "400 Bad Request", "no", Err("x".to_string())),
        Err(err("Upload failed with status 400 Bad Request: no"))
    );
    let pr = provider("https://x/chat", None);
    assert_eq!(p.plan(Some(&pr), Ok(clone_body())), Ok(RequestPlan::Forward(clone_body())));
}

#[test]
fn zhipu_mo_plan() {
    let p = ZhiPuMO::new();
    let pr = provider("https://x", Some("k"));
    assert_eq!(p.plan(false, None, Err("x".to_string())), Ok(None));
    assert_eq!(p.plan(true, Some(&pr), Ok(object(vec![("file_id", s("f"))]))), Ok(Some(("f".to_string(), "k".to_string()))));
    assert_eq!(p.plan(true, None, Ok(object(vec![]))), Err(err("provider is not found")));
}

#[test]
fn zhipu_requests_elsewhere_are_forwarded() {
    let pr = provider("https://x/chat", Some("key"));
    assert_eq!(plan_request_body(Some(&pr), Ok(clone_body())), Ok(RequestPlan::Forward(clone_body())));
    assert_eq!(plan_request_body(None, Ok(clone_body())), Err(err("provider is not found")));
}

#[test]
fn zhipu_upload_request_shape() {
    let u = upload_request("key-1");
    assert_eq!(u.url, "https://open.bigmodel.cn/api/paas/v4/files");
    assert_eq!(u.authorization, "Bearer key-1");
    assert_eq!((u.file_field, u.file_name, u.mime_type), ("file", "uploaded_file.wav", "application/octet-stream"));
    assert_eq!((u.purpose_field, u.purpose), ("purpose", "voice-clone-input"));
    assert_eq!(u.timeout_ms, 60_000);
    assert_eq!(download_timeout_ms(), 30_000);
}
