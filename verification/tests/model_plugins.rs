use aiway_plugins::aha::AhaPlugin;
use aiway_plugins::aha_mi::AhaModelRequestWrapperPlugin as AhaMi;
use aiway_plugins::aha_mo::AhaModelResponseWrapperPlugin;
use aiway_plugins::aha_model_request_wrapper::AhaModelRequestWrapperPlugin as AhaVoice;
use aiway_plugins::bailian::BaiLianModelWrapper;
use aiway_plugins::bailian_model_request_wrapper::BaiLianModelRequestWrapper;
use aiway_plugins::bailian_model_response_wrapper::BaiLianModelResponseWrapper;
use aiway_plugins::error::PluginError;
use aiway_plugins::json::{Json, JsonNumber};
use aiway_plugins::model::{BodyChange, Provider};

fn err(m: &str) -> PluginError {
    PluginError::ExecuteError(m.to_string())
}

fn s(v: &str) -> Json {
    Json::Str(v.to_string())
}

fn object(members: Vec<(&str, Json)>) -> Json {
    Json::Object(members.into_iter().map(|(k, v)| (k.to_string(), v)).collect())
}

fn array(items: Vec<Json>) -> Json {
    Json::Array(items)
}

fn chat_reply(kind: &str, url: &str) -> Json {
    object(vec![(
        "choices",
        array(vec![object(vec![(
            "message",
            object(vec![("content", array(vec![object(vec![(kind, object(vec![("url", s(url))]))])]))]),
        )])]),
    )])
}

fn voice_request(model: &str) -> Json {
    object(vec![
        ("model", s(model)),
        (
            "messages",
            array(vec![object(vec![
                ("role", s("user")),
                (
                    "content",
                    array(vec![
                        object(vec![("type", s("audio")), ("audio_url", object(vec![("url", s("https://v/sample.wav"))]))]),
                        object(vec![("type", s("text")), ("text", s("hello"))]),
                    ]),
                ),
            ])]),
        ),
        ("metadata", object(vec![("prompt_text", s("sample words"))])),
    ])
}

fn voice_body(model: &str) -> Json {
    object(vec![
        ("model", s(model)),
        ("input", s("hello")),
        ("voice", s("https://v/sample.wav")),
        ("voice_text", s("sample words")),
    ])
}

#[test]
fn aha_passes_known_chat_models_through() {
    let p = AhaPlugin::new();
    for m in ["minicpm4-x", "qwen2.5vl-7b", "qwen3", "deepseek-ocr", "hunyuan-ocr", "paddleocr-vl"] {
        let body = object(vec![("model", s(m)), ("messages", array(vec![]))]);
        let expected = object(vec![("model", s(m)), ("messages", array(vec![]))]);
        assert_eq!(p.on_request_body(Ok(body)), Ok(expected));
    }
}

#[test]
fn aha_background_removal_request() {
    let p = AhaPlugin::new();
    let body = object(vec![("model", s("rmbg2.0")), ("image", s("data:image/png;base64,AAAA"))]);
    let expected = object(vec![
        ("model", s("rmbg2.0")),
        (
            "messages",
            array(vec![object(vec![
                ("role", s("user")),
                (
                    "content",
                    array(vec![object(vec![
                        ("type", s("image")),
                        ("image_url", object(vec![("url", s("data:image/png;base64,AAAA"))])),
                    ])]),
                ),
            ])]),
        ),
    ]);
    assert_eq!(p.on_request_body(Ok(body)), Ok(expected));
    let body = object(vec![("model", s("rmbg2.0"))]);
    assert_eq!(p.on_request_body(Ok(body)), Err(err("input field is not found")));
}

#[test]
fn aha_voice_request() {
    let p = AhaPlugin::new();
    assert_eq!(p.on_request_body(Ok(voice_body("voxcpm-1.5"))), Ok(voice_request("voxcpm-1.5")));
    let body = object(vec![("model", s("voxcpm")), ("input", s("hello"))]);
    assert_eq!(p.on_request_body(Ok(body)), Err(err("voice field is not found")));
}

#[test]
fn aha_other_models_get_empty_body() {
    let p = AhaPlugin::new();
    assert_eq!(p.on_request_body(Ok(object(vec![("model", s("glm-asr-nano-2512"))]))), Ok(object(vec![])));
    assert_eq!(p.on_request_body(Ok(object(vec![("model", s("unknown"))]))), Ok(object(vec![])));
    assert_eq!(p.on_request_body(Ok(object(vec![]))), Err(err("model field is not found")));
    assert_eq!(p.on_request_body(Err("bad json".to_string())), Err(err("bad json")));
    assert_eq!(p.name(), "aha");
}

#[test]
fn aha_response_content_type() {
    let p = AhaPlugin::new();
    assert_eq!(p.on_response(Some("voxcpm-1.5")), Some("audio/wav"));
    assert_eq!(p.on_response(Some("rmbg2.0")), None);
    assert_eq!(p.on_response(None), None);
}

#[test]
fn aha_response_bodies() {
    let p = AhaPlugin::new();
    let expected = object(vec![(
        "data",
        array(vec![object(vec![("b64_json", s("QUJD")), ("revised_prompt", Json::Null)])]),
    )]);
    assert_eq!(p.on_response_body(Some("rmbg2.0"), Ok(chat_reply("image_url", "QUJD"))), Ok(BodyChange::Json(expected)));
    assert_eq!(
        p.on_response_body(Some("voxcpm"), Ok(chat_reply("audio_url", "data:audio/wav;base64,QUJD"))),
        Ok(BodyChange::Bytes(b"ABC".to_vec()))
    );
    assert_eq!(p.on_response_body(Some("voxcpm"), Ok(chat_reply("audio_url", "QUJD"))), Ok(BodyChange::Bytes(b"ABC".to_vec())));
    assert!(matches!(p.on_response_body(Some("voxcpm"), Ok(chat_reply("audio_url", "Q"))), Err(PluginError::ExecuteError(_))));
    assert_eq!(p.on_response_body(Some("voxcpm"), Ok(object(vec![]))), Err(err("audio_url field is not found")));
    assert_eq!(p.on_response_body(Some("rmbg2.0"), Ok(object(vec![]))), Err(err("image_url field is not found")));
    assert_eq!(p.on_response_body(Some("qwen3"), Ok(object(vec![]))), Ok(BodyChange::Keep));
    assert_eq!(p.on_response_body(None, Err("unparsed".to_string())), Ok(BodyChange::Keep));
}

#[test]
fn aha_mi_matches_aha_requests() {
    let p = AhaMi::new();
    assert_eq!(p.execute(Ok(voice_body("voxcpm"))), Ok(voice_request("voxcpm")));
    assert_eq!(p.execute(Ok(object(vec![("model", s("x"))]))), Ok(object(vec![])));
    assert_eq!(p.name(), "aha-mi");
}

#[test]
fn aha_voice_wrapper_builds_voice_requests() {
    let p = AhaVoice::new();
    assert_eq!(p.execute(Ok(voice_body("any-model"))), Ok(voice_request("any-model")));
    assert_eq!(p.execute(Ok(object(vec![("input", s("x"))]))), Err(err("model field is not found")));
    let body = object(vec![("model", s("m")), ("input", s("i")), ("voice", s("v"))]);
    assert_eq!(p.execute(Ok(body)), Err(err("voice_text field is not found")));
    assert_eq!(p.name(), "AhaModelRequestWrapper");
}

#[test]
fn aha_mo_response_conversion() {
    let p = AhaModelResponseWrapperPlugin::new();
    let req = |m: &str| Ok(object(vec![("model", s(m))]));
    assert_eq!(p.execute(false, Err("x".to_string()), Err("y".to_string())), Ok((BodyChange::Keep, None)));
    assert_eq!(
        p.execute(true, Ok(chat_reply("audio_url", "data:audio/wav;base64,QUJD")), req("voxcpm")),
        Ok((BodyChange::Bytes(b"ABC".to_vec()), Some("audio/wav")))
    );
    let expected = object(vec![(
        "data",
        array(vec![object(vec![("b64_json", s("QUJD")), ("revised_prompt", Json::Null)])]),
    )]);
    assert_eq!(p.execute(true, Ok(chat_reply("image_url", "QUJD")), req("rmbg2.0")), Ok((BodyChange::Json(expected), None)));
    assert_eq!(p.execute(true, Ok(object(vec![])), Ok(object(vec![]))), Err(err("model field is not found")));
    assert_eq!(p.execute(true, Err("resp".to_string()), Err("req".to_string())), Err(err("resp")));
    assert_eq!(p.name(), "aha-mo");
}

#[test]
fn aha_mo_flags_audio_urls_it_cannot_convert() {
    let p = AhaModelResponseWrapperPlugin::new();
    let req = |m: &str| Ok(object(vec![("model", s(m))]));
    let bare = Ok(chat_reply("audio_url", "QUJD"));
    let prefixed = Ok(chat_reply("audio_url", "data:audio/wav;base64,QUJD"));
    assert!(p.cannot_convert(true, &bare, &req("voxcpm1.5")));
    assert!(!p.cannot_convert(true, &prefixed, &req("voxcpm1.5")));
    assert!(!p.cannot_convert(false, &bare, &req("voxcpm1.5")));
    assert!(!p.cannot_convert(true, &bare, &req("rmbg2.0")));
    assert!(!p.cannot_convert(true, &Ok(object(vec![])), &req("voxcpm")));
}

fn provider(url: &str, key: Option<&str>) -> Provider {
    Provider { api_url: url.to_string(), api_key: key.map(|k| k.to_string()) }
}

const IMAGE_ENDPOINT: &str = "https://dashscope.aliyuncs.com/api/v1/services/aigc/multimodal-generation/generation";

fn image_request() -> Json {
    object(vec![
        ("model", s("qwen-image")),
        (
            "input",
            object(vec![(
                "messages",
                array(vec![object(vec![
                    ("role", s("user")),
                    ("content", array(vec![object(vec![("text", s("a cat"))])])),
                ])]),
            )]),
        ),
    ])
}

#[test]
fn bailian_text_to_image_request() {
    let p = BaiLianModelWrapper::new();
    let body = || Ok(object(vec![("model", s("qwen-image")), ("prompt", s("a cat"))]));
    let pr = provider(IMAGE_ENDPOINT, None);
    assert_eq!(p.on_request_body(Some(&pr), body()), Ok(BodyChange::Json(image_request())));
    let other = provider("https://x/v1/chat", None);
    assert_eq!(p.on_request_body(Some(&other), body()), Ok(BodyChange::Keep));
    assert_eq!(p.on_request_body(None, body()), Err(err("provider is not found")));
    assert_eq!(
        p.on_request_body(Some(&pr), Ok(object(vec![("model", s("m"))]))),
        Err(err("prompt field is not found"))
    );
    assert_eq!(p.name(), "BaiLian");
}

#[test]
fn bailian_request_wrapper_returns_converted_request() {
    let p = BaiLianModelRequestWrapper::new();
    let pr = provider(IMAGE_ENDPOINT, None);
    let body = || Ok(object(vec![("model", s("qwen-image")), ("prompt", s("a cat"))]));
    assert_eq!(p.execute(Ok(Some(&pr)), body()), Ok(image_request()));
    let other = provider("https://x", None);
    assert_eq!(
        p.execute(Ok(Some(&other)), body()),
        Ok(object(vec![("model", s("qwen-image")), ("prompt", s("a cat"))]))
    );
    assert_eq!(p.execute(Ok(None), body()), Err(err("provider is not found")));
    assert_eq!(p.execute(Err("state".to_string()), body()), Err(err("state")));
}

#[test]
fn bailian_response_wrapper_builds_image_response() {
    let p = BaiLianModelResponseWrapper::new();
    let pr = provider(IMAGE_ENDPOINT, None);
    let reply = || {
        Ok(object(vec![(
            "output",
            object(vec![(
                "choices",
                array(vec![object(vec![(
                    "message",
                    object(vec![("content", array(vec![object(vec![("image", s("https://img/1.png"))])]))]),
                )])]),
            )]),
        )]))
    };
    let expected = object(vec![
        ("created", Json::Number(JsonNumber::PosInt(1_700_000_000))),
        ("data", array(vec![object(vec![("url", s("https://img/1.png"))])])),
    ]);
    assert_eq!(p.execute_at(Ok(Some(&pr)), reply(), Ok(1_700_000_000)), Ok(expected));
    let truncated = object(vec![
        ("created", Json::Number(JsonNumber::PosInt(5))),
        ("data", array(vec![object(vec![("url", s("https://img/1.png"))])])),
    ]);
    assert_eq!(p.execute_at(Ok(Some(&pr)), reply(), Ok((1u64 << 32) + 5)), Ok(truncated));
    assert_eq!(p.execute_at(Ok(Some(&pr)), Ok(object(vec![])), Ok(0)), Err(err("image field is not found")));
    assert_eq!(p.execute_at(Ok(Some(&pr)), reply(), Err("clock".to_string())), Err(err("clock")));
    assert!(p.execute(Ok(Some(&pr)), reply()).is_ok());
    assert_eq!(p.name(), "BaiLianModelResponseWrapper");
}
