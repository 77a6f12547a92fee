use afterpot::error::{error_message, Service, TranslateError};
use afterpot::web::{detect_query, detect_reply, detected_language, sentences_translation, translate_query, web_reply};

#[test]
fn web_reply_joins_sentences() {
    let body = r#"{"sentences":[{"trans":"Hola"},{"trans":" mundo"}]}"#;
    assert_eq!(web_reply(200, body), Ok("Hola mundo".to_string()));
}

#[test]
fn web_reply_skips_entries_without_trans() {
    let body = r#"{"sentences":[{"trans":"A"},{"orig":"x"},{"trans":5},{"trans":"B"}],"src":"en"}"#;
    assert_eq!(web_reply(200, body), Ok("AB".to_string()));
}

#[test]
fn web_reply_without_sentences_not_found() {
    assert_eq!(web_reply(200, r#"{"sentences":[]}"#), Err(TranslateError::NotFound));
    assert_eq!(web_reply(200, r#"{"src":"en"}"#), Err(TranslateError::NotFound));
    assert_eq!(web_reply(200, r#"{"sentences":[{"trans":""}]}"#), Err(TranslateError::NotFound));
    assert_eq!(web_reply(200, r#"[1,2]"#), Err(TranslateError::NotFound));
}

#[test]
fn web_reply_parse_error_and_status() {
    assert!(matches!(web_reply(200, "not json"), Err(TranslateError::Parse(_))));
    assert_eq!(web_reply(503, r#"{"sentences":[{"trans":"x"}]}"#), Err(TranslateError::StatusBody(503, r#"{"sentences":[{"trans":"x"}]}"#.to_string())));
}

#[test]
fn sentences_translation_on_value() {
    let v: serde_json::Value = serde_json::from_str(r#"{"sentences":[{"trans":"Guten "},{"trans":"Tag"}]}"#).unwrap();
    assert_eq!(sentences_translation(&v), Ok("Guten Tag".to_string()));
}

#[test]
fn detect_reply_reads_position_two() {
    let body = r#"[[["Hello","Bonjour",null,null,10]],null,"fr",null,null,null,1.0]"#;
    assert_eq!(detect_reply(200, body), Ok("fr".to_string()));
}

#[test]
fn detect_reply_failures() {
    assert_eq!(detect_reply(200, r#"[[],null]"#), Err(TranslateError::NotDetected));
    assert_eq!(detect_reply(200, r#"[[],null,3]"#), Err(TranslateError::NotDetected));
    assert_eq!(detect_reply(200, "garbage"), Err(TranslateError::NotDetected));
    assert_eq!(detect_reply(404, r#"[[],null,"fr"]"#), Err(TranslateError::StatusBody(404, r#"[[],null,"fr"]"#.to_string())));
    let v: serde_json::Value = serde_json::from_str(r#"{"a":1}"#).unwrap();
    assert_eq!(detected_language(&v), Err(TranslateError::NotDetected));
}

#[test]
fn query_parameters() {
    let q = translate_query("hi", "auto", "ja");
    let expected: Vec<(String, String)> = vec![
        ("client", "gtx"), ("sl", "auto"), ("tl", "ja"), ("hl", "ja"), ("dt", "t"),
        ("dt", "bd"), ("dj", "1"), ("source", "input"), ("q", "hi"),
    ]
    .into_iter()
    .map(|(k, v)| (k.to_string(), v.to_string()))
    .collect();
    assert_eq!(q, expected);
    let d = detect_query("bonjour");
    assert_eq!(d.len(), 5);
    assert_eq!(d[1], ("sl".to_string(), "auto".to_string()));
    assert_eq!(d[2], ("tl".to_string(), "en".to_string()));
    assert_eq!(d[4], ("q".to_string(), "bonjour".to_string()));
}

#[test]
fn error_messages() {
    assert_eq!(
        error_message(Service::Web, &TranslateError::Timeout, ""),
        "翻訳リクエストがタイムアウトしました。インターネット接続を確認してください。"
    );
    assert_eq!(
        error_message(Service::Gemini, &TranslateError::Unreachable, ""),
        "Gemini APIに接続できませんでした。オフラインの可能性があります。"
    );
    assert_eq!(
        error_message(Service::Detect, &TranslateError::Request("boom".to_string()), ""),
        "言語検出リクエストに失敗しました: boom"
    );
    assert_eq!(
        error_message(Service::Web, &TranslateError::StatusBody(503, "down".to_string()), "503 Service Unavailable"),
        "API request failed with status 503 Service Unavailable: down"
    );
    assert_eq!(
        error_message(Service::Detect, &TranslateError::StatusBody(404, "none".to_string()), "404 Not Found"),
        "Detection request failed with status 404 Not Found: none"
    );
    assert_eq!(
        error_message(Service::Gemini, &TranslateError::StatusBody(400, "{\"error\":1}".to_string()), "400 Bad Request"),
        "Gemini API request failed with status 400 Bad Request: {\"error\":1}"
    );
    assert_eq!(
        error_message(Service::Gemini, &TranslateError::NotFound, ""),
        "Translation not found in Gemini response"
    );
    assert_eq!(error_message(Service::Web, &TranslateError::NotFound, ""), "Translation not found in response");
    assert_eq!(error_message(Service::Gemini, &TranslateError::NoFlashModel, ""), "No flash models found");
    assert_eq!(
        error_message(Service::Web, &TranslateError::Parse("eof".to_string()), ""),
        "Failed to parse response: eof"
    );
}
