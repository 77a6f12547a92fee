use afterpot::error::TranslateError;
use afterpot::gemini::{
    generate_url, generated_text, generation_reply, get_fallback_models, latest_flash_model, lex_less_eq,
    models_from_exchange, models_from_json, models_from_reply, models_url, request_body, translation_prompt,
};

fn strings(v: &[&str]) -> Vec<String> {
    v.iter().map(|s| s.to_string()).collect()
}

#[test]
fn fallback_models_list() {
    assert_eq!(
        get_fallback_models(),
        strings(&["gemini-2.0-flash-exp", "gemini-2.0-flash", "gemini-1.5-flash", "gemini-1.5-flash-8b", "gemini-1.5-pro", "gemini-pro"])
    );
}

#[test]
fn catalog_strips_prefix() {
    let body = r#"{"models":[{"name":"models/gemini-1.5-pro"},{"name":"tuned/x"},{"displayName":"y"},{"name":"models/gemini-2.0-flash"}]}"#;
    assert_eq!(models_from_reply(200, body), strings(&["gemini-1.5-pro", "tuned/x", "gemini-2.0-flash"]));
    assert_eq!(models_from_reply(200, r#"{"models":[{"name":"gemini-x"}]}"#), strings(&["gemini-x"]));
    assert_eq!(models_from_reply(200, r#"{"other":1}"#), Vec::<String>::new());
    let v: serde_json::Value = serde_json::from_str(r#"{"models":[{"name":"models/a"}]}"#).unwrap();
    assert_eq!(models_from_json(&v), strings(&["a"]));
}

#[test]
fn catalog_failure_falls_back() {
    assert_eq!(models_from_reply(403, r#"{"models":[{"name":"models/a"}]}"#), get_fallback_models());
    assert_eq!(models_from_reply(500, ""), get_fallback_models());
    assert_eq!(models_from_reply(200, "<html>"), get_fallback_models());
    assert_eq!(models_from_exchange(None), get_fallback_models());
    assert_eq!(
        models_from_exchange(Some((200, r#"{"models":[{"name":"models/a"}]}"#.to_string()))),
        strings(&["a"])
    );
}

#[test]
fn latest_flash_picks_highest() {
    let models = strings(&["gemini-1.5-flash", "gemini-2.0-flash"]);
    assert_eq!(latest_flash_model(&models), Ok("gemini-2.0-flash".to_string()));
    let models = strings(&["gemini-2.0-flash", "gemini-2.5-pro", "flash-lite", "gemini-1.5-flash-8b"]);
    assert_eq!(latest_flash_model(&models), Ok("gemini-2.0-flash".to_string()));
    assert_eq!(latest_flash_model(&get_fallback_models()), Ok("gemini-2.0-flash-exp".to_string()));
}

#[test]
fn latest_flash_none() {
    assert_eq!(latest_flash_model(&strings(&["gemini-pro", "flash"])), Err(TranslateError::NoFlashModel));
    assert_eq!(latest_flash_model(&Vec::new()), Err(TranslateError::NoFlashModel));
}

#[test]
fn lexicographic_order() {
    assert!(lex_less_eq("a", "b"));
    assert!(lex_less_eq("ab", "ab"));
    assert!(lex_less_eq("ab", "abc"));
    assert!(!lex_less_eq("abc", "ab"));
    assert!(!lex_less_eq("b", "abc"));
}

#[test]
fn urls() {
    assert_eq!(models_url("K1"), "https://generativelanguage.googleapis.com/v1beta/models?key=K1");
    assert_eq!(
        generate_url("gemini-2.0-flash", "K1"),
        "https://generativelanguage.googleapis.com/v1beta/models/gemini-2.0-flash:generateContent?key=K1"
    );
}

#[test]
fn prompt_and_body() {
    let p = translation_prompt("Hello", "Japanese");
    assert!(p.starts_with("You are a professional translation engine. Translate the user-provided text into Japanese only.\nConstraints:\n"));
    assert!(p.contains("(e.g., {like_this}, {{curly}}, %s, %d, {{name}}, <tag>, URLs, and file paths)"));
    assert!(p.ends_with("- Prefer concise, natural, context-appropriate wording.\n\n\nText to translate:\nHello"));
    let b = request_body("say \"hi\"\n");
    assert_eq!(b, r#"{"contents":[{"parts":[{"text":"say \"hi\"\n"}]}]}"#);
    let v: serde_json::Value = serde_json::from_str(&b).unwrap();
    assert_eq!(v["contents"][0]["parts"][0]["text"], "say \"hi\"\n");
}

#[test]
fn generation_reply_outcomes() {
    let ok = r#"{"candidates":[{"content":{"parts":[{"text":"こんにちは"}],"role":"model"}}]}"#;
    assert_eq!(generation_reply(200, ok.to_string()), Ok("こんにちは".to_string()));
    assert_eq!(generation_reply(200, r#"{"candidates":[]}"#.to_string()), Err(TranslateError::NotFound));
    assert_eq!(
        generation_reply(200, r#"{"candidates":[{"content":{"parts":[{"x":1}]}}]}"#.to_string()),
        Err(TranslateError::NotFound)
    );
    assert!(matches!(generation_reply(200, "{".to_string()), Err(TranslateError::Parse(_))));
    assert_eq!(
        generation_reply(429, "quota".to_string()),
        Err(TranslateError::StatusBody(429, "quota".to_string()))
    );
    let v: serde_json::Value = serde_json::from_str(ok).unwrap();
    assert_eq!(generated_text(&v), Ok("こんにちは".to_string()));
}

#[test]
fn request_body_escapes_controls() {
    assert_eq!(
        request_body("a\u{1}\u{1f}\t\\b/é"),
        "{\"contents\":[{\"parts\":[{\"text\":\"a\\u0001\\u001f\\t\\\\b/é\"}]}]}"
    );
}
