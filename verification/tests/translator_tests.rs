use tg_translator::config::{TranslationConfig, TranslationProvider};
use tg_translator::translator::languages;
use tg_translator::translator::{
    DeepLTranslation, HttpMethod, LingvaInfo, ProviderResponse, RequestBody, TranslationError,
    Translator,
};

#[test]
fn test_language_validation() {
    // Valid codes
    assert!(languages::is_valid("en"));
    assert!(languages::is_valid("de"));
    assert!(languages::is_valid("uk"));
    assert!(languages::is_valid("ru"));
    assert!(languages::is_valid("fr"));
    assert!(languages::is_valid("es"));
    assert!(languages::is_valid("ja"));
    assert!(languages::is_valid("zh"));

    // Invalid codes
    assert!(!languages::is_valid(""));
    assert!(!languages::is_valid("eng"));
    assert!(!languages::is_valid("EN"));
    assert!(!languages::is_valid("gg")); // Not a real language
    assert!(!languages::is_valid("xx")); // Not a real language
    assert!(!languages::is_valid("ua")); // Should use "uk" for Ukrainian
}

#[test]
fn test_language_normalization() {
    assert_eq!(languages::normalize("ua"), "uk");
    assert_eq!(languages::normalize("en"), "en");
    assert_eq!(languages::normalize("de"), "de");
}

#[test]
fn three_letter_codes_are_valid() {
    assert!(languages::is_valid("ceb"));
    assert!(languages::is_valid("haw"));
    assert!(languages::is_valid("hmn"));
    assert!(languages::is_valid("zu"));
    assert!(languages::is_valid("af"));
    assert!(!languages::is_valid("uk "));
}

#[test]
fn normalization_is_stable() {
    assert_eq!(languages::normalize(languages::normalize("ua")), "uk");
    assert!(languages::is_valid(languages::normalize("ua")));
    assert_eq!(languages::normalize("UA"), "UA");
}

#[test]
fn language_constants() {
    assert_eq!(languages::ENGLISH, "en");
    assert_eq!(languages::UKRAINIAN, "uk");
    assert!(languages::is_valid(languages::TURKISH));
}

fn config(provider: TranslationProvider, key: Option<&str>, url: Option<&str>) -> TranslationConfig {
    TranslationConfig {
        provider,
        api_key: key.map(|s| s.to_string()),
        api_url: url.map(|s| s.to_string()),
        default_target_language: "uk".to_string(),
    }
}

fn pairs(v: &[(String, String)]) -> Vec<(&str, &str)> {
    v.iter().map(|(a, b)| (a.as_str(), b.as_str())).collect()
}

#[test]
fn default_target_language_comes_from_config() {
    let t = Translator::new(config(TranslationProvider::MyMemory, None, None));
    assert_eq!(t.default_target_language(), "uk");
}

#[test]
fn mymemory_request() {
    let t = Translator::new(config(TranslationProvider::MyMemory, None, None));
    let r = t.request("Hello", "uk", Some("en")).unwrap();
    assert_eq!(r.method, HttpMethod::Get);
    assert_eq!(r.url, "https://api.mymemory.translated.net/get");
    assert_eq!(pairs(&r.query), vec![("q", "Hello"), ("langpair", "en|uk")]);
    assert!(r.headers.is_empty());
    assert!(matches!(r.body, RequestBody::Empty));
    assert!(r.checks_status);
    let r = t.request("Hi", "es", None).unwrap();
    assert_eq!(pairs(&r.query), vec![("q", "Hi"), ("langpair", "en|es")]);
    let t = Translator::new(config(TranslationProvider::MyMemory, None, Some("http://mm")));
    assert_eq!(t.request("Hi", "es", None).unwrap().url, "http://mm/get");
}

#[test]
fn libretranslate_request() {
    let t = Translator::new(config(TranslationProvider::LibreTranslate, Some("key"), None));
    let r = t.request("Hola", "en", None).unwrap();
    assert_eq!(r.method, HttpMethod::Post);
    assert_eq!(r.url, "https://libretranslate.com/translate");
    assert!(!r.checks_status);
    match r.body {
        RequestBody::Json(j) => {
            assert_eq!(j.q, "Hola");
            assert_eq!(j.source, "auto");
            assert_eq!(j.target, "en");
            assert_eq!(j.api_key.as_deref(), Some("key"));
        }
        _ => panic!("expected a JSON body"),
    }
    let t = Translator::new(config(TranslationProvider::LibreTranslate, None, Some("http://lt")));
    let r = t.request("Hola", "en", Some("es")).unwrap();
    assert_eq!(r.url, "http://lt/translate");
    match r.body {
        RequestBody::Json(j) => {
            assert_eq!(j.source, "es");
            assert_eq!(j.api_key, None);
        }
        _ => panic!("expected a JSON body"),
    }
}

#[test]
fn deepl_request() {
    let t = Translator::new(config(TranslationProvider::DeepL, None, None));
    match t.request("x", "de", None) {
        Err(TranslationError::ConfigError(m)) => assert_eq!(m, "DeepL requires an API key"),
        other => panic!("unexpected {:?}", other),
    }
    let t = Translator::new(config(TranslationProvider::DeepL, Some("abc:fx"), None));
    let r = t.request("Good morning", "de", Some("en")).unwrap();
    assert_eq!(r.method, HttpMethod::Post);
    assert_eq!(r.url, "https://api-free.deepl.com/v2/translate");
    assert_eq!(pairs(&r.headers), vec![("Authorization", "DeepL-Auth-Key abc:fx")]);
    match &r.body {
        RequestBody::Form(f) => assert_eq!(
            pairs(f),
            vec![("text", "Good morning"), ("target_lang", "DE"), ("source_lang", "EN")]
        ),
        _ => panic!("expected a form"),
    }
    let t = Translator::new(config(TranslationProvider::DeepL, Some("abc"), None));
    let r = t.request("x", "pt", None).unwrap();
    assert_eq!(r.url, "https://api.deepl.com/v2/translate");
    match &r.body {
        RequestBody::Form(f) => assert_eq!(pairs(f), vec![("text", "x"), ("target_lang", "PT")]),
        _ => panic!("expected a form"),
    }
    let t = Translator::new(config(TranslationProvider::DeepL, Some("abc:fx"), Some("http://d")));
    assert_eq!(t.request("x", "pt", None).unwrap().url, "http://d/translate");
}

#[test]
fn google_request_encodes_text() {
    let t = Translator::new(config(TranslationProvider::Google, None, None));
    let r = t.request("Hello world! ~a-b_c.d", "fr", None).unwrap();
    assert_eq!(r.method, HttpMethod::Get);
    assert_eq!(
        r.url,
        "https://lingva.ml/api/v1/auto/fr/Hello%20world%21%20~a-b_c.d"
    );
    let r = t.request("Привіт", "en", Some("uk")).unwrap();
    assert_eq!(
        r.url,
        "https://lingva.ml/api/v1/uk/en/%D0%9F%D1%80%D0%B8%D0%B2%D1%96%D1%82"
    );
    assert!(r.checks_status);
}

#[test]
fn libretranslate_replies() {
    let t = Translator::new(config(TranslationProvider::LibreTranslate, None, None));
    let req = t.request("Hola", "en", None).unwrap();
    let ok = req
        .interpret(ProviderResponse::LibreTranslateSuccess {
            translated_text: "Hello".to_string(),
            detected_language: Some("es".to_string()),
        })
        .unwrap();
    assert_eq!(ok.text, "Hello");
    assert_eq!(ok.detected_language.as_deref(), Some("es"));
    match req.interpret(ProviderResponse::LibreTranslateError { error: "quota".to_string() }) {
        Err(TranslationError::ApiError(m)) => assert_eq!(m, "quota"),
        other => panic!("unexpected {:?}", other),
    }
}

#[test]
fn deepl_replies() {
    let t = Translator::new(config(TranslationProvider::DeepL, Some("k"), None));
    let req = t.request("Hallo", "en", None).unwrap();
    let ok = req
        .interpret(ProviderResponse::DeepL {
            translations: vec![
                DeepLTranslation {
                    text: "Hello".to_string(),
                    detected_source_language: Some("DE".to_string()),
                },
                DeepLTranslation { text: "Second".to_string(), detected_source_language: None },
            ],
        })
        .unwrap();
    assert_eq!(ok.text, "Hello");
    assert_eq!(ok.detected_language.as_deref(), Some("de"));
    assert!(matches!(
        req.interpret(ProviderResponse::DeepL { translations: vec![] }),
        Err(TranslationError::EmptyResponse)
    ));
    match req.rejection("forbidden") {
        TranslationError::ApiError(m) => assert_eq!(m, "DeepL API error: forbidden"),
        other => panic!("unexpected {:?}", other),
    }
}

#[test]
fn google_replies() {
    let t = Translator::new(config(TranslationProvider::Google, None, None));
    let req = t.request("Hola", "en", None).unwrap();
    let ok = req
        .interpret(ProviderResponse::Lingva {
            translation: "Hello".to_string(),
            info: Some(LingvaInfo { detected_source: Some("es".to_string()) }),
        })
        .unwrap();
    assert_eq!(ok.detected_language.as_deref(), Some("es"));
    let ok = req
        .interpret(ProviderResponse::Lingva { translation: "Hello".to_string(), info: None })
        .unwrap();
    assert_eq!(ok.text, "Hello");
    assert_eq!(ok.detected_language, None);
    match req.rejection("") {
        TranslationError::ApiError(m) => assert_eq!(m, "Google Translate API error: "),
        other => panic!("unexpected {:?}", other),
    }
}

#[test]
fn mymemory_replies() {
    let t = Translator::new(config(TranslationProvider::MyMemory, None, None));
    let req = t.request("Hello", "uk", None).unwrap();
    let ok = req
        .interpret(ProviderResponse::MyMemory {
            translated_text: Some("  Привіт \n".to_string()),
            response_status: 200,
            response_details: None,
        })
        .unwrap();
    assert_eq!(ok.text, "Привіт");
    assert_eq!(ok.detected_language.as_deref(), Some("en"));
    let req2 = t.request("Hello", "uk", Some("de")).unwrap();
    let ok = req2
        .interpret(ProviderResponse::MyMemory {
            translated_text: Some("x".to_string()),
            response_status: 200,
            response_details: None,
        })
        .unwrap();
    assert_eq!(ok.detected_language.as_deref(), Some("de"));
    match req.interpret(ProviderResponse::MyMemory {
        translated_text: Some("x".to_string()),
        response_status: 403,
        response_details: Some("limit reached".to_string()),
    }) {
        Err(TranslationError::ApiError(m)) => assert_eq!(m, "limit reached"),
        other => panic!("unexpected {:?}", other),
    }
    match req.interpret(ProviderResponse::MyMemory {
        translated_text: None,
        response_status: 500,
        response_details: None,
    }) {
        Err(TranslationError::ApiError(m)) => assert_eq!(m, "Unknown error"),
        other => panic!("unexpected {:?}", other),
    }
    assert!(matches!(
        req.interpret(ProviderResponse::MyMemory {
            translated_text: None,
            response_status: 200,
            response_details: None,
        }),
        Err(TranslationError::EmptyResponse)
    ));
    match req.rejection("busy") {
        TranslationError::ApiError(m) => assert_eq!(m, "MyMemory API error: busy"),
        other => panic!("unexpected {:?}", other),
    }
}

#[test]
fn error_messages() {
    assert_eq!(
        TranslationError::ApiError("x".to_string()).message(),
        "Translation API error: x"
    );
    assert_eq!(TranslationError::NetworkError("y".to_string()).message(), "Network error: y");
    assert_eq!(TranslationError::EmptyResponse.message(), "No translation returned");
    assert_eq!(
        TranslationError::ConfigError("z".to_string()).message(),
        "Invalid configuration: z"
    );
}
