//! Translation requests and the interpretation of the services' replies.
//!
//! Sending a request and reading the reply are left to the caller: this
//! module decides what to send to each service and what a reply means.
pub mod languages;

use vstd::prelude::*;
use vstd::string::*;
use vstd::utf8::encode_utf8;

use crate::config::{opt_chars, TranslationConfig, TranslationProvider};
use crate::text::{
    chars_of, ends_with_chars, extend_chars, extend_str, has_suffix, lowercase, lowercase_chars,
    owned, string_of, trim_chars, trimmed, uppercase, uppercase_chars,
};

verus! {

// ---------------------------------------------------------------------------
// Errors and results
// ---------------------------------------------------------------------------

/// Why a translation failed.
#[derive(Debug, Clone)]
pub enum TranslationError {
    /// The service answered with an error.
    ApiError(String),
    /// The request could not be sent or its reply not read.
    NetworkError(String),
    /// The service answered without a translation.
    EmptyResponse,
    /// The configuration does not allow the request.
    ConfigError(String),
}

/// The abstract content of a `TranslationError`.
pub enum ErrorView {
    Api(Seq<char>),
    Network(Seq<char>),
    Empty,
    Config(Seq<char>),
}

impl View for TranslationError {
    type V = ErrorView;

    open spec fn view(&self) -> ErrorView {
        match self {
            TranslationError::ApiError(s) => ErrorView::Api(s@),
            TranslationError::NetworkError(s) => ErrorView::Network(s@),
            TranslationError::EmptyResponse => ErrorView::Empty,
            TranslationError::ConfigError(s) => ErrorView::Config(s@),
        }
    }
}

/// The text that describes an error.
pub open spec fn error_message(e: ErrorView) -> Seq<char> {
    match e {
        ErrorView::Api(s) => "Translation API error: "@ + s,
        ErrorView::Network(s) => "Network error: "@ + s,
        ErrorView::Empty => "No translation returned"@,
        ErrorView::Config(s) => "Invalid configuration: "@ + s,
    }
}

impl TranslationError {
    /// The text that describes the error.
    pub fn message(&self) -> (r: String)
        ensures
            r@ == error_message(self@),
    {
        let mut v: Vec<char> = Vec::new();
        match self {
            TranslationError::ApiError(s) => {
                extend_str(&mut v, "Translation API error: ");
                extend_str(&mut v, s.as_str());
            },
            TranslationError::NetworkError(s) => {
                extend_str(&mut v, "Network error: ");
                extend_str(&mut v, s.as_str());
            },
            TranslationError::EmptyResponse => {
                extend_str(&mut v, "No translation returned");
            },
            TranslationError::ConfigError(s) => {
                extend_str(&mut v, "Invalid configuration: ");
                extend_str(&mut v, s.as_str());
            },
        }
        string_of(&v)
    }
}

/// Result of a translation.
#[derive(Debug, Clone)]
pub struct TranslationResult {
    /// Translated text.
    pub text: String,
    /// Detected source language, if the service reports one.
    pub detected_language: Option<String>,
}

/// The abstract content of a `TranslationResult`.
pub struct ResultView {
    pub text: Seq<char>,
    pub detected_language: Option<Seq<char>>,
}

impl View for TranslationResult {
    type V = ResultView;

    open spec fn view(&self) -> ResultView {
        ResultView { text: self.text@, detected_language: opt_chars(self.detected_language) }
    }
}

/// The abstract content of a translation outcome.
pub open spec fn outcome_view(r: Result<TranslationResult, TranslationError>) -> Result<
    ResultView,
    ErrorView,
> {
    match r {
        Ok(t) => Ok(t@),
        Err(e) => Err(e@),
    }
}

// ---------------------------------------------------------------------------
// Requests
// ---------------------------------------------------------------------------

/// HTTP method of a request.
#[derive(Debug, Clone, Copy, PartialEq, Eq, Structural)]
pub enum HttpMethod {
    Get,
    Post,
}

/// The JSON body of a LibreTranslate request.
#[derive(Debug, Clone)]
pub struct LibreTranslateRequest {
    pub q: String,
    pub source: String,
    pub target: String,
    /// Left out of the JSON when absent.
    pub api_key: Option<String>,
}

/// The body of a request.
#[derive(Debug, Clone)]
pub enum RequestBody {
    Empty,
    Json(LibreTranslateRequest),
    /// Form fields, sent URL-encoded.
    Form(Vec<(String, String)>),
}

/// A request to a translation service.
#[derive(Debug, Clone)]
pub struct TranslationRequest {
    /// The service that the request is for.
    pub provider: TranslationProvider,
    pub method: HttpMethod,
    pub url: String,
    /// Query parameters, URL-encoded onto `url`.
    pub query: Vec<(String, String)>,
    pub headers: Vec<(String, String)>,
    pub body: RequestBody,
    /// Whether a reply with an unsuccessful HTTP status is an error in itself.
    pub checks_status: bool,
    /// The source language that the caller named, if any.
    pub source_language: Option<String>,
}

/// The character sequences of a list of string pairs.
pub open spec fn pairs_view(v: Seq<(String, String)>) -> Seq<(Seq<char>, Seq<char>)> {
    v.map_values(|p: (String, String)| (p.0@, p.1@))
}

/// The abstract content of a request body.
pub enum BodyView {
    Empty,
    Json {
        q: Seq<char>,
        source: Seq<char>,
        target: Seq<char>,
        api_key: Option<Seq<char>>,
    },
    Form(Seq<(Seq<char>, Seq<char>)>),
}

/// The abstract content of a request.
pub struct RequestView {
    pub provider: TranslationProvider,
    pub method: HttpMethod,
    pub url: Seq<char>,
    pub query: Seq<(Seq<char>, Seq<char>)>,
    pub headers: Seq<(Seq<char>, Seq<char>)>,
    pub body: BodyView,
    pub checks_status: bool,
    pub source_language: Option<Seq<char>>,
}

impl View for TranslationRequest {
    type V = RequestView;

    open spec fn view(&self) -> RequestView {
        RequestView {
            provider: self.provider,
            method: self.method,
            url: self.url@,
            query: pairs_view(self.query@),
            headers: pairs_view(self.headers@),
            body: match self.body {
                RequestBody::Empty => BodyView::Empty,
                RequestBody::Json(j) => BodyView::Json {
                    q: j.q@,
                    source: j.source@,
                    target: j.target@,
                    api_key: opt_chars(j.api_key),
                },
                RequestBody::Form(f) => BodyView::Form(pairs_view(f@)),
            },
            checks_status: self.checks_status,
            source_language: opt_chars(self.source_language),
        }
    }
}

/// `o`, or `d` when absent.
pub open spec fn or_else(o: Option<Seq<char>>, d: Seq<char>) -> Seq<char> {
    match o {
        Some(s) => s,
        None => d,
    }
}

/// Every byte percent-encoded except ASCII alphanumerics and `-`, `.`,
/// `_`, `~`, as `%` and two upper-case hex digits.
pub open spec fn unreserved_byte(b: u8) -> bool {
    (48 <= b <= 57) || (65 <= b <= 90) || (97 <= b <= 122) || b == 45 || b == 46 || b == 95
        || b == 126
}

/// The upper-case hex digit for `d` (`d < 16`).
pub open spec fn hex_digit_char(d: int) -> char {
    if d < 10 {
        (d + 48) as char
    } else {
        (d + 55) as char
    }
}

/// The percent-encoding of a byte string.
pub open spec fn percent_encoded(bytes: Seq<u8>) -> Seq<char>
    decreases bytes.len(),
{
    if bytes.len() == 0 {
        Seq::empty()
    } else {
        let b = bytes[0];
        let head = if unreserved_byte(b) {
            seq![(b as int) as char]
        } else {
            seq!['%', hex_digit_char(b as int / 16), hex_digit_char(b as int % 16)]
        };
        head + percent_encoded(bytes.drop_first())
    }
}

/// `urlencoding::encode`: percent-encodes the UTF-8 bytes of `s`, keeping
/// ASCII alphanumerics and `-`, `.`, `_`, `~`, with upper-case hex digits.
#[verifier::external_body]
fn url_encode(s: &str) -> (r: String)
    ensures
        r@ == percent_encoded(encode_utf8(s@)),
{
    urlencoding::encode(s).into_owned()
}

/// The request that translates `text` into `target`, from `source` or from
/// a language the service detects, as the configuration prescribes; or the
/// reason why none can be sent.
pub open spec fn planned_request(
    config: crate::config::TranslationConfigView,
    text: Seq<char>,
    target: Seq<char>,
    source: Option<Seq<char>>,
) -> Result<RequestView, ErrorView> {
    match config.provider {
        TranslationProvider::LibreTranslate => Ok(
            RequestView {
                provider: TranslationProvider::LibreTranslate,
                method: HttpMethod::Post,
                url: or_else(config.api_url, "https://libretranslate.com"@) + "/translate"@,
                query: Seq::empty(),
                headers: Seq::empty(),
                body: BodyView::Json {
                    q: text,
                    source: or_else(source, "auto"@),
                    target: target,
                    api_key: config.api_key,
                },
                checks_status: false,
                source_language: source,
            },
        ),
        TranslationProvider::DeepL => match config.api_key {
            None => Err(ErrorView::Config("DeepL requires an API key"@)),
            Some(key) => Ok(
                RequestView {
                    provider: TranslationProvider::DeepL,
                    method: HttpMethod::Post,
                    url: or_else(
                        config.api_url,
                        if has_suffix(key, ":fx"@) {
                            "https://api-free.deepl.com/v2"@
                        } else {
                            "https://api.deepl.com/v2"@
                        },
                    ) + "/translate"@,
                    query: Seq::empty(),
                    headers: seq![("Authorization"@, "DeepL-Auth-Key "@ + key)],
                    body: BodyView::Form(
                        seq![("text"@, text), ("target_lang"@, uppercase(target))] + match source {
                            Some(s) => seq![("source_lang"@, uppercase(s))],
                            None => Seq::empty(),
                        },
                    ),
                    checks_status: true,
                    source_language: source,
                },
            ),
        },
        TranslationProvider::Google => Ok(
            RequestView {
                provider: TranslationProvider::Google,
                method: HttpMethod::Get,
                url: or_else(config.api_url, "https://lingva.ml/api/v1"@) + "/"@ + or_else(
                    source,
                    "auto"@,
                ) + "/"@ + target + "/"@ + percent_encoded(encode_utf8(text)),
                query: Seq::empty(),
                headers: Seq::empty(),
                body: BodyView::Empty,
                checks_status: true,
                source_language: source,
            },
        ),
        TranslationProvider::MyMemory => Ok(
            RequestView {
                provider: TranslationProvider::MyMemory,
                method: HttpMethod::Get,
                url: or_else(config.api_url, "https://api.mymemory.translated.net"@) + "/get"@,
                query: seq![
                    ("q"@, text),
                    ("langpair"@, or_else(source, "en"@) + "|"@ + target),
                ],
                headers: Seq::empty(),
                body: BodyView::Empty,
                checks_status: true,
                source_language: source,
            },
        ),
    }
}

/// `o` as characters, or those of `d` when absent.
fn chars_or(o: &Option<String>, d: &str) -> (r: Vec<char>)
    ensures
        r@ == or_else(opt_chars(*o), d@),
{
    match o {
        Some(s) => chars_of(s.as_str()),
        None => chars_of(d),
    }
}

fn opt_owned(o: Option<&str>) -> (r: Option<String>)
    ensures
        opt_chars(r) == match o {
            Some(s) => Some(s@),
            None => None::<Seq<char>>,
        },
{
    match o {
        Some(s) => Some(owned(s)),
        None => None,
    }
}

fn pair(a: &str, b: Vec<char>) -> (r: (String, String))
    ensures
        r.0@ == a@,
        r.1@ == b@,
{
    (owned(a), string_of(&b))
}

/// The view of an optional borrowed string.
pub open spec fn opt_str(o: Option<&str>) -> Option<Seq<char>> {
    match o {
        Some(s) => Some(s@),
        None => None,
    }
}

/// Translation service front: decides the requests to send and what their
/// replies mean.
#[derive(Debug, Clone)]
pub struct Translator {
    config: TranslationConfig,
}

impl Translator {
    /// The configuration that the translator follows.
    pub closed spec fn config_view(&self) -> crate::config::TranslationConfigView {
        self.config@
    }

    /// A translator with the given configuration.
    pub fn new(config: TranslationConfig) -> (r: Self)
        ensures
            r.config_view() == config@,
    {
        Translator { config }
    }

    /// The default target language of the configuration.
    pub fn default_target_language(&self) -> (r: &str)
        ensures
            r@ == self.config_view().default_target_language,
    {
        self.config.default_target_language.as_str()
    }

    /// The request that translates `text` into `target_language`, from
    /// `source_language` when given; or why no request can be made.
    pub fn request(&self, text: &str, target_language: &str, source_language: Option<&str>) -> (r:
        Result<TranslationRequest, TranslationError>)
        ensures
            match r {
                Ok(req) => planned_request(
                    self.config_view(),
                    text@,
                    target_language@,
                    opt_str(source_language),
                ) == Ok::<RequestView, ErrorView>(req@),
                Err(e) => planned_request(
                    self.config_view(),
                    text@,
                    target_language@,
                    opt_str(source_language),
                ) == Err::<RequestView, ErrorView>(e@),
            },
    {
        let ghost source = opt_str(source_language);
        match self.config.provider {
            TranslationProvider::LibreTranslate => {
                let mut url = chars_or(&self.config.api_url, "https://libretranslate.com");
                extend_str(&mut url, "/translate");
                let src = chars_or(&opt_owned(source_language), "auto");
                let body = LibreTranslateRequest {
                    q: owned(text),
                    source: string_of(&src),
                    target: owned(target_language),
                    api_key: self.config.api_key.clone(),
                };
                let req = TranslationRequest {
                    provider: TranslationProvider::LibreTranslate,
                    method: HttpMethod::Post,
                    url: string_of(&url),
                    query: Vec::new(),
                    headers: Vec::new(),
                    body: RequestBody::Json(body),
                    checks_status: false,
                    source_language: opt_owned(source_language),
                };
                assert(req@.query =~= Seq::<(Seq<char>, Seq<char>)>::empty());
                assert(req@.headers =~= Seq::<(Seq<char>, Seq<char>)>::empty());
                Ok(req)
            },
            TranslationProvider::DeepL => {
                let key = match &self.config.api_key {
                    Some(k) => k,
                    None => {
                        return Err(
                            TranslationError::ConfigError(owned("DeepL requires an API key")),
                        );
                    },
                };
                let key_chars = chars_of(key.as_str());
                let mut url = match &self.config.api_url {
                    Some(u) => chars_of(u.as_str()),
                    None => {
                        if ends_with_chars(&key_chars, &chars_of(":fx")) {
                            chars_of("https://api-free.deepl.com/v2")
                        } else {
                            chars_of("https://api.deepl.com/v2")
                        }
                    },
                };
                extend_str(&mut url, "/translate");
                let mut auth = chars_of("DeepL-Auth-Key ");
                extend_chars(&mut auth, &key_chars);
                let mut headers: Vec<(String, String)> = Vec::new();
                headers.push(pair("Authorization", auth));
                let mut form: Vec<(String, String)> = Vec::new();
                form.push(pair("text", chars_of(text)));
                form.push(pair("target_lang", uppercase_chars(target_language)));
                let ghost first_two = pairs_view(form@);
                match source_language {
                    Some(s) => {
                        form.push(pair("source_lang", uppercase_chars(s)));
                    },
                    None => {},
                }
                assert(pairs_view(form@) =~= seq![
                    ("text"@, text@),
                    ("target_lang"@, uppercase(target_language@)),
                ] + match source {
                    Some(s) => seq![("source_lang"@, uppercase(s))],
                    None => Seq::empty(),
                });
                let req = TranslationRequest {
                    provider: TranslationProvider::DeepL,
                    method: HttpMethod::Post,
                    url: string_of(&url),
                    query: Vec::new(),
                    headers,
                    body: RequestBody::Form(form),
                    checks_status: true,
                    source_language: opt_owned(source_language),
                };
                assert(req@.query =~= Seq::<(Seq<char>, Seq<char>)>::empty());
                assert(req@.headers =~= seq![("Authorization"@, "DeepL-Auth-Key "@ + key@)]);
                Ok(req)
            },
            TranslationProvider::Google => {
                let mut url = chars_or(&self.config.api_url, "https://lingva.ml/api/v1");
                extend_str(&mut url, "/");
                let src = chars_or(&opt_owned(source_language), "auto");
                extend_chars(&mut url, &src);
                extend_str(&mut url, "/");
                extend_str(&mut url, target_language);
                extend_str(&mut url, "/");
                let encoded = url_encode(text);
                extend_str(&mut url, encoded.as_str());
                let req = TranslationRequest {
                    provider: TranslationProvider::Google,
                    method: HttpMethod::Get,
                    url: string_of(&url),
                    query: Vec::new(),
                    headers: Vec::new(),
                    body: RequestBody::Empty,
                    checks_status: true,
                    source_language: opt_owned(source_language),
                };
                assert(req@.query =~= Seq::<(Seq<char>, Seq<char>)>::empty());
                assert(req@.headers =~= Seq::<(Seq<char>, Seq<char>)>::empty());
                assert(req@.url =~= or_else(self.config@.api_url, "https://lingva.ml/api/v1"@)
                    + "/"@ + or_else(source, "auto"@) + "/"@ + target_language@ + "/"@
                    + percent_encoded(encode_utf8(text@)));
                Ok(req)
            },
            TranslationProvider::MyMemory => {
                let mut url = chars_or(&self.config.api_url, "https://api.mymemory.translated.net");
                extend_str(&mut url, "/get");
                let mut langpair = chars_or(&opt_owned(source_language), "en");
                extend_str(&mut langpair, "|");
                extend_str(&mut langpair, target_language);
                let mut query: Vec<(String, String)> = Vec::new();
                query.push(pair("q", chars_of(text)));
                query.push(pair("langpair", langpair));
                let req = TranslationRequest {
                    provider: TranslationProvider::MyMemory,
                    method: HttpMethod::Get,
                    url: string_of(&url),
                    query,
                    headers: Vec::new(),
                    body: RequestBody::Empty,
                    checks_status: true,
                    source_language: opt_owned(source_language),
                };
                assert(req@.query =~= seq![
                    ("q"@, text@),
                    ("langpair"@, or_else(source, "en"@) + "|"@ + target_language@),
                ]);
                assert(req@.headers =~= Seq::<(Seq<char>, Seq<char>)>::empty());
                Ok(req)
            },
        }
    }
}

// ---------------------------------------------------------------------------
// Replies
// ---------------------------------------------------------------------------

/// One translation in a DeepL reply.
#[derive(Debug, Clone)]
pub struct DeepLTranslation {
    pub text: String,
    pub detected_source_language: Option<String>,
}

/// The `info` object of a Lingva reply.
#[derive(Debug, Clone)]
pub struct LingvaInfo {
    pub detected_source: Option<String>,
}

/// The content of a service's reply, as read from its JSON.
#[derive(Debug, Clone)]
pub enum ProviderResponse {
    /// LibreTranslate answered with a translation.
    LibreTranslateSuccess { translated_text: String, detected_language: Option<String> },
    /// LibreTranslate answered with an error.
    LibreTranslateError { error: String },
    /// DeepL's list of translations.
    DeepL { translations: Vec<DeepLTranslation> },
    /// The reply of Lingva (the Google Translate front-end).
    Lingva { translation: String, info: Option<LingvaInfo> },
    /// The reply of MyMemory.
    MyMemory {
        translated_text: Option<String>,
        response_status: i32,
        response_details: Option<String>,
    },
}

/// The abstract content of a reply.
pub enum ResponseView {
    LibreTranslateSuccess { translated_text: Seq<char>, detected_language: Option<Seq<char>> },
    LibreTranslateError { error: Seq<char> },
    DeepL { translations: Seq<(Seq<char>, Option<Seq<char>>)> },
    Lingva { translation: Seq<char>, info: Option<Option<Seq<char>>> },
    MyMemory {
        translated_text: Option<Seq<char>>,
        response_status: int,
        response_details: Option<Seq<char>>,
    },
}

/// The abstract content of DeepL's translations.
pub open spec fn deepl_view(v: Seq<DeepLTranslation>) -> Seq<(Seq<char>, Option<Seq<char>>)> {
    v.map_values(|t: DeepLTranslation| (t.text@, opt_chars(t.detected_source_language)))
}

impl View for ProviderResponse {
    type V = ResponseView;

    open spec fn view(&self) -> ResponseView {
        match self {
            ProviderResponse::LibreTranslateSuccess { translated_text, detected_language } =>
                ResponseView::LibreTranslateSuccess {
                translated_text: translated_text@,
                detected_language: opt_chars(*detected_language),
            },
            ProviderResponse::LibreTranslateError { error } => ResponseView::LibreTranslateError {
                error: error@,
            },
            ProviderResponse::DeepL { translations } => ResponseView::DeepL {
                translations: deepl_view(translations@),
            },
            ProviderResponse::Lingva { translation, info } => ResponseView::Lingva {
                translation: translation@,
                info: match info {
                    Some(i) => Some(opt_chars(i.detected_source)),
                    None => None,
                },
            },
            ProviderResponse::MyMemory { translated_text, response_status, response_details } =>
                ResponseView::MyMemory {
                translated_text: opt_chars(*translated_text),
                response_status: *response_status as int,
                response_details: opt_chars(*response_details),
            },
        }
    }
}

/// What a reply means, for a request that named `source` as the source
/// language (or none).
pub open spec fn interpreted(source: Option<Seq<char>>, r: ResponseView) -> Result<
    ResultView,
    ErrorView,
> {
    match r {
        ResponseView::LibreTranslateSuccess { translated_text, detected_language } => Ok(
            ResultView { text: translated_text, detected_language: detected_language },
        ),
        ResponseView::LibreTranslateError { error } => Err(ErrorView::Api(error)),
        ResponseView::DeepL { translations } => if translations.len() == 0 {
            Err(ErrorView::Empty)
        } else {
            Ok(
                ResultView {
                    text: translations[0].0,
                    detected_language: match translations[0].1 {
                        Some(d) => Some(lowercase(d)),
                        None => None,
                    },
                },
            )
        },
        ResponseView::Lingva { translation, info } => Ok(
            ResultView {
                text: translation,
                detected_language: match info {
                    Some(d) => d,
                    None => None,
                },
            },
        ),
        ResponseView::MyMemory { translated_text, response_status, response_details } => {
            if response_status != 200 {
                Err(ErrorView::Api(or_else(response_details, "Unknown error"@)))
            } else {
                match translated_text {
                    Some(t) => Ok(
                        ResultView {
                            text: trimmed(t),
                            detected_language: Some(or_else(source, "en"@)),
                        },
                    ),
                    None => Err(ErrorView::Empty),
                }
            }
        },
    }
}

/// The words that introduce a service's answer to an unsuccessful request.
pub open spec fn rejection_prefix(p: TranslationProvider) -> Seq<char> {
    match p {
        TranslationProvider::DeepL => "DeepL API error: "@,
        TranslationProvider::Google => "Google Translate API error: "@,
        _ => "MyMemory API error: "@,
    }
}

impl TranslationRequest {
    /// What the service's reply to this request means.
    pub fn interpret(&self, response: ProviderResponse) -> (r: Result<
        TranslationResult,
        TranslationError,
    >)
        ensures
            outcome_view(r) == interpreted(self@.source_language, response@),
    {
        match response {
            ProviderResponse::LibreTranslateSuccess { translated_text, detected_language } => {
                Ok(TranslationResult { text: translated_text, detected_language })
            },
            ProviderResponse::LibreTranslateError { error } => {
                Err(TranslationError::ApiError(error))
            },
            ProviderResponse::DeepL { translations } => {
                if translations.len() == 0 {
                    return Err(TranslationError::EmptyResponse);
                }
                let first = &translations[0];
                let detected = match &first.detected_source_language {
                    Some(d) => Some(string_of(&lowercase_chars(&chars_of(d.as_str())))),
                    None => None,
                };
                Ok(TranslationResult { text: first.text.clone(), detected_language: detected })
            },
            ProviderResponse::Lingva { translation, info } => {
                let detected = match info {
                    Some(i) => i.detected_source,
                    None => None,
                };
                Ok(TranslationResult { text: translation, detected_language: detected })
            },
            ProviderResponse::MyMemory { translated_text, response_status, response_details } => {
                if response_status != 200 {
                    let details = chars_or(&response_details, "Unknown error");
                    return Err(TranslationError::ApiError(string_of(&details)));
                }
                match translated_text {
                    Some(t) => {
                        let text = trim_chars(&chars_of(t.as_str()));
                        let source = chars_or(&self.source_language, "en");
                        Ok(
                            TranslationResult {
                                text: string_of(&text),
                                detected_language: Some(string_of(&source)),
                            },
                        )
                    },
                    None => Err(TranslationError::EmptyResponse),
                }
            },
        }
    }

    /// The error for a reply whose HTTP status is not a success, given the
    /// reply's text (empty if it could not be read). LibreTranslate replies
    /// are never judged by their status.
    pub fn rejection(&self, error_text: &str) -> (r: TranslationError)
        requires
            self.provider != TranslationProvider::LibreTranslate,
        ensures
            r@ == ErrorView::Api(rejection_prefix(self.provider) + error_text@),
    {
        let mut v = match self.provider {
            TranslationProvider::DeepL => chars_of("DeepL API error: "),
            TranslationProvider::Google => chars_of("Google Translate API error: "),
            _ => chars_of("MyMemory API error: "),
        };
        extend_str(&mut v, error_text);
        TranslationError::ApiError(string_of(&v))
    }
}

} // verus!
