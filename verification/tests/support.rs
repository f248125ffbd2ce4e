use adapters::agent::{AgentSource, File as AgentFile};
use adapters::configuration::{configuration_file, home_directory, int_entry, is_fresh, string_entry, ttl_entry, ConfigurationCache, CACHE_TTL_KEY};
use adapters::error::ErrorKind;
use adapters::inference::{
    answer_text, available_models, chat_request, max_tokens, models_url, reasoning_effort, tool_order, tools_cache, truncate_at_stops, Anthropic,
    CacheControl, ChatRole, GenAi, Message, MessageCacheLevel, MessageType, ModelAdapter, ReasoningEffort, RequestEffort,
};
use adapters::js::base64::{atob, btoa, ThrownKind};
use adapters::js::fetch::FilteredFetcher;
use adapters::js::{FetchScope, JavaScript, Scopes};
use adapters::logger::{LogLevel, LoggerAdapter};
use adapters::mcp::{auth_headers, listed, tool_answer, McpBasicCredentials, McpCredentials, McpServer, McpSession};
use adapters::template::TeraTemplateEngine;

#[test]
fn log_levels_by_name() {
    assert_eq!(LogLevel::from_str("trace"), LogLevel::Trace);
    assert_eq!(LogLevel::from_str("fatal"), LogLevel::Fatal);
    assert_eq!(LogLevel::from_str("TRACE"), LogLevel::Info);
    assert_eq!(LogLevel::from_str(""), LogLevel::Info);
    assert_eq!(LogLevel::Warn.name(), "warn");
}

#[test]
fn logger_writes_at_its_level_and_above() {
    let mut l = LoggerAdapter::new();
    assert!(l.enabled(LogLevel::Info));
    assert!(!l.enabled(LogLevel::Debug));
    l.refresh_level("error");
    assert!(l.enabled(LogLevel::Fatal));
    assert!(l.enabled(LogLevel::Error));
    assert!(!l.enabled(LogLevel::Warn));
    l.refresh_level("trace");
    assert!(l.enabled(LogLevel::Trace));
    l.refresh_level("fatal");
    assert!(l.enabled(LogLevel::Fatal));
    assert!(!l.enabled(LogLevel::Error));
}

#[test]
fn cache_serves_fresh_entries_only() {
    let mut c = ConfigurationCache::new();
    assert!(c.get("k").is_none());
    c.write("k", string_entry("v".to_string(), 100));
    assert_eq!(c.fresh("k", 130, 30).unwrap().value_string, Some("v".to_string()));
    assert!(c.fresh("k", 131, 30).is_none());
    c.write("k", int_entry(5, 200));
    assert_eq!(c.get("k").unwrap().value_int, Some(5));
    assert!(is_fresh(70, 100, 30));
    assert!(!is_fresh(69, 100, 30));
}

#[test]
fn cache_keeps_its_time_to_live() {
    let mut c = ConfigurationCache::new();
    assert!(c.ttl_within(10));
    assert_eq!(c.cached_ttl(10), None);
    c.write(CACHE_TTL_KEY, ttl_entry(60, 1000));
    assert!(c.ttl_within(1060));
    assert_eq!(c.cached_ttl(1060), Some(60));
    assert_eq!(c.cached_ttl(1061), None);
    assert!(!c.ttl_within(59));
}

#[test]
fn configuration_file_location() {
    assert_eq!(home_directory(None, Some("C:/Users/me".to_string())), "C:/Users/me");
    assert_eq!(home_directory(Some("/home/me".to_string()), Some("x".to_string())), "/home/me");
    assert_eq!(home_directory(None, None), "");
    assert_eq!(configuration_file(None, "/home/me"), "/home/me/.config/beaver/configuration.yaml");
    assert_eq!(configuration_file(Some("/etc/b.yaml".to_string()), "/home/me"), "/etc/b.yaml");
}

#[test]
fn agents_are_named_after_their_path() {
    assert_eq!(AgentFile::filesystem_name("/agents/coder.yaml"), "coder");
    assert_eq!(AgentFile::filesystem_name("/agents/coder"), "coder");
    assert_eq!(AgentFile::filesystem_name("/agents/x.yaml.yaml"), "x");
    match AgentFile::source("/agents/coder") {
        AgentSource::Directory { config, prompt } => {
            assert_eq!(config, "/agents/coder/config.yaml");
            assert_eq!(prompt, "/agents/coder/prompt.md");
        },
        _ => panic!("expected a directory"),
    }
    assert!(matches!(AgentFile::source("/a/b.yaml"), AgentSource::Yaml { .. }));
    let (yaml, dir) = AgentFile::candidates("/agents", "coder");
    assert_eq!(yaml, "/agents/coder.yaml");
    assert_eq!(dir, "/agents/coder");
    assert!(AgentFile::validate("/agents/coder.yaml", "coder", "Be helpful").is_ok());
    let e = AgentFile::validate("/agents/coder.yaml", "other", "p").unwrap_err();
    assert_eq!(e.kind, ErrorKind::Internal);
    assert_eq!(e.code, "configuration_load_failed");
    assert_eq!(e.message, "Agent name is missing or missmatching in config: /agents/coder.yaml");
    let e = AgentFile::validate("/agents/coder", "coder", "").unwrap_err();
    assert_eq!(e.message, "Agent prompt is missing in config: /agents/coder");
}

fn message(t: MessageType, agent: &str, content: &str) -> Message {
    Message { message_type: t, agent_name: agent.to_string(), content: content.to_string(), cache_level: MessageCacheLevel::Disabled }
}

#[test]
fn chat_request_messages() {
    let mut prompt = message(MessageType::System, "main", "You are main");
    prompt.cache_level = MessageCacheLevel::Ephemeral1h;
    let messages = vec![
        message(MessageType::User, "main", "hi"),
        message(MessageType::Assistant, "helper", "done"),
        message(MessageType::Assistant, "main", "ok"),
        message(MessageType::Tool, "main", "42"),
    ];
    let (system, parts) = chat_request(&prompt, &messages, "main", MessageCacheLevel::Ephemeral5min);
    assert_eq!(system.role, ChatRole::System);
    assert_eq!(system.cache, Some(CacheControl::Ephemeral1h));
    assert_eq!(parts[1].role, ChatRole::User);
    assert_eq!(parts[1].text, "[subagent/helper]: done");
    assert_eq!(parts[2].role, ChatRole::Assistant);
    assert_eq!(parts[3].text, "--- TOOL/SKILL RESULT ---\n42\n--- END TOOL/SKILL RESULT ---");
    assert_eq!(parts[3].cache, Some(CacheControl::Ephemeral5m));
    assert_eq!(parts[0].cache, None);
    assert_eq!(tools_cache(None, MessageCacheLevel::Ephemeral24h), Some(CacheControl::Ephemeral24h));
    assert_eq!(tools_cache(Some(MessageCacheLevel::Disabled), MessageCacheLevel::Ephemeral24h), None);
}

#[test]
fn tools_are_offered_sorted_by_name() {
    let names = vec!["beta".to_string(), "alpha".to_string(), "Zed".to_string(), "alpha".to_string()];
    assert_eq!(tool_order(&names), vec![2, 1, 3, 0]);
}

#[test]
fn answers_are_cut_at_stop_sequences() {
    let stops = vec!["END".to_string(), "##".to_string()];
    assert_eq!(truncate_at_stops("abc##def END ghi", &stops), "abc");
    assert_eq!(truncate_at_stops("nothing here", &stops), "nothing here");
    assert_eq!(answer_text(ModelAdapter::OpenAIResp, &stops, "x END y"), "x ");
    assert_eq!(answer_text(ModelAdapter::Anthropic, &stops, "x END y"), "x END y");
    assert_eq!(answer_text(ModelAdapter::OpenAIResp, &Vec::new(), "x END y"), "x END y");
    let crossing = vec!["BC".to_string(), "AB".to_string()];
    assert_eq!(truncate_at_stops("xABCy", &crossing), "x");
    let nested = vec!["ABCD".to_string(), "BC".to_string()];
    assert_eq!(truncate_at_stops("ABCD", &nested), "A");
    let together = vec!["C".to_string(), "ABC".to_string()];
    assert_eq!(truncate_at_stops("xABCy", &together), "x");
    assert_eq!(truncate_at_stops("abc", &vec!["".to_string()]), "");
}

#[test]
fn request_options() {
    assert_eq!(max_tokens(100), 100);
    assert_eq!(max_tokens(u64::MAX), u32::MAX);
    assert_eq!(reasoning_effort(ReasoningEffort::Max, ModelAdapter::Gemini), RequestEffort::Max);
    assert_eq!(reasoning_effort(ReasoningEffort::Max, ModelAdapter::OpenAI), RequestEffort::XHigh);
    assert_eq!(reasoning_effort(ReasoningEffort::Low, ModelAdapter::OpenAI), RequestEffort::Low);
    assert_eq!(models_url("https://api.example.com/v1//"), "https://api.example.com/v1/models");
}

#[test]
fn providers_and_model_support() {
    let a = Anthropic::new();
    assert_eq!(a.genai().endpoint_key_name(), "inference.providers.anthropic.endpoint");
    assert_eq!(a.genai().api_key_name(), "inference.providers.anthropic.apikey");
    let models = vec!["m1".to_string(), "m2".to_string()];
    assert!(Anthropic::supports_model(&models, "m2"));
    assert!(!Anthropic::supports_model(&models, "m3"));
    let g = GenAi::new("e", "k");
    let e = g.supported_models();
    assert_eq!(e.code, "not_supported");
    assert_eq!(e.message, "The GenAI inference provider does not support listing available models");
}

fn creds(basic: Option<(&str, &str)>, bearer: Option<&str>, headers: Option<Vec<(&str, &str)>>) -> Option<McpCredentials> {
    Some(McpCredentials {
        basic: basic.map(|(u, p)| McpBasicCredentials { username: u.to_string(), password: p.to_string() }),
        bearer: bearer.map(|b| b.to_string()),
        headers: headers.map(|hs| hs.into_iter().map(|(k, v)| (k.to_string(), v.to_string())).collect()),
    })
}

#[test]
fn mcp_authentication_headers() {
    assert!(auth_headers(&None).unwrap().is_empty());
    let hs = auth_headers(&creds(Some(("user", "pass")), None, None)).unwrap();
    assert_eq!(hs, vec![("authorization".to_string(), "Basic dXNlcjpwYXNz".to_string())]);
    let hs = auth_headers(&creds(None, Some("tok"), Some(vec![("X-Team", "blue")]))).unwrap();
    assert_eq!(
        hs,
        vec![("authorization".to_string(), "Bearer tok".to_string()), ("x-team".to_string(), "blue".to_string())]
    );
    let e = auth_headers(&creds(Some(("u", "p")), Some("t"), None)).unwrap_err();
    assert_eq!(e.kind, ErrorKind::Validation);
    assert_eq!(e.code, "configuration_load_failed");
    assert_eq!(e.message, "MCP server configuration cannot have both basic and bearer credentials set");
    let e = auth_headers(&creds(None, Some("a\nb"), None)).unwrap_err();
    assert_eq!(e.kind, ErrorKind::Internal);
    assert_eq!(e.message, "Failed to create bearer auth header: failed to parse header value");
    let e = auth_headers(&creds(None, None, Some(vec![("bad name", "v")]))).unwrap_err();
    assert_eq!(e.message, "Failed to create custom header name 'bad name': invalid HTTP header name");
    let e = auth_headers(&creds(None, None, Some(vec![("ok", "v\u{7f}")]))).unwrap_err();
    assert_eq!(e.message, "Failed to create custom header value for header 'ok' failed to parse header value");
}

#[test]
fn mcp_tool_answers() {
    let texts = vec!["a".to_string(), "b".to_string()];
    assert_eq!(tool_answer("t", None, &texts, None).unwrap(), "a\nb");
    assert_eq!(tool_answer("t", Some("success"), &texts, Some("{\"x\":1}")).unwrap(), "a\nb\n{\"x\":1}");
    assert_eq!(tool_answer("t", Some("text"), &Vec::new(), Some("{}")).unwrap(), "{}");
    let e = tool_answer("t", Some("error"), &texts, None).unwrap_err();
    assert_eq!(e.code, "tool_call_failed");
    assert_eq!(e.message, "Tool 't' call failed with result type 'error'");
    assert!(listed("x".to_string(), None, Some(adapters::schema::Schema::new("x", ""))).is_none());
}

#[test]
fn mcp_session_needs_a_start() {
    let server = McpServer { name: "s".to_string(), description: String::new(), url: "u".to_string(), credentials: None };
    let mut session: McpSession<u32> = McpSession::new(server);
    let e = session.client().err().unwrap();
    assert_eq!(e.code, "internal_error");
    assert_eq!(e.message, "MCP client is not initialized. Call start_session() first.");
    session.start(7);
    assert_eq!(*session.client().ok().unwrap(), 7);
    assert_eq!(session.end().ok().unwrap(), 7);
    assert!(session.end().is_err());
}

#[test]
fn fetch_filter() {
    let f = FilteredFetcher::new(vec!["https://a.example/x".to_string(), "^https://b\\.example/.*$".to_string(), "^(".to_string()], vec!["get".to_string()]);
    assert!(f.is_allowed_url("https://a.example/x"));
    assert!(f.is_allowed_url("https://b.example/anything"));
    assert!(!f.is_allowed_url("https://c.example/"));
    assert!(f.is_allowed_method("GET"));
    assert!(f.is_allowed_method("get"));
    assert!(!f.is_allowed_method("POST"));
    assert_eq!(f.resolve_uri("https://c.example/").unwrap_err(), "URL not allowed for fetch: https://c.example/");
    assert_eq!(f.check_request("post", "https://a.example/x").unwrap_err(), "Method not allowed for fetch: POST https://a.example/x");
    assert_eq!(f.check_request("get", "https://z/").unwrap_err(), "URL not allowed for fetch: GET https://z/");
    assert!(f.check_request("get", "https://a.example/x").is_ok());
    let open = FilteredFetcher::new(Vec::new(), Vec::new());
    assert!(open.is_allowed_url("anything"));
    assert!(open.is_allowed_method("DELETE"));
}

#[test]
fn scripts_get_their_fetch_scope() {
    let js = JavaScript::new(
        "/d".to_string(),
        "/d/main.js".to_string(),
        Scopes { fetch: Some(FetchScope { urls: vec!["https://x".to_string()], methods: vec!["post".to_string()] }) },
    );
    assert!(js.fetch_enabled());
    let f = js.get_fetcher();
    assert!(f.is_allowed_method("POST"));
    assert!(!f.is_allowed_url("https://y"));
    let none = JavaScript::new("/d".to_string(), "/d/m.js".to_string(), Scopes { fetch: None });
    assert!(!none.fetch_enabled());
    assert!(none.get_fetcher().is_allowed_url("https://y"));
}

#[test]
fn base64_functions() {
    assert_eq!(btoa(Some("hello")).unwrap(), "aGVsbG8=");
    assert_eq!(atob(Some("aGVsbG8=")).unwrap(), "hello");
    assert_eq!(atob(btoa(Some("grüße")).unwrap().as_str().into()).unwrap(), "grüße");
    let (k, m) = btoa(None).unwrap_err();
    assert_eq!(k, ThrownKind::TypeError);
    assert_eq!(m, "btoa requires one argument");
    let (k, m) = atob(Some("***")).unwrap_err();
    assert_eq!(k, ThrownKind::RangeError);
    assert!(m.starts_with("Invalid base64 input: "));
}

#[test]
fn templates_render() {
    let engine = TeraTemplateEngine::new();
    let values = "{\"name\": \"<b>\"}";
    let out = engine.render("Hello {{ name }}!", values).unwrap();
    assert_eq!(out, "Hello &lt;b&gt;!");
    let e = engine.render("{{ ", values).unwrap_err();
    assert_eq!(e.code, "template_failed");
    assert!(e.message.starts_with("Failed to render template: "));
    assert_eq!(engine.render("Plain <text> & more\n", values).unwrap(), "Plain <text> & more\n");
    assert_eq!(engine.render("", values).unwrap(), "");
    let e = engine.render("x", "true").unwrap_err();
    assert_eq!(e.message, "Failed to build Tera context: from_serialize requires a struct or map, got bool");
    let e = engine.render("x", "[1]").unwrap_err();
    assert_eq!(e.message, "Failed to build Tera context: from_serialize requires a struct or map, got array");
    let e = engine.render("x", "-3").unwrap_err();
    assert_eq!(e.message, "Failed to build Tera context: from_serialize requires a struct or map, got i64");
    let e = engine.render("x", "{").unwrap_err();
    assert!(e.message.starts_with("Failed to build Tera context: "));
}

#[test]
fn model_listing() {
    let body = "{\"data\": [{\"id\":\"m1\"},{\"name\":\"x\"},{\"id\":\"m2\"}]}".to_string();
    assert_eq!(available_models(true, "200 OK", Ok(body)).unwrap(), vec!["m1".to_string(), "m2".to_string()]);
    let e = available_models(false, "401 Unauthorized", Ok("{ \"error\" : 1 }".to_string())).unwrap_err();
    assert_eq!(e.message, "Failed to list available models: HTTP 401 Unauthorized - {\"error\":1}");
    let e = available_models(true, "200 OK", Ok("{\"models\":[]}".to_string())).unwrap_err();
    assert_eq!(e.message, "Failed to parse models from response");
    let e = available_models(true, "200 OK", Ok("not json".to_string())).unwrap_err();
    assert!(e.message.starts_with("Failed to parse response body: "));
    let e = available_models(false, "500", Err("error decoding response body".to_string())).unwrap_err();
    assert_eq!(e.message, "Failed to parse response body: error decoding response body");
}

#[test]
fn base64_round_trip() {
    for s in ["", "hello", "grüße ✓", "a\nb"] {
        let e = btoa(Some(s)).unwrap();
        assert_eq!(atob(Some(&e)).unwrap(), s);
    }
    assert_eq!(btoa(Some("hello")).unwrap(), "aGVsbG8=");
}
