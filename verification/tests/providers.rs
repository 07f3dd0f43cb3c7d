use direct_inference::providers::{
    chat_completions_request, egress_host, models_request, sorted_model_ids, DirectProvider,
    DirectProviderConfig, DirectProviderManager, DirectProviderModel,
    DIRECT_PROVIDERS_STORAGE_KEY,
};

fn is_uuid_v4(s: &str) -> bool {
    let b: Vec<char> = s.chars().collect();
    if b.len() != 36 {
        return false;
    }
    for (i, c) in b.iter().enumerate() {
        if i == 8 || i == 13 || i == 18 || i == 23 {
            if *c != '-' {
                return false;
            }
        } else if !(c.is_ascii_digit() || ('a'..='f').contains(c)) {
            return false;
        }
    }
    b[14] == '4' && matches!(b[19], '8' | '9' | 'a' | 'b')
}

fn provider(id: &str, name: &str, model_ids: &[(&str, &str)]) -> DirectProvider {
    let mut p = DirectProvider::new(name.to_string(), format!("http://{}.local", name));
    p.id = id.to_string();
    p.models = model_ids
        .iter()
        .map(|(m, k)| DirectProviderModel { id: m.to_string(), config_key: k.to_string() })
        .collect();
    p
}

#[test]
fn storage_key_is_stable() {
    assert_eq!(DIRECT_PROVIDERS_STORAGE_KEY, "DirectProviders");
}

#[test]
fn chat_completions_url_appends_path() {
    let p = DirectProvider::new("ollama".to_string(), "http://localhost:11434".to_string());
    assert_eq!(p.chat_completions_url(), "http://localhost:11434/v1/chat/completions");
    assert_eq!(p.models_url(), "http://localhost:11434/v1/models");
}

#[test]
fn endpoint_urls_ignore_trailing_slashes() {
    let a = DirectProvider::new("a".to_string(), "https://api.example.com".to_string());
    let b = DirectProvider::new("b".to_string(), "https://api.example.com///".to_string());
    assert_eq!(a.chat_completions_url(), b.chat_completions_url());
    assert_eq!(a.models_url(), b.models_url());
    assert_eq!(b.models_url(), "https://api.example.com/v1/models");
}

#[test]
fn endpoint_url_of_empty_base() {
    let p = DirectProvider::new("x".to_string(), "/".to_string());
    assert_eq!(p.chat_completions_url(), "/v1/chat/completions");
}

#[test]
fn new_provider_has_fresh_id_and_no_key() {
    let a = DirectProvider::new("ollama".to_string(), "http://localhost:11434".to_string());
    let b = DirectProvider::new("ollama".to_string(), "http://localhost:11434".to_string());
    assert!(is_uuid_v4(&a.id));
    assert!(is_uuid_v4(&b.id));
    assert_ne!(a.id, b.id);
    assert_eq!(a.name, "ollama");
    assert_eq!(a.base_url, "http://localhost:11434");
    assert_eq!(a.api_key, "");
    assert!(a.default_headers.is_empty());
    assert!(a.models.is_empty());
}

#[test]
fn default_provider_is_empty() {
    let p = DirectProvider::default();
    assert!(is_uuid_v4(&p.id));
    assert_eq!(p.name, "");
    assert_eq!(p.base_url, "");
    assert_eq!(p.api_key, "");
    assert!(p.default_headers.is_empty());
    assert!(p.models.is_empty());
}

#[test]
fn new_model_gets_fresh_config_key() {
    let a = DirectProviderModel::new("llama3.2".to_string());
    let b = DirectProviderModel::new("llama3.2".to_string());
    assert_eq!(a.id, "llama3.2");
    assert!(is_uuid_v4(&a.config_key));
    assert_ne!(a.config_key, b.config_key);
}

#[test]
fn display_id_joins_provider_and_model() {
    let m = DirectProviderModel::new("llama3.2".to_string());
    assert_eq!(m.display_id("ollama"), "ollama/llama3.2");
    assert_eq!(m.display_id(""), "/llama3.2");
}

#[test]
fn clone_keeps_every_field() {
    let mut p = provider("p1", "one", &[("m", "k")]);
    p.default_headers = vec![("X-A".to_string(), "1".to_string())];
    p.api_key = "secret".to_string();
    let q = p.clone();
    assert_eq!(p, q);
}

#[test]
fn upsert_appends_new_provider() {
    let mut mgr = DirectProviderManager::new(vec![provider("p1", "one", &[])]);
    mgr.upsert_provider(provider("p2", "two", &[]));
    let ids: Vec<&str> = mgr.providers().iter().map(|p| p.id.as_str()).collect();
    assert_eq!(ids, vec!["p1", "p2"]);
}

#[test]
fn upsert_replaces_provider_with_same_id() {
    let mut mgr =
        DirectProviderManager::new(vec![provider("p1", "one", &[]), provider("p2", "two", &[])]);
    mgr.upsert_provider(provider("p1", "renamed", &[]));
    assert_eq!(mgr.providers().len(), 2);
    assert_eq!(mgr.providers()[0].name, "renamed");
    assert_eq!(mgr.providers()[1].name, "two");
}

#[test]
fn upsert_then_find_by_id_finds_it() {
    let mut mgr = DirectProviderManager::new(vec![provider("p1", "one", &[])]);
    mgr.upsert_provider(provider("p9", "nine", &[]));
    assert_eq!(mgr.find_by_id("p9").map(|p| p.name.as_str()), Some("nine"));
    assert!(mgr.find_by_id("missing").is_none());
}

#[test]
fn upsert_twice_is_upsert_once() {
    let mut once = DirectProviderManager::new(vec![provider("p1", "one", &[])]);
    let mut twice = DirectProviderManager::new(vec![provider("p1", "one", &[])]);
    once.upsert_provider(provider("p2", "two", &[]));
    twice.upsert_provider(provider("p2", "two", &[]));
    twice.upsert_provider(provider("p2", "two", &[]));
    assert_eq!(once.providers(), twice.providers());
}

#[test]
fn remove_provider_drops_every_match() {
    let mut mgr = DirectProviderManager::new(vec![
        provider("p1", "one", &[]),
        provider("p2", "two", &[]),
        provider("p1", "dup", &[]),
    ]);
    mgr.remove_provider("p1");
    let ids: Vec<&str> = mgr.providers().iter().map(|p| p.id.as_str()).collect();
    assert_eq!(ids, vec!["p2"]);
}

#[test]
fn remove_unknown_id_changes_nothing() {
    let mut mgr =
        DirectProviderManager::new(vec![provider("p1", "one", &[]), provider("p2", "two", &[])]);
    mgr.remove_provider("nope");
    assert_eq!(mgr.providers().len(), 2);
}

#[test]
fn remove_undoes_add_of_new_provider() {
    let before = vec![provider("p1", "one", &[("m", "k1")])];
    let mut mgr = DirectProviderManager::new(vec![provider("p1", "one", &[("m", "k1")])]);
    mgr.upsert_provider(provider("p2", "two", &[]));
    mgr.remove_provider("p2");
    assert_eq!(mgr.providers(), &before[..]);
}

#[test]
fn find_by_config_key_searches_all_providers() {
    let mgr = DirectProviderManager::new(vec![
        provider("p1", "one", &[("a", "k1"), ("b", "k2")]),
        provider("p2", "two", &[("c", "k3")]),
    ]);
    let (p, m) = mgr.find_by_config_key("k3").unwrap();
    assert_eq!(p.id, "p2");
    assert_eq!(m.id, "c");
    let (p, m) = mgr.find_by_config_key("k2").unwrap();
    assert_eq!(p.id, "p1");
    assert_eq!(m.id, "b");
    assert!(mgr.find_by_config_key("k4").is_none());
}

#[test]
fn find_by_config_key_takes_first_match() {
    let mgr = DirectProviderManager::new(vec![
        provider("p1", "one", &[("a", "same")]),
        provider("p2", "two", &[("b", "same")]),
    ]);
    let (p, m) = mgr.find_by_config_key("same").unwrap();
    assert_eq!((p.id.as_str(), m.id.as_str()), ("p1", "a"));
}

#[test]
fn set_models_keeps_known_config_keys() {
    let mut mgr = DirectProviderManager::new(vec![provider("p1", "one", &[("a", "ka"), ("b", "kb")])]);
    let found = mgr.set_models("p1", vec!["b".to_string(), "c".to_string()]);
    assert!(found);
    let models = &mgr.providers()[0].models;
    assert_eq!(models.len(), 2);
    assert_eq!(models[0].id, "b");
    assert_eq!(models[0].config_key, "kb");
    assert_eq!(models[1].id, "c");
    assert!(is_uuid_v4(&models[1].config_key));
    // A stored selection of model b still resolves.
    let (_, m) = mgr.find_by_config_key("kb").unwrap();
    assert_eq!(m.id, "b");
    assert!(mgr.find_by_config_key("ka").is_none());
}

#[test]
fn set_models_with_same_ids_changes_nothing() {
    let mut mgr = DirectProviderManager::new(vec![provider("p1", "one", &[("a", "ka"), ("b", "kb")])]);
    let before = mgr.providers()[0].clone();
    assert!(mgr.set_models("p1", vec!["a".to_string(), "b".to_string()]));
    assert_eq!(mgr.providers()[0], before);
}

#[test]
fn set_models_uses_last_key_of_duplicate_ids() {
    let mut mgr =
        DirectProviderManager::new(vec![provider("p1", "one", &[("a", "first"), ("a", "second")])]);
    assert!(mgr.set_models("p1", vec!["a".to_string()]));
    assert_eq!(mgr.providers()[0].models[0].config_key, "second");
}

#[test]
fn set_models_for_unknown_provider_changes_nothing() {
    let mut mgr = DirectProviderManager::new(vec![provider("p1", "one", &[("a", "ka")])]);
    assert!(!mgr.set_models("zz", vec!["x".to_string()]));
    assert_eq!(mgr.providers()[0].models.len(), 1);
    assert_eq!(mgr.providers()[0].models[0].config_key, "ka");
}

#[test]
fn set_models_keeps_other_fields() {
    let mut p = provider("p1", "one", &[("a", "ka")]);
    p.api_key = "key".to_string();
    p.default_headers = vec![("X-H".to_string(), "v".to_string())];
    let mut mgr = DirectProviderManager::new(vec![p, provider("p2", "two", &[("z", "kz")])]);
    assert!(mgr.set_models("p1", vec![]));
    let q = &mgr.providers()[0];
    assert_eq!(q.api_key, "key");
    assert_eq!(q.default_headers, vec![("X-H".to_string(), "v".to_string())]);
    assert!(q.models.is_empty());
    assert_eq!(mgr.providers()[1].models[0].config_key, "kz");
}

#[test]
fn sorted_model_ids_sorts_by_code_point() {
    let ids = vec!["llama3.2".to_string(), "Mistral".to_string(), "gemma".to_string(), "b".to_string()];
    assert_eq!(sorted_model_ids(ids), vec!["Mistral", "b", "gemma", "llama3.2"]);
    assert_eq!(sorted_model_ids(vec![]), Vec::<String>::new());
    assert_eq!(
        sorted_model_ids(vec!["x".to_string(), "x".to_string(), "a".to_string()]),
        vec!["a", "x", "x"]
    );
}

#[test]
fn models_request_filters_headers_and_sets_bearer() {
    let headers = vec![
        ("anthropic-version".to_string(), "2023-06-01".to_string()),
        ("bad name".to_string(), "v".to_string()),
        ("X-Newline".to_string(), "a\nb".to_string()),
        ("X-Tab".to_string(), "a\tb".to_string()),
        ("".to_string(), "empty".to_string()),
    ];
    let call = models_request("http://localhost:11434/", "sk-1", &headers);
    assert_eq!(call.url, "http://localhost:11434/v1/models");
    assert_eq!(call.bearer_token.as_deref(), Some("sk-1"));
    assert_eq!(
        call.headers,
        vec![
            ("anthropic-version".to_string(), "2023-06-01".to_string()),
            ("X-Tab".to_string(), "a\tb".to_string()),
        ]
    );
}

#[test]
fn models_request_without_key_has_no_bearer() {
    let call = models_request("http://h", "", &vec![]);
    assert_eq!(call.bearer_token, None);
    assert!(call.headers.is_empty());
}

#[test]
fn chat_completions_request_targets_completions_endpoint() {
    let config = DirectProviderConfig {
        model_id: "gpt".to_string(),
        base_url: "https://api.openai.com/".to_string(),
        api_key: "k".to_string(),
        extra_headers: vec![("X-Del".to_string(), "\u{7f}".to_string())],
    };
    let call = chat_completions_request(&config);
    assert_eq!(call.url, "https://api.openai.com/v1/chat/completions");
    assert_eq!(call.bearer_token.as_deref(), Some("k"));
    assert!(call.headers.is_empty());
}

#[test]
fn egress_host_is_host_of_base_url() {
    let p = DirectProvider::new("o".to_string(), "http://localhost:11434".to_string());
    assert_eq!(egress_host(&p).as_deref(), Some("localhost"));
    let p = DirectProvider::new("o".to_string(), "https://API.Example.com/v1".to_string());
    assert_eq!(egress_host(&p).as_deref(), Some("api.example.com"));
    let p = DirectProvider::new("o".to_string(), "not a url".to_string());
    assert_eq!(egress_host(&p), None);
    let p = DirectProvider::new("o".to_string(), "".to_string());
    assert_eq!(egress_host(&p), None);
}
