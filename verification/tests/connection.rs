use codex_image_cli::connection::{
    active_provider, choose_codex_home, CodexConfig, CodexConnection, ConnectionPlan, CredentialSource,
    ModelProvider, ProviderEntry,
};
use codex_image_cli::error::ConfigError;

fn provider(base_url: Option<&str>, env_key: Option<&str>, auth: Option<bool>) -> ModelProvider {
    ModelProvider {
        base_url: base_url.map(str::to_owned),
        env_key: env_key.map(str::to_owned),
        requires_openai_auth: auth,
    }
}

fn config(active: Option<&str>, openai_base_url: Option<&str>, entries: Vec<(&str, ModelProvider)>) -> CodexConfig {
    CodexConfig {
        model_provider: active.map(str::to_owned),
        openai_base_url: openai_base_url.map(str::to_owned),
        model_providers: entries
            .into_iter()
            .map(|(name, provider)| ProviderEntry { name: name.to_owned(), provider })
            .collect(),
    }
}

#[test]
fn selects_the_active_custom_provider() {
    // model_provider = "proxy"
    // [model_providers.proxy]
    // base_url = "https://proxy.example/v1"
    // requires_openai_auth = true
    let config = config(
        Some("proxy"),
        None,
        vec![("proxy", provider(Some("https://proxy.example/v1"), None, Some(true)))],
    );

    let provider = active_provider(&config).unwrap().unwrap();
    assert_eq!(
        provider.base_url.as_deref(),
        Some("https://proxy.example/v1")
    );
    assert_eq!(provider.requires_openai_auth, Some(true));
}

#[test]
fn builtin_and_missing_providers() {
    assert!(active_provider(&config(None, None, vec![])).unwrap().is_none());
    for name in ["openai", "ollama", "lmstudio"] {
        let cfg = config(Some(name), None, vec![(name, provider(Some("x"), None, None))]);
        assert!(active_provider(&cfg).unwrap().is_none());
    }
    let cfg = config(Some("proxy"), None, vec![("other", provider(None, None, None))]);
    assert_eq!(
        active_provider(&cfg).unwrap_err(),
        ConfigError::ProviderNotConfigured { name: "proxy".to_owned() }
    );
}

#[test]
fn the_first_entry_of_a_name_is_selected() {
    let cfg = config(
        Some("p"),
        None,
        vec![
            ("q", provider(Some("q"), None, None)),
            ("p", provider(Some("first"), None, None)),
            ("p", provider(Some("second"), None, None)),
        ],
    );
    assert_eq!(active_provider(&cfg).unwrap().unwrap().base_url.as_deref(), Some("first"));
}

#[test]
fn openai_defaults_to_its_public_url_and_codex_auth() {
    let plan = CodexConnection::resolve(&config(None, None, vec![]), None, None, false).unwrap();
    assert_eq!(plan.base_url, "https://api.openai.com/v1");
    assert_eq!(plan.credential, CredentialSource::AuthFile);
    let plan = CodexConnection::resolve(&config(Some("openai"), Some("https://gw.example/v1///"), vec![]), None, None, false).unwrap();
    assert_eq!(plan.base_url, "https://gw.example/v1");
}

#[test]
fn local_providers_default_to_local_urls_without_credentials() {
    let plan = CodexConnection::resolve(&config(Some("ollama"), None, vec![]), None, None, false).unwrap();
    assert_eq!(plan.base_url, "http://localhost:11434/v1");
    assert_eq!(plan.credential, CredentialSource::NoAuth);
    let plan = CodexConnection::resolve(&config(Some("lmstudio"), None, vec![]), None, None, false).unwrap();
    assert_eq!(plan.base_url, "http://localhost:1234/v1");
    assert_eq!(plan.credential, CredentialSource::NoAuth);
}

#[test]
fn custom_provider_url_and_env_key() {
    let cfg = config(
        Some("proxy"),
        Some("https://ignored.example"),
        vec![("proxy", provider(Some("https://proxy.example/v1/"), Some("PROXY_KEY"), None))],
    );
    let plan = CodexConnection::resolve(&cfg, None, None, false).unwrap();
    assert_eq!(plan.base_url, "https://proxy.example/v1");
    assert_eq!(plan.credential, CredentialSource::EnvVar("PROXY_KEY".to_owned()));
    let plan = CodexConnection::resolve(&cfg, Some("http://o/".to_owned()), Some("MINE".to_owned()), false).unwrap();
    assert_eq!(plan.base_url, "http://o");
    assert_eq!(plan.credential, CredentialSource::EnvVar("MINE".to_owned()));
}

#[test]
fn resolution_errors() {
    let cfg = config(Some("proxy"), None, vec![("proxy", provider(None, None, None))]);
    assert_eq!(CodexConnection::resolve(&cfg, None, None, false).unwrap_err(), ConfigError::NoBaseUrl);
    let cfg = config(Some("proxy"), None, vec![("proxy", provider(Some("u"), None, Some(false)))]);
    assert_eq!(CodexConnection::resolve(&cfg, None, None, false).unwrap_err(), ConfigError::NoCredentialSource);
    let plan = CodexConnection::resolve(&cfg, None, None, true).unwrap();
    assert_eq!(plan.credential, CredentialSource::NoAuth);
    let cfg = config(Some("missing"), None, vec![]);
    assert_eq!(
        CodexConnection::resolve(&cfg, Some("u".to_owned()), None, true).unwrap_err(),
        ConfigError::ProviderNotConfigured { name: "missing".to_owned() }
    );
}

#[test]
fn complete_overrides_need_no_config() {
    assert!(!CodexConnection::requires_config(&Some("u".to_owned()), &None, true));
    assert!(!CodexConnection::requires_config(&Some("u".to_owned()), &Some("K".to_owned()), false));
    assert!(CodexConnection::requires_config(&Some("u".to_owned()), &None, false));
    assert!(CodexConnection::requires_config(&None, &Some("K".to_owned()), true));
    let empty = config(None, None, vec![]);
    let plan = CodexConnection::resolve(&empty, Some("http://127.0.0.1:8080/v1".to_owned()), None, true).unwrap();
    assert_eq!(plan.base_url, "http://127.0.0.1:8080/v1");
    let connection = plan.connect(Some("ignored".to_owned())).unwrap();
    assert_eq!(connection.api_key(), None);
}

#[test]
fn connecting_takes_the_credential_of_the_plan() {
    let plan = |credential| ConnectionPlan { base_url: "u".to_owned(), credential };
    let c = plan(CredentialSource::EnvVar("K".to_owned())).connect(Some("secret".to_owned())).unwrap();
    assert_eq!(c.api_key(), Some("secret"));
    assert_eq!(c.base_url(), "u");
    assert_eq!(
        plan(CredentialSource::EnvVar("K".to_owned())).connect(None).unwrap_err(),
        ConfigError::MissingCredential
    );
    assert_eq!(
        plan(CredentialSource::AuthFile).connect(Some("  \n".to_owned())).unwrap_err(),
        ConfigError::EmptyAuthKey
    );
    assert_eq!(
        plan(CredentialSource::AuthFile).connect(Some("sk-1".to_owned())).unwrap().api_key(),
        Some("sk-1")
    );
    assert_eq!(plan(CredentialSource::AuthFile).connect(None).unwrap_err(), ConfigError::MissingCredential);
}

#[test]
fn endpoints_join_without_double_slashes() {
    let c = CodexConnection::new("http://host/v1//".to_owned(), None);
    assert_eq!(c.endpoint("images/generations"), "http://host/v1/images/generations");
    let c = CodexConnection::new("http://host/v1".to_owned(), None);
    assert_eq!(c.endpoint("images/edits"), "http://host/v1/images/edits");
}

#[test]
fn complete_overrides_give_the_same_plan_with_any_config() {
    let custom = config(
        Some("proxy"),
        Some("https://configured.example"),
        vec![("proxy", provider(Some("https://proxy.example"), Some("PROXY_KEY"), Some(false)))],
    );
    let empty = config(None, None, vec![]);
    for cfg in [&custom, &empty] {
        let plan = CodexConnection::resolve(cfg, Some("http://o".to_owned()), Some("K".to_owned()), false).unwrap();
        assert_eq!(plan.base_url, "http://o");
        assert_eq!(plan.credential, CredentialSource::EnvVar("K".to_owned()));
        let plan = CodexConnection::resolve(cfg, Some("http://o".to_owned()), None, true).unwrap();
        assert_eq!(plan.credential, CredentialSource::NoAuth);
    }
}

#[test]
fn resolved_base_urls_join_endpoints_with_one_slash() {
    let cfg = config(None, Some("https://gw.example/v1///"), vec![]);
    let connection = CodexConnection::resolve(&cfg, None, None, true)
        .unwrap()
        .connect(None)
        .unwrap();
    assert_eq!(connection.base_url(), "https://gw.example/v1");
    assert_eq!(connection.endpoint("images/generations"), "https://gw.example/v1/images/generations");
}

#[test]
fn codex_home_prefers_the_option_then_the_environment() {
    assert_eq!(choose_codex_home(Some("given"), Some("env")), Some("given"));
    assert_eq!(choose_codex_home(None, Some("env")), Some("env"));
    assert_eq!(choose_codex_home::<&str>(None, None), None);
}
