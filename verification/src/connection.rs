//! Selection of the provider, base URL and credential source from a Codex
//! configuration and the command's overrides.
//!
//! Reading `config.toml`, `auth.json` and environment variables is the
//! program's work: [`CodexConnection::requires_config`] says whether the
//! configuration must be read at all, [`CodexConnection::resolve`] turns it
//! into a [`ConnectionPlan`] that names where the credential comes from, and
//! [`ConnectionPlan::connect`] takes the credential that was read.
use vstd::prelude::*;

use crate::error::ConfigError;
use crate::text::{is_blank, is_blank_text, str_eq, trim_trailing, trim_trailing_char};
use vstd::string::StringExecFns;

verus! {

/// One entry of `[model_providers]` in `config.toml`.
#[derive(Debug, Clone)]
pub struct ModelProvider {
    pub base_url: Option<String>,
    pub env_key: Option<String>,
    pub requires_openai_auth: Option<bool>,
}

/// A named entry of `[model_providers]`.
#[derive(Debug, Clone)]
pub struct ProviderEntry {
    pub name: String,
    pub provider: ModelProvider,
}

/// The parts of `config.toml` that the client reads.
#[derive(Debug, Clone)]
pub struct CodexConfig {
    pub model_provider: Option<String>,
    pub openai_base_url: Option<String>,
    pub model_providers: Vec<ProviderEntry>,
}

/// Where the API key of a connection comes from.
#[derive(Debug, Clone, PartialEq, Eq)]
pub enum CredentialSource {
    /// No `Authorization` header is sent.
    NoAuth,
    /// The key is read from the environment variable of this name.
    EnvVar(String),
    /// The key is `OPENAI_API_KEY` of `auth.json` in the Codex home.
    AuthFile,
}

/// A base URL and the source of the credential that goes with it.
#[derive(Debug, Clone)]
pub struct ConnectionPlan {
    pub base_url: String,
    pub credential: CredentialSource,
}

/// Where and how requests are sent.
#[derive(Debug, Clone)]
pub struct CodexConnection {
    pub base_url: String,
    pub api_key: Option<String>,
}

/// The providers that Codex defines itself and that need no
/// `[model_providers]` entry.
pub open spec fn is_builtin_provider(name: Seq<char>) -> bool {
    name == "openai"@ || name == "ollama"@ || name == "lmstudio"@
}

/// The built-in providers that run locally and take no credential.
pub open spec fn is_local_provider(name: Seq<char>) -> bool {
    name == "ollama"@ || name == "lmstudio"@
}

/// The standard base URL of a built-in provider; `None` selects OpenAI.
pub open spec fn builtin_base_url(model_provider: Option<Seq<char>>) -> Option<Seq<char>> {
    match model_provider {
        None => Some("https://api.openai.com/v1"@),
        Some(name) => if name == "openai"@ {
            Some("https://api.openai.com/v1"@)
        } else if name == "ollama"@ {
            Some("http://localhost:11434/v1"@)
        } else if name == "lmstudio"@ {
            Some("http://localhost:1234/v1"@)
        } else {
            None
        },
    }
}

/// The view of an optional string.
pub open spec fn opt_view(s: Option<String>) -> Option<Seq<char>> {
    match s {
        Some(v) => Some(v@),
        None => None,
    }
}

/// `i` is the first entry named `name`.
pub open spec fn is_first_named(entries: Seq<ProviderEntry>, name: Seq<char>, i: int) -> bool {
    &&& 0 <= i < entries.len()
    &&& entries[i].name@ == name
    &&& forall|j: int| 0 <= j < i ==> entries[j].name@ != name
}

/// Some entry is named `name`.
pub open spec fn has_named(entries: Seq<ProviderEntry>, name: Seq<char>) -> bool {
    exists|i: int| 0 <= i < entries.len() && #[trigger] entries[i].name@ == name
}

/// The provider entry that `config` selects: none without `model_provider`
/// or for a built-in provider, else the first entry of that name.
pub open spec fn selected_provider(config: CodexConfig) -> Option<ModelProvider> {
    match config.model_provider {
        None => None,
        Some(name) => if is_builtin_provider(name@) || !has_named(config.model_providers@, name@) {
            None
        } else {
            Some(
                config.model_providers@[choose|i: int|
                    is_first_named(config.model_providers@, name@, i)].provider,
            )
        },
    }
}

/// `config` names a provider that is neither built in nor configured.
pub open spec fn provider_missing(config: CodexConfig) -> bool {
    match config.model_provider {
        None => false,
        Some(name) => !is_builtin_provider(name@) && !has_named(config.model_providers@, name@),
    }
}

/// The base URL before trailing slashes are removed: the override, else
/// the provider's, else `openai_base_url`, else the built-in default.
pub open spec fn chosen_base_url(
    config: CodexConfig,
    provider: Option<ModelProvider>,
    base_url_override: Option<Seq<char>>,
) -> Option<Seq<char>> {
    if base_url_override is Some {
        base_url_override
    } else if provider is Some && provider->0.base_url is Some {
        opt_view(provider->0.base_url)
    } else if config.openai_base_url is Some {
        opt_view(config.openai_base_url)
    } else if provider is None {
        builtin_base_url(opt_view(config.model_provider))
    } else {
        None
    }
}

/// The environment variable named by the override, else by the provider.
pub open spec fn chosen_env_key(
    provider: Option<ModelProvider>,
    api_key_env_override: Option<Seq<char>>,
) -> Option<Seq<char>> {
    if api_key_env_override is Some {
        api_key_env_override
    } else if provider is Some {
        opt_view(provider->0.env_key)
    } else {
        None
    }
}

/// How the credential is found; `None` when there is no way to find one.
pub open spec fn chosen_credential(
    config: CodexConfig,
    provider: Option<ModelProvider>,
    api_key_env_override: Option<Seq<char>>,
    no_auth: bool,
) -> Option<CredentialKind> {
    if no_auth {
        Some(CredentialKind::NoAuth)
    } else if chosen_env_key(provider, api_key_env_override) is Some {
        Some(CredentialKind::EnvVar(chosen_env_key(provider, api_key_env_override)->0))
    } else if provider is Some {
        match provider->0.requires_openai_auth {
            Some(false) => None,
            _ => Some(CredentialKind::AuthFile),
        }
    } else if config.model_provider is Some && is_local_provider(
        config.model_provider->0@,
    ) {
        Some(CredentialKind::NoAuth)
    } else {
        Some(CredentialKind::AuthFile)
    }
}

/// A [`CredentialSource`] with the variable name as characters.
pub enum CredentialKind {
    NoAuth,
    EnvVar(Seq<char>),
    AuthFile,
}

impl CredentialSource {
    /// The source with the variable name as characters.
    pub open spec fn kind(self) -> CredentialKind {
        match self {
            CredentialSource::NoAuth => CredentialKind::NoAuth,
            CredentialSource::EnvVar(name) => CredentialKind::EnvVar(name@),
            CredentialSource::AuthFile => CredentialKind::AuthFile,
        }
    }
}

/// Finds the entry of `entries` named `name`, the first one where several are.
fn find_provider<'a>(entries: &'a Vec<ProviderEntry>, name: &str) -> (r: Option<&'a ModelProvider>)
    ensures
        match r {
            Some(p) => exists|i: int|
                is_first_named(entries@, name@, i) && *p == entries@[i].provider,
            None => !has_named(entries@, name@),
        },
{
    let mut i: usize = 0;
    while i < entries.len()
        invariant
            i <= entries@.len(),
            forall|j: int| 0 <= j < i ==> entries@[j].name@ != name@,
        decreases entries@.len() - i,
    {
        if str_eq(entries[i].name.as_str(), name) {
            assert(is_first_named(entries@, name@, i as int));
            return Some(&entries[i].provider);
        }
        i = i + 1;
    }
    assert forall|j: int| 0 <= j < entries@.len() implies #[trigger] entries@[j].name@ != name@ by {}
    None
}

proof fn lemma_first_named_unique(entries: Seq<ProviderEntry>, name: Seq<char>, i: int, k: int)
    requires
        is_first_named(entries, name, i),
        is_first_named(entries, name, k),
    ensures
        i == k,
{
}

/// Whether `name` is `openai`, `ollama` or `lmstudio`.
fn is_builtin_name(name: &str) -> (r: bool)
    ensures
        r == is_builtin_provider(name@),
{
    proof {
        reveal_strlit("openai");
        reveal_strlit("ollama");
        reveal_strlit("lmstudio");
    }
    str_eq(name, "openai") || str_eq(name, "ollama") || str_eq(name, "lmstudio")
}

/// The `[model_providers]` entry of the active provider: `None` when no
/// `model_provider` is set or it names a built-in provider, else the entry
/// of that name, and an error when there is none.
pub fn active_provider(config: &CodexConfig) -> (r: Result<Option<&ModelProvider>, ConfigError>)
    ensures
        provider_missing(*config) <==> r is Err,
        r matches Err(e) ==> (e matches ConfigError::ProviderNotConfigured { name } && Some(name@)
            == opt_view(config.model_provider)),
        r matches Ok(p) ==> match p {
            Some(p) => selected_provider(*config) == Some(*p),
            None => selected_provider(*config) is None,
        },
{
    match &config.model_provider {
        None => Ok(None),
        Some(name) => {
            if is_builtin_name(name.as_str()) {
                return Ok(None);
            }
            match find_provider(&config.model_providers, name.as_str()) {
                Some(p) => {
                    proof {
                        let i = choose|i: int| is_first_named(config.model_providers@, name@, i)
                            && *p == config.model_providers@[i].provider;
                        let k = choose|k: int| is_first_named(config.model_providers@, name@, k);
                        lemma_first_named_unique(config.model_providers@, name@, i, k);
                    }
                    Ok(Some(p))
                },
                None => Err(ConfigError::ProviderNotConfigured { name: name.clone() }),
            }
        },
    }
}


/// The `[model_providers]` entry as an optional value.
fn cloned_provider(p: Option<&ModelProvider>) -> (r: Option<ModelProvider>)
    ensures
        match p {
            Some(q) => r == Some(*q),
            None => r is None,
        },
{
    match p {
        Some(q) => Some(
            ModelProvider {
                base_url: clone_opt(&q.base_url),
                env_key: clone_opt(&q.env_key),
                requires_openai_auth: q.requires_openai_auth,
            },
        ),
        None => None,
    }
}

/// A copy of an optional string.
fn clone_opt(s: &Option<String>) -> (r: Option<String>)
    ensures
        r == *s,
{
    match s {
        Some(v) => Some(v.clone()),
        None => None,
    }
}

/// The standard base URL of a built-in provider, `None` selecting OpenAI.
fn builtin_base_url_of(model_provider: &Option<String>) -> (r: Option<&'static str>)
    ensures
        match r {
            Some(u) => builtin_base_url(opt_view(*model_provider)) == Some(u@),
            None => builtin_base_url(opt_view(*model_provider)) is None,
        },
{
    proof {
        reveal_strlit("openai");
        reveal_strlit("ollama");
        reveal_strlit("lmstudio");
    }
    match model_provider {
        None => Some("https://api.openai.com/v1"),
        Some(name) => {
            if str_eq(name.as_str(), "openai") {
                Some("https://api.openai.com/v1")
            } else if str_eq(name.as_str(), "ollama") {
                Some("http://localhost:11434/v1")
            } else if str_eq(name.as_str(), "lmstudio") {
                Some("http://localhost:1234/v1")
            } else {
                None
            }
        },
    }
}

/// Whether `name` is `ollama` or `lmstudio`.
fn is_local_name(name: &str) -> (r: bool)
    ensures
        r == is_local_provider(name@),
{
    proof {
        reveal_strlit("ollama");
        reveal_strlit("lmstudio");
    }
    str_eq(name, "ollama") || str_eq(name, "lmstudio")
}

/// The Codex home directory: the one given on the command line, else the
/// one `CODEX_HOME` names; `None` leaves `.codex` under the user's home.
pub fn choose_codex_home<P>(given: Option<P>, from_env: Option<P>) -> (r: Option<P>)
    ensures
        given is Some ==> r == given,
        given is None ==> r == from_env,
{
    match given {
        Some(p) => Some(p),
        None => from_env,
    }
}

impl CodexConnection {
    /// A connection to `base_url`, sending `api_key` as bearer token when
    /// there is one.
    pub fn new(base_url: String, api_key: Option<String>) -> (c: Self)
        ensures
            c.base_url == base_url,
            c.api_key == api_key,
    {
        CodexConnection { base_url, api_key }
    }

    /// The base URL that endpoints are appended to.
    pub fn base_url(&self) -> (r: &str)
        ensures
            r@ == self.base_url@,
    {
        self.base_url.as_str()
    }

    /// The bearer token, if requests carry one.
    pub fn api_key(&self) -> (r: Option<&str>)
        ensures
            match r {
                Some(k) => self.api_key is Some && k@ == self.api_key->0@,
                None => self.api_key is None,
            },
    {
        match &self.api_key {
            Some(k) => Some(k.as_str()),
            None => None,
        }
    }

    /// The URL of `path` below the base URL, with the base URL's trailing
    /// slashes removed first.
    pub fn endpoint(&self, path: &str) -> (r: String)
        ensures
            r@ == trim_trailing(self.base_url@, '/') + seq!['/'] + path@,
    {
        proof {
            reveal_strlit("/");
        }
        let mut r = trim_trailing_char(self.base_url.as_str(), '/');
        r.append("/");
        r.append(path);
        r
    }

    /// Whether `config.toml` has to be read: not when a base URL is given
    /// and the credential needs no configuration, because authentication is
    /// off or its environment variable is given.
    pub fn requires_config(
        base_url_override: &Option<String>,
        api_key_env_override: &Option<String>,
        no_auth: bool,
    ) -> (r: bool)
        ensures
            r == !(base_url_override is Some && (no_auth || api_key_env_override is Some)),
    {
        !(base_url_override.is_some() && (no_auth || api_key_env_override.is_some()))
    }

    /// Selects the provider, the base URL and the credential source.
    ///
    /// The active provider must be built in or configured.  The base URL is
    /// the override, else the provider's, else `openai_base_url`, else the
    /// standard URL of a built-in provider, without trailing slashes.  The
    /// credential is none under `no_auth`; else the environment variable
    /// named by the override or the provider; else `auth.json` unless the
    /// provider sets `requires_openai_auth = false` or is a local built-in
    /// provider (`ollama`, `lmstudio`), which takes none.
    pub fn resolve(
        config: &CodexConfig,
        base_url_override: Option<String>,
        api_key_env_override: Option<String>,
        no_auth: bool,
    ) -> (r: Result<ConnectionPlan, ConfigError>)
        ensures
            provider_missing(*config) ==> (r matches Err(e) && e matches ConfigError::ProviderNotConfigured {
                name,
            } && Some(name@) == opt_view(config.model_provider)),
            !provider_missing(*config) ==> match chosen_base_url(
                *config,
                selected_provider(*config),
                opt_view(base_url_override),
            ) {
                None => r matches Err(ConfigError::NoBaseUrl),
                Some(url) => match chosen_credential(
                    *config,
                    selected_provider(*config),
                    opt_view(api_key_env_override),
                    no_auth,
                ) {
                    None => r matches Err(ConfigError::NoCredentialSource),
                    Some(kind) => r matches Ok(plan) && plan.base_url@ == trim_trailing(url, '/')
                        && plan.credential.kind() == kind,
                },
            },
    {
        let provider = match active_provider(config) {
            Ok(p) => cloned_provider(p),
            Err(e) => return Err(e),
        };
        let ghost sel = selected_provider(*config);
        assert(provider == sel);
        let url: String = match base_url_override {
            Some(u) => u,
            None => {
                let from_provider = match &provider {
                    Some(p) => clone_opt(&p.base_url),
                    None => None,
                };
                match from_provider {
                    Some(u) => u,
                    None => match &config.openai_base_url {
                        Some(u) => u.clone(),
                        None => {
                            if provider.is_some() {
                                return Err(ConfigError::NoBaseUrl);
                            }
                            match builtin_base_url_of(&config.model_provider) {
                                Some(u) => u.to_owned(),
                                None => return Err(ConfigError::NoBaseUrl),
                            }
                        },
                    },
                }
            },
        };
        let credential = if no_auth {
            CredentialSource::NoAuth
        } else {
            let env_key = match api_key_env_override {
                Some(k) => Some(k),
                None => match &provider {
                    Some(p) => clone_opt(&p.env_key),
                    None => None,
                },
            };
            match env_key {
                Some(k) => CredentialSource::EnvVar(k),
                None => match &provider {
                    Some(p) => match p.requires_openai_auth {
                        Some(false) => return Err(ConfigError::NoCredentialSource),
                        _ => CredentialSource::AuthFile,
                    },
                    None => {
                        let local = match &config.model_provider {
                            Some(name) => is_local_name(name.as_str()),
                            None => false,
                        };
                        if local {
                            CredentialSource::NoAuth
                        } else {
                            CredentialSource::AuthFile
                        }
                    },
                },
            }
        };
        Ok(ConnectionPlan { base_url: trim_trailing_char(url.as_str(), '/'), credential })
    }
}

impl ConnectionPlan {
    /// The connection, given the credential read from the plan's source
    /// (`None` when nothing was read).  A key from `auth.json` must hold
    /// more than white space.
    pub fn connect(self, credential: Option<String>) -> (r: Result<CodexConnection, ConfigError>)
        ensures
            match self.credential {
                CredentialSource::NoAuth => r matches Ok(c) && c.base_url == self.base_url
                    && c.api_key is None,
                CredentialSource::EnvVar(_) => match credential {
                    None => r matches Err(ConfigError::MissingCredential),
                    Some(k) => r matches Ok(c) && c.base_url == self.base_url && c.api_key
                        == Some(k),
                },
                CredentialSource::AuthFile => match credential {
                    None => r matches Err(ConfigError::MissingCredential),
                    Some(k) => if is_blank_text(k@) {
                        r matches Err(ConfigError::EmptyAuthKey)
                    } else {
                        r matches Ok(c) && c.base_url == self.base_url && c.api_key == Some(k)
                    },
                },
            },
    {
        match self.credential {
            CredentialSource::NoAuth => Ok(CodexConnection { base_url: self.base_url, api_key: None }),
            CredentialSource::EnvVar(_) => match credential {
                None => Err(ConfigError::MissingCredential),
                Some(k) => Ok(CodexConnection { base_url: self.base_url, api_key: Some(k) }),
            },
            CredentialSource::AuthFile => match credential {
                None => Err(ConfigError::MissingCredential),
                Some(k) => {
                    if is_blank(k.as_str()) {
                        Err(ConfigError::EmptyAuthKey)
                    } else {
                        Ok(CodexConnection { base_url: self.base_url, api_key: Some(k) })
                    }
                },
            },
        }
    }
}

} // verus!
