//! LLM connection settings: built-in defaults, the credential account of
//! each provider, and what is kept when settings are loaded or saved. The
//! API key itself lives only in the OS credential store.

use vstd::prelude::*;

use crate::text::{chars_of, string_of, trim_ws, trimmed_chars};

verus! {

pub const LLM_SETTINGS_FILE_NAME: &'static str = "llm.json";
pub const CREDENTIAL_SERVICE: &'static str = "com.parallelworld.desktop.llm";
pub const LLM_SETTINGS_SCHEMA_VERSION: u16 = 1;

pub const DEFAULT_BASE_URL: &'static str = "http://127.0.0.1:8080/v1";
pub const DEFAULT_MODEL: &'static str = "default";
pub const DEFAULT_SYSTEM_PROMPT: &'static str = "あなたはデスクトップに常駐するAIパートナーです。応答の1行目には {\"emotion\":\"表情名\",\"intensity\":0.0から1.0,\"motion\":\"モーション名\"} という制御JSONだけを出力し、空行を1行挟んでから本文を書いてください。本文は日本語の話し言葉で、短く自然な文にしてください。\n絵文字・顔文字・記号の羅列は使わないでください。";
pub const DEFAULT_CHARACTER_PROMPT: &'static str = "あなたの名前はエプシロン。明るく丁寧な口調で話す、好奇心旺盛なパートナーです。";

#[derive(Debug, Clone, Copy, PartialEq, Eq, Structural)]
pub enum LlmProviderKind {
    Local,
    Openai,
    Gemini,
    OpencodeZen,
    Custom,
}

#[derive(Debug)]
pub struct LlmSettings {
    pub schema_version: u16,
    pub provider: LlmProviderKind,
    pub base_url: String,
    pub model: String,
    /// A key typed in the settings form; never persisted.
    pub api_key: String,
    pub api_key_configured: bool,
    pub clear_api_key: bool,
    pub allow_remote: bool,
    pub system_prompt: String,
    pub character_prompt: String,
    pub strip_emoji: bool,
}

pub open spec fn credential_account_spec(provider: LlmProviderKind) -> Seq<char> {
    match provider {
        LlmProviderKind::Local => "local"@,
        LlmProviderKind::Openai => "openai"@,
        LlmProviderKind::Gemini => "gemini"@,
        LlmProviderKind::OpencodeZen => "opencode-zen"@,
        LlmProviderKind::Custom => "custom"@,
    }
}

/// The credential-store account holding a provider's API key.
pub fn credential_account(provider: LlmProviderKind) -> (r: &'static str)
    ensures
        r@ == credential_account_spec(provider),
{
    match provider {
        LlmProviderKind::Local => "local",
        LlmProviderKind::Openai => "openai",
        LlmProviderKind::Gemini => "gemini",
        LlmProviderKind::OpencodeZen => "opencode-zen",
        LlmProviderKind::Custom => "custom",
    }
}

/// The local provider needs no key; the others read one from the
/// credential store.
pub fn provider_uses_credential(provider: LlmProviderKind) -> (r: bool)
    ensures
        r == (provider != LlmProviderKind::Local),
{
    provider != LlmProviderKind::Local
}

fn owned(s: &str) -> (r: String)
    ensures
        r@ == s@,
{
    string_of(chars_of(s).as_slice())
}

/// Built-in defaults: a llama-server on loopback and the reply format
/// contract (a control JSON prelude line, then the text).
pub fn default_llm_settings() -> (s: LlmSettings)
    ensures
        s.schema_version == LLM_SETTINGS_SCHEMA_VERSION,
        s.provider == LlmProviderKind::Local,
        s.base_url@ == DEFAULT_BASE_URL@,
        s.model@ == DEFAULT_MODEL@,
        s.api_key@.len() == 0,
        !s.api_key_configured,
        !s.clear_api_key,
        !s.allow_remote,
        s.system_prompt@ == DEFAULT_SYSTEM_PROMPT@,
        s.character_prompt@ == DEFAULT_CHARACTER_PROMPT@,
        s.strip_emoji,
{
    LlmSettings {
        schema_version: LLM_SETTINGS_SCHEMA_VERSION,
        provider: LlmProviderKind::Local,
        base_url: owned(DEFAULT_BASE_URL),
        model: owned(DEFAULT_MODEL),
        api_key: String::new(),
        api_key_configured: false,
        clear_api_key: false,
        allow_remote: false,
        system_prompt: owned(DEFAULT_SYSTEM_PROMPT),
        character_prompt: owned(DEFAULT_CHARACTER_PROMPT),
        strip_emoji: true,
    }
}

/// Settings as loaded: the transient key fields are cleared, and for a
/// provider with a credential, `api_key_configured` reports whether the
/// store holds a key.
pub fn loaded_settings(settings: LlmSettings, stored_key_present: bool) -> (r: LlmSettings)
    ensures
        r.api_key@.len() == 0,
        !r.clear_api_key,
        r.api_key_configured == if settings.provider == LlmProviderKind::Local {
            settings.api_key_configured
        } else {
            stored_key_present
        },
        r.schema_version == settings.schema_version,
        r.provider == settings.provider,
        r.base_url == settings.base_url,
        r.model == settings.model,
        r.allow_remote == settings.allow_remote,
        r.system_prompt == settings.system_prompt,
        r.character_prompt == settings.character_prompt,
        r.strip_emoji == settings.strip_emoji,
{
    let configured = if settings.provider == LlmProviderKind::Local {
        settings.api_key_configured
    } else {
        stored_key_present
    };
    LlmSettings { api_key: String::new(), clear_api_key: false, api_key_configured: configured, ..settings }
}

/// What saving does with the credential store.
#[derive(Debug)]
pub enum ApiKeyAction {
    Delete,
    /// Nothing typed: the configured flag is kept.
    Keep,
    /// Store the trimmed key.
    Store(String),
}

/// Clearing wins over a typed key; a blank key keeps the stored one.
pub fn api_key_action(settings: &LlmSettings) -> (r: ApiKeyAction)
    ensures
        settings.clear_api_key ==> r is Delete,
        !settings.clear_api_key && trim_ws(settings.api_key@).len() == 0 ==> r is Keep,
        !settings.clear_api_key && trim_ws(settings.api_key@).len() > 0 ==> (r matches ApiKeyAction::Store(k)
            && k@ == trim_ws(settings.api_key@)),
{
    if settings.clear_api_key {
        return ApiKeyAction::Delete;
    }
    let key = trimmed_chars(settings.api_key.as_str());
    if key.len() == 0 {
        ApiKeyAction::Keep
    } else {
        ApiKeyAction::Store(string_of(key.as_slice()))
    }
}

/// The settings written to `llm.json`: never a key, never the clear request.
pub fn persisted_settings(settings: LlmSettings, api_key_configured: bool) -> (r: LlmSettings)
    ensures
        r.api_key@.len() == 0,
        !r.clear_api_key,
        r.api_key_configured == api_key_configured,
        r.schema_version == settings.schema_version,
        r.provider == settings.provider,
        r.base_url == settings.base_url,
        r.model == settings.model,
        r.allow_remote == settings.allow_remote,
        r.system_prompt == settings.system_prompt,
        r.character_prompt == settings.character_prompt,
        r.strip_emoji == settings.strip_emoji,
{
    LlmSettings { api_key: String::new(), clear_api_key: false, api_key_configured, ..settings }
}

} // verus!
