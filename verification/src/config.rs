use vstd::prelude::*;

use crate::text::{spec_decimal, u64_to_string};

verus! {

/// One environment variable of a launch spec.
#[derive(Debug)]
pub struct EnvVar {
    /// Variable name.
    pub name: String,
    /// Variable value.
    pub value: String,
}

impl Clone for EnvVar {
    fn clone(&self) -> (res: Self)
        ensures
            res == *self,
    {
        EnvVar { name: self.name.clone(), value: self.value.clone() }
    }
}

/// The launch spec of one configured agent: how to start its subprocess.
#[derive(Debug)]
pub struct AgentProcessConfig {
    /// Executable to launch.
    pub command: String,
    /// Arguments handed to it.
    pub args: Vec<String>,
    /// Environment variables set for it.
    pub env: Vec<EnvVar>,
    /// Custom runtime path override, when one is configured.
    pub nodejs_path: Option<String>,
}

impl AgentProcessConfig {
    /// Whether `other` describes the same launch.
    pub open spec fn same_launch(&self, other: &Self) -> bool {
        &&& self.command == other.command
        &&& self.args@ == other.args@
        &&& self.env@ == other.env@
        &&& self.nodejs_path == other.nodejs_path
    }
}

fn clone_string_vec(v: &Vec<String>) -> (r: Vec<String>)
    ensures
        r@ == v@,
{
    let mut r: Vec<String> = Vec::new();
    let n = v.len();
    let mut i: usize = 0;
    while i < n
        invariant
            i <= n,
            n == v@.len(),
            r@.len() == i,
            forall|j: int| 0 <= j < i ==> #[trigger] r@[j] == v@[j],
        decreases n - i,
    {
        r.push(v[i].clone());
        i = i + 1;
    }
    proof {
        assert(r@ =~= v@);
    }
    r
}

fn clone_env_vec(v: &Vec<EnvVar>) -> (r: Vec<EnvVar>)
    ensures
        r@ == v@,
{
    let mut r: Vec<EnvVar> = Vec::new();
    let n = v.len();
    let mut i: usize = 0;
    while i < n
        invariant
            i <= n,
            n == v@.len(),
            r@.len() == i,
            forall|j: int| 0 <= j < i ==> #[trigger] r@[j] == v@[j],
        decreases n - i,
    {
        r.push(v[i].clone());
        i = i + 1;
    }
    proof {
        assert(r@ =~= v@);
    }
    r
}

impl Clone for AgentProcessConfig {
    fn clone(&self) -> (res: Self)
        ensures
            res.same_launch(self),
    {
        AgentProcessConfig {
            command: self.command.clone(),
            args: clone_string_vec(&self.args),
            env: clone_env_vec(&self.env),
            nodejs_path: match &self.nodejs_path {
                Some(p) => Some(p.clone()),
                None => None,
            },
        }
    }
}

/// Connection settings for one model provider.
#[derive(Debug)]
pub struct ModelConfig {
    /// Whether the model is offered.
    pub enabled: bool,
    /// Provider kind.
    pub provider: String,
    /// Endpoint base URL.
    pub base_url: String,
    /// Credential handed to the provider.
    pub api_key: String,
    /// Model identifier at the provider.
    pub model_name: String,
}

impl Clone for ModelConfig {
    fn clone(&self) -> (res: Self)
        ensures
            res == *self,
    {
        ModelConfig {
            enabled: self.enabled,
            provider: self.provider.clone(),
            base_url: self.base_url.clone(),
            api_key: self.api_key.clone(),
            model_name: self.model_name.clone(),
        }
    }
}

/// A custom command template offered in the chat input.
#[derive(Debug)]
pub struct CommandConfig {
    /// What the command does.
    pub description: String,
    /// The text inserted when it is used.
    pub template: String,
}

impl Clone for CommandConfig {
    fn clone(&self) -> (res: Self)
        ensures
            res == *self,
    {
        CommandConfig {
            description: self.description.clone(),
            template: self.template.clone(),
        }
    }
}

/// Network proxy settings.
#[derive(Debug)]
pub struct ProxyConfig {
    /// Whether the proxy is used at all.
    pub enabled: bool,
    /// Scheme: http, https or socks5.
    pub proxy_type: String,
    /// Proxy host.
    pub host: String,
    /// Proxy port.
    pub port: u16,
    /// User name for proxy authentication, empty for none.
    pub username: String,
    /// Password for proxy authentication.
    pub password: String,
}

impl Clone for ProxyConfig {
    fn clone(&self) -> (res: Self)
        ensures
            res == *self,
    {
        ProxyConfig {
            enabled: self.enabled,
            proxy_type: self.proxy_type.clone(),
            host: self.host.clone(),
            port: self.port,
            username: self.username.clone(),
            password: self.password.clone(),
        }
    }
}

impl Default for ProxyConfig {
    /// A disabled proxy with everything blank.
    fn default() -> (res: Self)
        ensures
            !res.enabled,
            res.proxy_type@.len() == 0,
            res.host@.len() == 0,
            res.port == 0,
            res.username@.len() == 0,
            res.password@.len() == 0,
    {
        ProxyConfig {
            enabled: false,
            proxy_type: String::new(),
            host: String::new(),
            port: 0,
            username: String::new(),
            password: String::new(),
        }
    }
}

/// The user-and-password prefix of a proxy URL: empty when no user name is
/// set, else `user:password@`.
pub open spec fn spec_proxy_auth(p: ProxyConfig) -> Seq<char> {
    if p.username@.len() > 0 {
        p.username@ + ":"@ + p.password@ + "@"@
    } else {
        Seq::<char>::empty()
    }
}

/// The proxy URL placed into subprocess environments:
/// `scheme://[user:password@]host:port`.
pub open spec fn spec_proxy_url(p: ProxyConfig) -> Seq<char> {
    p.proxy_type@ + "://"@ + spec_proxy_auth(p) + p.host@ + ":"@ + spec_decimal(p.port as nat)
}

impl ProxyConfig {
    /// The value for proxy environment variables: `None` when the proxy
    /// is disabled or has no host, else the proxy URL.
    pub fn to_env_value(&self) -> (r: Option<String>)
        ensures
            r is Some <==> self.enabled && self.host@.len() > 0,
            r is Some ==> r->0@ == spec_proxy_url(*self),
    {
        if !self.enabled || self.host.as_str().is_empty() {
            return None;
        }
        let mut url = self.proxy_type.clone();
        url.append("://");
        if !self.username.as_str().is_empty() {
            url.append(self.username.as_str());
            url.append(":");
            url.append(self.password.as_str());
            url.append("@");
        }
        url.append(self.host.as_str());
        url.append(":");
        let port = u64_to_string(self.port as u64);
        url.append(port.as_str());
        proof {
            assert(url@ =~= spec_proxy_url(*self));
        }
        Some(url)
    }
}

/// The default upload directory: the current directory.
pub fn default_upload_dir() -> (r: String)
    ensures
        r@ == "."@,
{
    String::from_str(".")
}

/// How many lines a tool call preview shows unless configured otherwise.
pub const DEFAULT_TOOL_CALL_PREVIEW_MAX_LINES: usize = 10;

/// The default cap on tool call preview lines.
pub fn default_tool_call_preview_max_lines() -> (r: usize)
    ensures
        r == DEFAULT_TOOL_CALL_PREVIEW_MAX_LINES,
{
    DEFAULT_TOOL_CALL_PREVIEW_MAX_LINES
}

/// The proxy scheme assumed when none is configured.
pub fn default_proxy_type() -> (r: String)
    ensures
        r@ == "http"@,
{
    String::from_str("http")
}

/// An agent launch spec under its configured name.
#[derive(Debug)]
pub struct NamedAgentConfig {
    /// Unique agent name.
    pub name: String,
    /// How to launch it.
    pub config: AgentProcessConfig,
}

/// A model entry under its configured name.
#[derive(Debug)]
pub struct NamedModelConfig {
    /// Unique model name.
    pub name: String,
    /// Its provider settings.
    pub config: ModelConfig,
}

/// A command template under its configured name.
#[derive(Debug)]
pub struct NamedCommandConfig {
    /// The shortcut that invokes it.
    pub name: String,
    /// The command itself.
    pub config: CommandConfig,
}

/// One named system prompt.
#[derive(Debug)]
pub struct PromptEntry {
    /// What the prompt is for.
    pub key: String,
    /// The prompt text.
    pub text: String,
}

/// The configuration document consumed at startup: which agents exist and
/// how to launch them, plus model, command, prompt and proxy settings.
/// Parsing the file into this shape happens outside; the core consumes it
/// as data.
#[derive(Debug)]
pub struct Config {
    /// The configured agents.
    pub agent_servers: Vec<NamedAgentConfig>,
    /// Where uploads land.
    pub upload_dir: String,
    /// The configured model providers.
    pub models: Vec<NamedModelConfig>,
    /// The configured command templates.
    pub commands: Vec<NamedCommandConfig>,
    /// Global system prompts for assistant features.
    pub system_prompts: Vec<PromptEntry>,
    /// Cap on tool call preview lines; zero disables truncation.
    pub tool_call_preview_max_lines: usize,
    /// Network proxy settings.
    pub proxy: ProxyConfig,
}

impl Default for Config {
    /// No agents, models, commands or prompts; uploads in the current
    /// directory, the documented preview cap, and a disabled proxy.
    fn default() -> (res: Self)
        ensures
            res.agent_servers@.len() == 0,
            res.upload_dir@ == "."@,
            res.models@.len() == 0,
            res.commands@.len() == 0,
            res.system_prompts@.len() == 0,
            res.tool_call_preview_max_lines == DEFAULT_TOOL_CALL_PREVIEW_MAX_LINES,
            !res.proxy.enabled,
    {
        Config {
            agent_servers: Vec::new(),
            upload_dir: default_upload_dir(),
            models: Vec::new(),
            commands: Vec::new(),
            system_prompts: Vec::new(),
            tool_call_preview_max_lines: default_tool_call_preview_max_lines(),
            proxy: ProxyConfig::default(),
        }
    }
}

} // verus!
