//! The configuration document of the `nemoguardrails` component: its typed
//! form, its defaults, and the key structure of the raw JSON object it was
//! read from.
use std::collections::HashMap;

use vstd::prelude::*;
use vstd::string::*;

use crate::plugin::{default_policy, ConfigPolicy};

verus! {

/// The plugin kind name reserved for the built-in component.
pub const NEMO_GUARDRAILS_PLUGIN_KIND: &'static str = "nemoguardrails";

/// The characters of the plugin kind name.
pub open spec fn plugin_kind_name() -> Seq<char> {
    NEMO_GUARDRAILS_PLUGIN_KIND@
}

/// Top-level typed helper for configuring the built-in plugin.
#[derive(Debug, Clone)]
pub struct ComponentSpec {
    /// Whether the component should be activated.
    pub enabled: bool,
    /// NeMo Guardrails component config.
    pub config: NeMoGuardrailsConfig,
}

impl ComponentSpec {
    /// Creates an enabled component spec.
    pub fn new(config: NeMoGuardrailsConfig) -> (s: Self)
        ensures
            s.enabled,
            s.config == config,
    {
        ComponentSpec { enabled: true, config }
    }
}

/// Canonical config document for the built-in NeMo Guardrails plugin.
#[derive(Debug, Clone)]
pub struct NeMoGuardrailsConfig {
    /// Config schema version.
    pub version: u32,
    /// Backend mode: `remote` or `local`.
    pub mode: String,
    /// Path to a native NeMo Guardrails config directory.
    pub config_path: Option<String>,
    /// Inline native NeMo Guardrails YAML config.
    pub config_yaml: Option<String>,
    /// Optional inline Colang content. Valid only with `config_yaml`.
    pub colang_content: Option<String>,
    /// Provider request/response codec for LLM-managed surfaces.
    pub codec: Option<String>,
    /// Whether to run input rails around managed LLM execution.
    pub input: bool,
    /// Whether to run output rails around managed LLM execution.
    pub output: bool,
    /// Whether to run tool-input rails around managed tool execution.
    pub tool_input: bool,
    /// Whether to run tool-output rails around managed tool execution.
    pub tool_output: bool,
    /// Whether to expose streaming LLM guardrails through the plugin contract.
    pub streaming: bool,
    /// Intercept priority. Lower values run earlier.
    pub priority: i32,
    /// Remote-backend settings used when `mode = "remote"`.
    pub remote: Option<RemoteBackendConfig>,
    /// Local-backend settings used when `mode = "local"`.
    pub local: Option<LocalBackendConfig>,
    /// Component-local unsupported-config policy.
    pub policy: ConfigPolicy,
}

/// Remote-backend settings for a hosted Guardrails service.
#[derive(Debug, Clone)]
pub struct RemoteBackendConfig {
    /// Base URL for the remote Guardrails service.
    pub endpoint: Option<String>,
    /// Remote Guardrails config identifier to use for this component.
    pub config_id: Option<String>,
    /// Remote Guardrails config identifiers to combine for this component.
    pub config_ids: Vec<String>,
    /// Static request headers sent to the remote service.
    pub headers: HashMap<String, String>,
    /// Request timeout in milliseconds.
    pub timeout_millis: u64,
}

/// Local-backend settings for the Python `nemoguardrails` runtime.
#[derive(Debug, Clone)]
pub struct LocalBackendConfig {
    /// Optional import path for the Python runtime module.
    pub python_module: Option<String>,
}

/// Schema version a document has when it states none.
pub fn default_config_version() -> (v: u32)
    ensures
        v == 1,
{
    1
}

/// Backend mode a document has when it states none.
pub fn default_mode() -> (m: String)
    ensures
        m@ == "remote"@,
{
    String::from_str("remote")
}

/// Value of the LLM surface switches that default to on.
pub fn default_true() -> (b: bool)
    ensures
        b,
{
    true
}

/// Intercept priority a document has when it states none.
pub fn default_priority() -> (p: i32)
    ensures
        p == 100,
{
    100
}

/// Remote request timeout a document has when it states none.
pub fn default_timeout_millis() -> (t: u64)
    ensures
        t == 30_000,
{
    30_000
}

impl Default for NeMoGuardrailsConfig {
    fn default() -> (c: Self)
        ensures
            c.version == 1,
            c.mode@ == "remote"@,
            c.config_path is None,
            c.config_yaml is None,
            c.colang_content is None,
            c.codec is None,
            c.input,
            c.output,
            !c.tool_input,
            !c.tool_output,
            !c.streaming,
            c.priority == 100,
            c.remote is None,
            c.local is None,
            c.policy == default_policy(),
    {
        NeMoGuardrailsConfig {
            version: default_config_version(),
            mode: default_mode(),
            config_path: None,
            config_yaml: None,
            colang_content: None,
            codec: None,
            input: true,
            output: true,
            tool_input: false,
            tool_output: false,
            streaming: false,
            priority: default_priority(),
            remote: None,
            local: None,
            policy: ConfigPolicy::default(),
        }
    }
}

impl Default for RemoteBackendConfig {
    fn default() -> (c: Self)
        ensures
            c.endpoint is None,
            c.config_id is None,
            c.config_ids@.len() == 0,
            c.headers@ == Map::<String, String>::empty(),
            c.timeout_millis == 0,
    {
        RemoteBackendConfig {
            endpoint: None,
            config_id: None,
            config_ids: Vec::new(),
            headers: HashMap::new(),
            timeout_millis: 0,
        }
    }
}

impl Default for LocalBackendConfig {
    fn default() -> (c: Self)
        ensures
            c.python_module is None,
    {
        LocalBackendConfig { python_module: None }
    }
}

/// One member of a JSON configuration object: its key and, when its value is
/// itself an object, that object's keys.
#[derive(Debug, Clone)]
pub struct ConfigField {
    /// The member's key.
    pub name: String,
    /// The keys of the member's value, when that value is an object.
    pub object_keys: Option<Vec<String>>,
}

/// The key structure of a raw JSON configuration object, as far as
/// validation reads it: its keys in order, and for each key whose value is an
/// object, that object's keys.
#[derive(Debug, Clone)]
pub struct ConfigObject {
    /// The members, in the object's order.
    pub fields: Vec<ConfigField>,
}

/// The characters of each string of a sequence.
pub open spec fn strings_view(v: Seq<String>) -> Seq<Seq<char>> {
    v.map_values(|s: String| s@)
}

/// The keys of an object-valued member, as character sequences.
pub open spec fn keys_view(o: Option<Vec<String>>) -> Option<Seq<Seq<char>>> {
    match o {
        Some(v) => Some(strings_view(v@)),
        None => None,
    }
}

/// The keys of a configuration object.
pub open spec fn object_keys(fields: Seq<ConfigField>) -> Seq<Seq<char>> {
    fields.map_values(|f: ConfigField| f.name@)
}

/// The keys of the object stored under `name`, when the first member named
/// `name` holds an object; `None` when there is no such member or its value is
/// not an object.
pub open spec fn section_keys(fields: Seq<ConfigField>, name: Seq<char>) -> Option<Seq<Seq<char>>>
    decreases fields.len(),
{
    if fields.len() == 0 {
        None
    } else if fields[0].name@ == name {
        keys_view(fields[0].object_keys)
    } else {
        section_keys(fields.drop_first(), name)
    }
}

impl ConfigObject {
    /// The object's keys, in order.
    pub fn keys(&self) -> (r: Vec<String>)
        ensures
            strings_view(r@) == object_keys(self.fields@),
    {
        let n = self.fields.len();
        let mut r: Vec<String> = Vec::new();
        let mut i: usize = 0;
        while i < n
            invariant
                n == self.fields@.len(),
                i <= n,
                r@.len() == i,
                forall|j: int| 0 <= j < i ==> (#[trigger] r@[j])@ == self.fields@[j].name@,
            decreases n - i,
        {
            r.push(self.fields[i].name.clone());
            i = i + 1;
        }
        assert(strings_view(r@) =~= object_keys(self.fields@));
        r
    }

    /// The keys of the object stored under `name`, if that member exists and
    /// holds an object.
    pub fn section(&self, name: &str) -> (r: Option<&Vec<String>>)
        ensures
            match r {
                Some(v) => section_keys(self.fields@, name@) == Some(strings_view(v@)),
                None => section_keys(self.fields@, name@) is None,
            },
    {
        let n = self.fields.len();
        let mut i: usize = 0;
        assert(self.fields@.skip(0) =~= self.fields@);
        while i < n
            invariant
                n == self.fields@.len(),
                i <= n,
                section_keys(self.fields@, name@) == section_keys(self.fields@.skip(i as int), name@),
            decreases n - i,
        {
            let f = &self.fields[i];
            assert(self.fields@.skip(i as int)[0] == self.fields@[i as int]);
            assert(self.fields@.skip(i as int).drop_first() =~= self.fields@.skip(i + 1));
            if crate::text::str_eq(f.name.as_str(), name) {
                return match &f.object_keys {
                    Some(v) => Some(v),
                    None => None,
                };
            }
            i = i + 1;
        }
        assert(self.fields@.skip(n as int).len() == 0);
        None
    }
}

} // verus!
