//! The `nemoguardrails` plugin itself and the registration of its kind.
use vstd::prelude::*;
use vstd::string::*;

use crate::config::{plugin_kind_name, ConfigObject, NeMoGuardrailsConfig, NEMO_GUARDRAILS_PLUGIN_KIND};
use crate::plugin::{
    already_registered_message, diags_view, ConfigDiagnostic, PluginDescriptor, PluginError,
    PluginRegistry,
};
use crate::text::{contains_seq, str_contains};
use crate::validate::{plugin_config_diags, validate_nemoguardrails_plugin_config};

verus! {

/// Why initializing an enabled component fails for now.
pub open spec fn backend_missing_message() -> Seq<char> {
    "built-in NeMo Guardrails plugin backend is not implemented yet"@
}

/// The kind map of a registry after the component kind was registered: a
/// kind that is already present keeps what it had.
pub open spec fn with_component_registered(kinds: Map<Seq<char>, bool>) -> Map<Seq<char>, bool> {
    if kinds.contains_key(plugin_kind_name()) {
        kinds
    } else {
        kinds.insert(plugin_kind_name(), false)
    }
}

/// The built-in NeMo Guardrails plugin.
pub struct NeMoGuardrailsPlugin;

impl NeMoGuardrailsPlugin {
    /// The component kind this plugin serves.
    pub fn plugin_kind(&self) -> (k: &'static str)
        ensures
            k@ == plugin_kind_name(),
    {
        NEMO_GUARDRAILS_PLUGIN_KIND
    }

    /// A configuration may hold at most one component of this kind.
    pub fn allows_multiple_components(&self) -> (b: bool)
        ensures
            !b,
    {
        false
    }

    /// Validates a component configuration; see
    /// `validate_nemoguardrails_plugin_config`.
    pub fn validate(
        &self,
        parsed: Result<NeMoGuardrailsConfig, PluginError>,
        plugin_config: &ConfigObject,
    ) -> (diagnostics: Vec<ConfigDiagnostic>)
        ensures
            diags_view(diagnostics@) == plugin_config_diags(parsed, plugin_config.fields@),
    {
        validate_nemoguardrails_plugin_config(parsed, plugin_config)
    }

    /// Initializes an enabled component. The runtime backend does not exist
    /// yet, so this always fails.
    pub fn register(&self) -> (r: Result<(), PluginError>)
        ensures
            r matches Err(PluginError::RegistrationFailed(m)) && m@ == backend_missing_message(),
    {
        Err(
            PluginError::RegistrationFailed(
                String::from_str("built-in NeMo Guardrails plugin backend is not implemented yet"),
            ),
        )
    }

    /// What a registry records of this plugin.
    pub fn descriptor(&self) -> (d: PluginDescriptor)
        ensures
            d.kind@ == plugin_kind_name(),
            !d.allows_multiple_components,
    {
        PluginDescriptor {
            kind: String::from_str(NEMO_GUARDRAILS_PLUGIN_KIND),
            allows_multiple_components: self.allows_multiple_components(),
        }
    }
}

/// A refusal because a kind is taken says so in its message.
proof fn lemma_refusal_mentions_already_registered(kind: Seq<char>)
    ensures
        contains_seq(already_registered_message(kind), "already registered"@),
{
    reveal_strlit("plugin kind '");
    reveal_strlit("' is already registered");
    reveal_strlit("already registered");
    let m = already_registered_message(kind);
    let i: int = kind.len() as int + 18;
    assert(m.subrange(i, i + 18) =~= "already registered"@);
}

/// Registers the `nemoguardrails` component kind in the plugin registry.
/// Registering it again is not an error.
pub fn register_nemoguardrails_component(registry: &mut PluginRegistry) -> (r: Result<
    (),
    PluginError,
>)
    ensures
        r is Ok,
        final(registry)@ == with_component_registered(old(registry)@),
{
    let plugin = NeMoGuardrailsPlugin;
    proof {
        lemma_refusal_mentions_already_registered(plugin_kind_name());
    }
    match registry.register_plugin(plugin.descriptor()) {
        Ok(()) => Ok(()),
        Err(PluginError::RegistrationFailed(message)) if str_contains(
            message.as_str(),
            "already registered",
        ) && registry.lookup_plugin(NEMO_GUARDRAILS_PLUGIN_KIND).is_some() => Ok(()),
        Err(err) => Err(err),
    }
}

/// Deregisters the `nemoguardrails` component kind from the plugin registry;
/// tells whether it was registered.
pub fn deregister_nemoguardrails_component(registry: &mut PluginRegistry) -> (r: bool)
    ensures
        r == old(registry)@.contains_key(plugin_kind_name()),
        final(registry)@ == old(registry)@.remove(plugin_kind_name()),
{
    registry.deregister_plugin(NEMO_GUARDRAILS_PLUGIN_KIND)
}

} // verus!
