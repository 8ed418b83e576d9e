//! Validation of a `nemoguardrails` component configuration: every rule the
//! component enforces, each stated as the exact diagnostics it appends.
use vstd::prelude::*;
use vstd::string::*;

use crate::config::{
    keys_view, object_keys, plugin_kind_name, section_keys, strings_view, ConfigObject,
    NeMoGuardrailsConfig, NEMO_GUARDRAILS_PLUGIN_KIND,
};
use crate::plugin::{
    diags_view, opt_view, policy_diag, push_policy_diag, ConfigDiagnostic, ConfigPolicy,
    DiagnosticLevel, DiagnosticView, PluginError, UnsupportedBehavior,
};
use crate::text::{decimal, decimal_string, is_blank, is_blank_seq, str_eq};

verus! {

// ---------------------------------------------------------------------------
// The rules, as specifications.
// ---------------------------------------------------------------------------

/// The component the component-level findings are about.
pub open spec fn kind_component() -> Option<Seq<char>> {
    Some(plugin_kind_name())
}

/// Code of a known field holding a value the component does not support.
pub open spec fn code_unsupported_value() -> Seq<char> {
    "nemoguardrails.unsupported_value"@
}

/// Code of a schema version the component does not support.
pub open spec fn code_unsupported_version() -> Seq<char> {
    "nemoguardrails.unsupported_config_version"@
}

/// Code of a configuration that names no usable source of rails.
pub open spec fn code_invalid_source() -> Seq<char> {
    "nemoguardrails.invalid_config_source"@
}

/// Code of a field the component does not know.
pub open spec fn code_unknown_field() -> Seq<char> {
    "nemoguardrails.unknown_field"@
}

/// Code of a configuration that could not be read at all.
pub open spec fn code_invalid_plugin_config() -> Seq<char> {
    "nemoguardrails.invalid_plugin_config"@
}

/// An optional string that is present and not blank.
pub open spec fn has_content(o: Option<String>) -> bool {
    o is Some && !is_blank_seq(o->0@)
}

/// An optional string that is present but blank.
pub open spec fn is_present_blank(o: Option<String>) -> bool {
    o is Some && is_blank_seq(o->0@)
}

/// A finding about a value, reported under the policy's `unsupported_value`.
pub open spec fn value_diag(
    policy: ConfigPolicy,
    code: Seq<char>,
    field: Option<Seq<char>>,
    message: Seq<char>,
) -> Seq<DiagnosticView> {
    policy_diag(policy.unsupported_value, code, kind_component(), field, message)
}

/// `diags` when `cond` holds, else nothing.
pub open spec fn only_if(cond: bool, diags: Seq<DiagnosticView>) -> Seq<DiagnosticView> {
    if cond {
        diags
    } else {
        Seq::empty()
    }
}

/// Only schema version 1 is supported.
pub open spec fn version_diags(policy: ConfigPolicy, version: u32) -> Seq<DiagnosticView> {
    only_if(
        version != 1,
        value_diag(
            policy,
            code_unsupported_version(),
            Some("version"@),
            "NeMo Guardrails config version "@ + decimal(version as nat) + " is unsupported"@,
        ),
    )
}

/// The mode is `remote` or `local`.
pub open spec fn mode_diags(policy: ConfigPolicy, mode: Seq<char>) -> Seq<DiagnosticView> {
    only_if(
        !(mode == "remote"@ || mode == "local"@),
        value_diag(
            policy,
            code_unsupported_value(),
            Some("mode"@),
            "mode must be 'remote' or 'local'"@,
        ),
    )
}

/// The remote settings name a non-blank config id.
pub open spec fn remote_has_config_id(config: NeMoGuardrailsConfig) -> bool {
    config.remote is Some && has_content(config.remote->0.config_id)
}

/// The remote settings name some non-blank config id in their list.
pub open spec fn remote_has_config_ids(config: NeMoGuardrailsConfig) -> bool {
    config.remote is Some && exists|i: int|
        0 <= i < config.remote->0.config_ids@.len() && !is_blank_seq(
            #[trigger] config.remote->0.config_ids@[i]@,
        )
}

/// Local mode takes exactly one of a config path and inline YAML.
pub open spec fn local_source_diags(policy: ConfigPolicy, config: NeMoGuardrailsConfig) -> Seq<
    DiagnosticView,
> {
    only_if(
        has_content(config.config_path) == has_content(config.config_yaml) && config.mode@
            == "local"@,
        value_diag(
            policy,
            code_invalid_source(),
            None,
            "exactly one of config_path or config_yaml is required in local mode"@,
        ),
    )
}

/// Inline Colang content needs inline YAML.
pub open spec fn colang_source_diags(policy: ConfigPolicy, config: NeMoGuardrailsConfig) -> Seq<
    DiagnosticView,
> {
    only_if(
        config.colang_content is Some && !has_content(config.config_yaml),
        value_diag(
            policy,
            code_unsupported_value(),
            Some("colang_content"@),
            "colang_content can only be used with config_yaml"@,
        ),
    )
}

/// In remote mode, a single config id and a list of them exclude each other,
/// and some source of rails must be named.
pub open spec fn remote_source_diags(policy: ConfigPolicy, config: NeMoGuardrailsConfig) -> Seq<
    DiagnosticView,
> {
    let id = remote_has_config_id(config);
    let ids = remote_has_config_ids(config);
    only_if(
        config.mode@ == "remote"@,
        only_if(
            id && ids,
            value_diag(
                policy,
                code_unsupported_value(),
                Some("remote"@),
                "remote.config_id and remote.config_ids cannot be used together"@,
            ),
        ) + only_if(
            !(has_content(config.config_path) || has_content(config.config_yaml) || id || ids),
            value_diag(
                policy,
                code_invalid_source(),
                None,
                "remote mode requires config_path, config_yaml, remote.config_id, or remote.config_ids"@,
            ),
        ),
    )
}

/// The checks on where the rails come from.
pub open spec fn config_source_diags(policy: ConfigPolicy, config: NeMoGuardrailsConfig) -> Seq<
    DiagnosticView,
> {
    local_source_diags(policy, config) + colang_source_diags(policy, config) + remote_source_diags(
        policy,
        config,
    )
}

/// The codecs the component can drive.
pub open spec fn is_known_codec(codec: Seq<char>) -> bool {
    codec == "openai_chat"@ || codec == "openai_responses"@ || codec == "anthropic_messages"@
}

/// An LLM surface needs a known codec.
pub open spec fn codec_diags(policy: ConfigPolicy, config: NeMoGuardrailsConfig) -> Seq<
    DiagnosticView,
> {
    if !(config.input || config.output || config.streaming) {
        Seq::empty()
    } else if config.codec is None {
        value_diag(
            policy,
            code_unsupported_value(),
            Some("codec"@),
            "codec is required when any LLM surface is enabled"@,
        )
    } else {
        only_if(
            !is_known_codec(config.codec->0@),
            value_diag(
                policy,
                code_unsupported_value(),
                Some("codec"@),
                "codec must be 'openai_chat', 'openai_responses', or 'anthropic_messages'"@,
            ),
        )
    }
}

/// A present optional string must not be blank.
pub open spec fn blank_field_diags(
    policy: ConfigPolicy,
    value: Option<String>,
    field: Seq<char>,
    message: Seq<char>,
) -> Seq<DiagnosticView> {
    only_if(
        is_present_blank(value),
        value_diag(policy, code_unsupported_value(), Some(field), message),
    )
}

/// One finding for each blank entry among the first `n` remote config ids.
pub open spec fn blank_ids_diags(policy: ConfigPolicy, ids: Seq<String>, n: nat) -> Seq<
    DiagnosticView,
>
    decreases n,
{
    if n == 0 {
        Seq::empty()
    } else {
        let i = (n - 1) as nat;
        blank_ids_diags(policy, ids, i) + only_if(
            is_blank_seq(ids[i as int]@),
            value_diag(
                policy,
                code_unsupported_value(),
                Some("remote.config_ids["@ + decimal(i) + "]"@),
                "remote.config_ids entries must not be empty"@,
            ),
        )
    }
}

/// In remote mode: an endpoint is required and the config ids must not be blank.
pub open spec fn remote_blank_diags(policy: ConfigPolicy, config: NeMoGuardrailsConfig) -> Seq<
    DiagnosticView,
> {
    only_if(
        config.mode@ == "remote"@,
        only_if(
            !(config.remote is Some && has_content(config.remote->0.endpoint)),
            value_diag(
                policy,
                code_unsupported_value(),
                Some("remote.endpoint"@),
                "remote.endpoint is required when mode is 'remote'"@,
            ),
        ) + only_if(
            config.remote is Some,
            blank_field_diags(
                policy,
                config.remote->0.config_id,
                "remote.config_id"@,
                "remote.config_id must not be empty"@,
            ) + blank_ids_diags(
                policy,
                config.remote->0.config_ids@,
                config.remote->0.config_ids@.len(),
            ),
        ),
    )
}

/// The checks that strings which are given are not blank.
pub open spec fn non_empty_diags(policy: ConfigPolicy, config: NeMoGuardrailsConfig) -> Seq<
    DiagnosticView,
> {
    blank_field_diags(
        policy,
        config.config_path,
        "config_path"@,
        "config_path must not be empty"@,
    ) + blank_field_diags(
        policy,
        config.config_yaml,
        "config_yaml"@,
        "config_yaml must not be empty"@,
    ) + blank_field_diags(
        policy,
        config.colang_content,
        "colang_content"@,
        "colang_content must not be empty"@,
    ) + remote_blank_diags(policy, config)
}

/// Some Guardrails surface is enabled.
pub open spec fn surface_diags(policy: ConfigPolicy, config: NeMoGuardrailsConfig) -> Seq<
    DiagnosticView,
> {
    only_if(
        !(config.input || config.output || config.tool_input || config.tool_output
            || config.streaming),
        value_diag(
            policy,
            code_unsupported_value(),
            None,
            "at least one Guardrails surface must be enabled"@,
        ),
    )
}

/// Backend settings of the mode that is not selected are refused.
pub open spec fn backend_diags(policy: ConfigPolicy, config: NeMoGuardrailsConfig) -> Seq<
    DiagnosticView,
> {
    if config.mode@ == "remote"@ && config.local is Some {
        value_diag(
            policy,
            code_unsupported_value(),
            Some("local"@),
            "local backend settings cannot be used when mode is 'remote'"@,
        )
    } else if config.mode@ == "local"@ && config.remote is Some {
        value_diag(
            policy,
            code_unsupported_value(),
            Some("remote"@),
            "remote backend settings cannot be used when mode is 'local'"@,
        )
    } else {
        Seq::empty()
    }
}

/// The message of an unknown field.
pub open spec fn unknown_field_message(field: Seq<char>, component: Option<Seq<char>>) -> Seq<
    char,
> {
    let owner = match component {
        Some(c) => c,
        None => "unknown"@,
    };
    "field '"@ + field + "' is not recognized for '"@ + owner + "'"@
}

/// One finding, under `behavior`, for each key that is not a known field.
pub open spec fn unknown_field_diags(
    behavior: UnsupportedBehavior,
    component: Option<Seq<char>>,
    keys: Seq<Seq<char>>,
    known: Seq<Seq<char>>,
) -> Seq<DiagnosticView>
    decreases keys.len(),
{
    if keys.len() == 0 {
        Seq::empty()
    } else {
        unknown_field_diags(behavior, component, keys.drop_last(), known) + only_if(
            !known.contains(keys.last()),
            policy_diag(
                behavior,
                code_unknown_field(),
                component,
                Some(keys.last()),
                unknown_field_message(keys.last(), component),
            ),
        )
    }
}

/// The characters of each of a sequence of string slices.
pub open spec fn str_seq_view(s: Seq<&str>) -> Seq<Seq<char>> {
    s.map_values(|x: &str| x@)
}

/// The fields of the configuration document.
pub open spec fn top_level_fields() -> Seq<Seq<char>> {
    seq![
        "version"@,
        "mode"@,
        "config_path"@,
        "config_yaml"@,
        "colang_content"@,
        "codec"@,
        "input"@,
        "output"@,
        "tool_input"@,
        "tool_output"@,
        "streaming"@,
        "priority"@,
        "remote"@,
        "local"@,
        "policy"@,
    ]
}

/// The fields of the `policy` section.
pub open spec fn policy_fields() -> Seq<Seq<char>> {
    seq!["unknown_component"@, "unknown_field"@, "unsupported_value"@]
}

/// The fields of the `remote` section.
pub open spec fn remote_fields() -> Seq<Seq<char>> {
    seq!["endpoint"@, "config_id"@, "config_ids"@, "headers"@, "timeout_millis"@]
}

/// The fields of the `local` section.
pub open spec fn local_fields() -> Seq<Seq<char>> {
    seq!["python_module"@]
}

/// Unknown fields of the object-valued member `section`, if it is one.
pub open spec fn section_field_diags(
    policy: ConfigPolicy,
    fields: Seq<crate::config::ConfigField>,
    section: Seq<char>,
    known: Seq<Seq<char>>,
) -> Seq<DiagnosticView> {
    match section_keys(fields, section) {
        Some(keys) => unknown_field_diags(policy.unknown_field, Some(section), keys, known),
        None => Seq::empty(),
    }
}

/// Every finding on a configuration that was read, in the order the checks run.
pub open spec fn config_diags(config: NeMoGuardrailsConfig, raw: Seq<crate::config::ConfigField>) -> Seq<
    DiagnosticView,
> {
    let p = config.policy;
    unknown_field_diags(p.unknown_field, kind_component(), object_keys(raw), top_level_fields())
        + section_field_diags(p, raw, "policy"@, policy_fields()) + section_field_diags(
        p,
        raw,
        "remote"@,
        remote_fields(),
    ) + section_field_diags(p, raw, "local"@, local_fields()) + version_diags(p, config.version)
        + mode_diags(p, config.mode@) + config_source_diags(p, config) + non_empty_diags(p, config)
        + codec_diags(p, config) + surface_diags(p, config) + backend_diags(p, config)
}

/// The text an error carries.
pub open spec fn error_text(e: PluginError) -> Seq<char> {
    match e {
        PluginError::RegistrationFailed(m) => m@,
        PluginError::InvalidConfig(m) => m@,
    }
}

/// The single finding on a configuration that could not be read.
pub open spec fn parse_failure_diags(message: Seq<char>) -> Seq<DiagnosticView> {
    seq![
        DiagnosticView {
            level: DiagnosticLevel::Error,
            code: code_invalid_plugin_config(),
            component: kind_component(),
            field: None,
            message,
        },
    ]
}

/// The findings on a configuration document, given the outcome of reading it
/// into the typed form and the key structure of the raw object.
pub open spec fn plugin_config_diags(
    parsed: Result<NeMoGuardrailsConfig, PluginError>,
    raw: Seq<crate::config::ConfigField>,
) -> Seq<DiagnosticView> {
    match parsed {
        Err(e) => parse_failure_diags(error_text(e)),
        Ok(config) => config_diags(config, raw),
    }
}

/// The error for a document that could not be read, `detail` saying why.
pub open spec fn invalid_config_message(detail: Seq<char>) -> Seq<char> {
    "invalid NeMo Guardrails plugin config: "@ + detail
}

// ---------------------------------------------------------------------------
// The rules, as code.
// ---------------------------------------------------------------------------

/// The plugin kind, as the component of a finding.
fn kind_string() -> (s: Option<String>)
    ensures
        opt_view(s) == kind_component(),
{
    Some(NEMO_GUARDRAILS_PLUGIN_KIND.to_owned())
}

/// A field name, as the field of a finding.
fn field_string(name: &str) -> (s: Option<String>)
    ensures
        opt_view(s) == Some(name@),
{
    Some(name.to_owned())
}

/// Whether an optional string is present and not blank.
fn opt_has_content(o: &Option<String>) -> (b: bool)
    ensures
        b == has_content(*o),
{
    match o {
        Some(v) => !is_blank(v.as_str()),
        None => false,
    }
}

/// Whether an optional string is present but blank.
fn opt_is_present_blank(o: &Option<String>) -> (b: bool)
    ensures
        b == is_present_blank(*o),
{
    match o {
        Some(v) => is_blank(v.as_str()),
        None => false,
    }
}

/// Appends a finding about a value when `cond` holds.
fn push_value_diag_when(
    diagnostics: &mut Vec<ConfigDiagnostic>,
    cond: bool,
    policy: &ConfigPolicy,
    code: &str,
    field: Option<String>,
    message: String,
)
    ensures
        diags_view(final(diagnostics)@) == diags_view(old(diagnostics)@) + only_if(
            cond,
            value_diag(*policy, code@, opt_view(field), message@),
        ),
{
    if cond {
        push_policy_diag(diagnostics, policy.unsupported_value, code, kind_string(), field, message);
    } else {
        assert(diags_view(diagnostics@) =~= diags_view(old(diagnostics)@) + Seq::empty());
    }
}

/// Only schema version 1 is supported.
pub fn validate_version(diagnostics: &mut Vec<ConfigDiagnostic>, policy: &ConfigPolicy, version: u32)
    ensures
        diags_view(final(diagnostics)@) == diags_view(old(diagnostics)@) + version_diags(
            *policy,
            version,
        ),
{
    let mut message = String::from_str("NeMo Guardrails config version ");
    message.append(decimal_string(version as u64).as_str());
    message.append(" is unsupported");
    push_value_diag_when(
        diagnostics,
        version != 1,
        policy,
        "nemoguardrails.unsupported_config_version",
        field_string("version"),
        message,
    );
}

/// The mode is `remote` or `local`.
pub fn validate_mode(diagnostics: &mut Vec<ConfigDiagnostic>, policy: &ConfigPolicy, mode: &str)
    ensures
        diags_view(final(diagnostics)@) == diags_view(old(diagnostics)@) + mode_diags(
            *policy,
            mode@,
        ),
{
    let known = str_eq(mode, "remote") || str_eq(mode, "local");
    push_value_diag_when(
        diagnostics,
        !known,
        policy,
        "nemoguardrails.unsupported_value",
        field_string("mode"),
        String::from_str("mode must be 'remote' or 'local'"),
    );
}

/// Whether some entry of `ids` is not blank.
fn any_non_blank(ids: &Vec<String>) -> (b: bool)
    ensures
        b == exists|i: int| 0 <= i < ids@.len() && !is_blank_seq(#[trigger] ids@[i]@),
{
    let n = ids.len();
    let mut i: usize = 0;
    while i < n
        invariant
            n == ids@.len(),
            i <= n,
            forall|j: int| 0 <= j < i ==> is_blank_seq(#[trigger] ids@[j]@),
        decreases n - i,
    {
        if !is_blank(ids[i].as_str()) {
            return true;
        }
        i = i + 1;
    }
    false
}

/// Where the rails come from: exactly one local source in local mode, Colang
/// only beside inline YAML, and in remote mode one kind of config id and some
/// source at all.
pub fn validate_config_source(
    diagnostics: &mut Vec<ConfigDiagnostic>,
    policy: &ConfigPolicy,
    config: &NeMoGuardrailsConfig,
)
    ensures
        diags_view(final(diagnostics)@) == diags_view(old(diagnostics)@) + config_source_diags(
            *policy,
            *config,
        ),
{
    let has_config_path = opt_has_content(&config.config_path);
    let has_config_yaml = opt_has_content(&config.config_yaml);
    let is_local = str_eq(config.mode.as_str(), "local");
    let is_remote = str_eq(config.mode.as_str(), "remote");

    push_value_diag_when(
        diagnostics,
        has_config_path == has_config_yaml && is_local,
        policy,
        "nemoguardrails.invalid_config_source",
        None,
        String::from_str("exactly one of config_path or config_yaml is required in local mode"),
    );

    push_value_diag_when(
        diagnostics,
        config.colang_content.is_some() && !has_config_yaml,
        policy,
        "nemoguardrails.unsupported_value",
        field_string("colang_content"),
        String::from_str("colang_content can only be used with config_yaml"),
    );
    let ghost after_colang = diags_view(diagnostics@);

    if is_remote {
        let has_remote_config_id = match &config.remote {
            Some(remote) => opt_has_content(&remote.config_id),
            None => false,
        };
        let has_remote_config_ids = match &config.remote {
            Some(remote) => any_non_blank(&remote.config_ids),
            None => false,
        };
        push_value_diag_when(
            diagnostics,
            has_remote_config_id && has_remote_config_ids,
            policy,
            "nemoguardrails.unsupported_value",
            field_string("remote"),
            String::from_str("remote.config_id and remote.config_ids cannot be used together"),
        );
        push_value_diag_when(
            diagnostics,
            !(has_config_path || has_config_yaml || has_remote_config_id || has_remote_config_ids),
            policy,
            "nemoguardrails.invalid_config_source",
            None,
            String::from_str(
                "remote mode requires config_path, config_yaml, remote.config_id, or remote.config_ids",
            ),
        );
    }
    assert(diags_view(diagnostics@) =~= after_colang + remote_source_diags(*policy, *config));
    assert(diags_view(diagnostics@) =~= diags_view(old(diagnostics)@) + config_source_diags(
        *policy,
        *config,
    ));
}

/// An LLM surface needs one of the known codecs.
pub fn validate_codec_requirements(
    diagnostics: &mut Vec<ConfigDiagnostic>,
    policy: &ConfigPolicy,
    config: &NeMoGuardrailsConfig,
)
    ensures
        diags_view(final(diagnostics)@) == diags_view(old(diagnostics)@) + codec_diags(
            *policy,
            *config,
        ),
{
    let llm_surface_enabled = config.input || config.output || config.streaming;
    if !llm_surface_enabled {
        assert(diags_view(diagnostics@) =~= diags_view(old(diagnostics)@) + Seq::empty());
        return ;
    }
    match &config.codec {
        None => {
            push_policy_diag(
                diagnostics,
                policy.unsupported_value,
                "nemoguardrails.unsupported_value",
                kind_string(),
                field_string("codec"),
                String::from_str("codec is required when any LLM surface is enabled"),
            );
        },
        Some(codec) => {
            let known = str_eq(codec.as_str(), "openai_chat") || str_eq(
                codec.as_str(),
                "openai_responses",
            ) || str_eq(codec.as_str(), "anthropic_messages");
            push_value_diag_when(
                diagnostics,
                !known,
                policy,
                "nemoguardrails.unsupported_value",
                field_string("codec"),
                String::from_str(
                    "codec must be 'openai_chat', 'openai_responses', or 'anthropic_messages'",
                ),
            );
        },
    }
}

/// Appends a finding when a present optional string is blank.
fn validate_not_blank(
    diagnostics: &mut Vec<ConfigDiagnostic>,
    policy: &ConfigPolicy,
    value: &Option<String>,
    field: &str,
    message: &str,
)
    ensures
        diags_view(final(diagnostics)@) == diags_view(old(diagnostics)@) + blank_field_diags(
            *policy,
            *value,
            field@,
            message@,
        ),
{
    push_value_diag_when(
        diagnostics,
        opt_is_present_blank(value),
        policy,
        "nemoguardrails.unsupported_value",
        field_string(field),
        String::from_str(message),
    );
}

/// One finding for each blank entry of the remote config ids.
fn validate_config_ids_not_blank(
    diagnostics: &mut Vec<ConfigDiagnostic>,
    policy: &ConfigPolicy,
    ids: &Vec<String>,
)
    ensures
        diags_view(final(diagnostics)@) == diags_view(old(diagnostics)@) + blank_ids_diags(
            *policy,
            ids@,
            ids@.len(),
        ),
{
    let n = ids.len();
    let mut index: usize = 0;
    assert(diags_view(diagnostics@) =~= diags_view(old(diagnostics)@) + blank_ids_diags(
        *policy,
        ids@,
        0,
    ));
    while index < n
        invariant
            n == ids@.len(),
            index <= n,
            diags_view(diagnostics@) == diags_view(old(diagnostics)@) + blank_ids_diags(
                *policy,
                ids@,
                index as nat,
            ),
        decreases n - index,
    {
        let mut field = String::from_str("remote.config_ids[");
        field.append(decimal_string(index as u64).as_str());
        field.append("]");
        push_value_diag_when(
            diagnostics,
            is_blank(ids[index].as_str()),
            policy,
            "nemoguardrails.unsupported_value",
            Some(field),
            String::from_str("remote.config_ids entries must not be empty"),
        );
        assert(diags_view(diagnostics@) =~= diags_view(old(diagnostics)@) + blank_ids_diags(
            *policy,
            ids@,
            (index + 1) as nat,
        ));
        index = index + 1;
    }
}

/// Strings that are given must not be blank; in remote mode an endpoint is
/// required.
pub fn validate_non_empty_strings(
    diagnostics: &mut Vec<ConfigDiagnostic>,
    policy: &ConfigPolicy,
    config: &NeMoGuardrailsConfig,
)
    ensures
        diags_view(final(diagnostics)@) == diags_view(old(diagnostics)@) + non_empty_diags(
            *policy,
            *config,
        ),
{
    validate_not_blank(
        diagnostics,
        policy,
        &config.config_path,
        "config_path",
        "config_path must not be empty",
    );
    validate_not_blank(
        diagnostics,
        policy,
        &config.config_yaml,
        "config_yaml",
        "config_yaml must not be empty",
    );
    validate_not_blank(
        diagnostics,
        policy,
        &config.colang_content,
        "colang_content",
        "colang_content must not be empty",
    );
    let ghost after_strings = diags_view(diagnostics@);

    if str_eq(config.mode.as_str(), "remote") {
        let has_endpoint = match &config.remote {
            Some(remote) => opt_has_content(&remote.endpoint),
            None => false,
        };
        push_value_diag_when(
            diagnostics,
            !has_endpoint,
            policy,
            "nemoguardrails.unsupported_value",
            field_string("remote.endpoint"),
            String::from_str("remote.endpoint is required when mode is 'remote'"),
        );
        match &config.remote {
            Some(remote) => {
                validate_not_blank(
                    diagnostics,
                    policy,
                    &remote.config_id,
                    "remote.config_id",
                    "remote.config_id must not be empty",
                );
                validate_config_ids_not_blank(diagnostics, policy, &remote.config_ids);
            },
            None => {},
        }
        assert(diags_view(diagnostics@) =~= after_strings + remote_blank_diags(*policy, *config));
    }
    assert(diags_view(diagnostics@) =~= diags_view(old(diagnostics)@) + non_empty_diags(
        *policy,
        *config,
    ));
}

/// At least one Guardrails surface is enabled.
pub fn validate_surface_selection(
    diagnostics: &mut Vec<ConfigDiagnostic>,
    policy: &ConfigPolicy,
    config: &NeMoGuardrailsConfig,
)
    ensures
        diags_view(final(diagnostics)@) == diags_view(old(diagnostics)@) + surface_diags(
            *policy,
            *config,
        ),
{
    let any_surface = config.input || config.output || config.tool_input || config.tool_output
        || config.streaming;
    push_value_diag_when(
        diagnostics,
        !any_surface,
        policy,
        "nemoguardrails.unsupported_value",
        None,
        String::from_str("at least one Guardrails surface must be enabled"),
    );
}

/// Settings of the backend that the mode does not select are refused.
pub fn validate_backend_sections(
    diagnostics: &mut Vec<ConfigDiagnostic>,
    policy: &ConfigPolicy,
    config: &NeMoGuardrailsConfig,
)
    ensures
        diags_view(final(diagnostics)@) == diags_view(old(diagnostics)@) + backend_diags(
            *policy,
            *config,
        ),
{
    if str_eq(config.mode.as_str(), "remote") && config.local.is_some() {
        push_policy_diag(
            diagnostics,
            policy.unsupported_value,
            "nemoguardrails.unsupported_value",
            kind_string(),
            field_string("local"),
            String::from_str("local backend settings cannot be used when mode is 'remote'"),
        );
    } else if str_eq(config.mode.as_str(), "local") && config.remote.is_some() {
        push_policy_diag(
            diagnostics,
            policy.unsupported_value,
            "nemoguardrails.unsupported_value",
            kind_string(),
            field_string("remote"),
            String::from_str("remote backend settings cannot be used when mode is 'local'"),
        );
    } else {
        assert(diags_view(diagnostics@) =~= diags_view(old(diagnostics)@) + Seq::empty());
    }
}

/// Whether `key` is one of `known_fields`.
fn is_known_field(known_fields: &[&str], key: &str) -> (b: bool)
    ensures
        b == str_seq_view(known_fields@).contains(key@),
{
    let n = known_fields.len();
    let mut i: usize = 0;
    while i < n
        invariant
            n == known_fields@.len(),
            i <= n,
            forall|j: int| 0 <= j < i ==> (#[trigger] known_fields@[j])@ != key@,
        decreases n - i,
    {
        if str_eq(known_fields[i], key) {
            assert(str_seq_view(known_fields@)[i as int] == key@);
            return true;
        }
        i = i + 1;
    }
    assert(!str_seq_view(known_fields@).contains(key@)) by {
        if str_seq_view(known_fields@).contains(key@) {
            let j = choose|j: int|
                0 <= j < str_seq_view(known_fields@).len() && str_seq_view(known_fields@)[j]
                    == key@;
            assert(known_fields@[j]@ == key@);
        }
    }
    false
}

/// One finding, under the policy's `unknown_field`, for each key that is not
/// among `known_fields`.
pub fn validate_unknown_fields(
    diagnostics: &mut Vec<ConfigDiagnostic>,
    policy: &ConfigPolicy,
    component: Option<String>,
    keys: &Vec<String>,
    known_fields: &[&str],
)
    ensures
        diags_view(final(diagnostics)@) == diags_view(old(diagnostics)@) + unknown_field_diags(
            policy.unknown_field,
            opt_view(component),
            strings_view(keys@),
            str_seq_view(known_fields@),
        ),
{
    let ghost comp = opt_view(component);
    let ghost known = str_seq_view(known_fields@);
    let ghost all = strings_view(keys@);
    let n = keys.len();
    let mut i: usize = 0;
    assert(all.take(0) =~= Seq::<Seq<char>>::empty());
    assert(diags_view(diagnostics@) =~= diags_view(old(diagnostics)@) + unknown_field_diags(
        policy.unknown_field,
        comp,
        all.take(0),
        known,
    ));
    while i < n
        invariant
            n == keys@.len(),
            i <= n,
            comp == opt_view(component),
            known == str_seq_view(known_fields@),
            all == strings_view(keys@),
            diags_view(diagnostics@) == diags_view(old(diagnostics)@) + unknown_field_diags(
                policy.unknown_field,
                comp,
                all.take(i as int),
                known,
            ),
        decreases n - i,
    {
        let field = &keys[i];
        assert(all.take(i + 1).drop_last() =~= all.take(i as int));
        assert(all.take(i + 1).last() == field@);
        if !is_known_field(known_fields, field.as_str()) {
            let owner: &str = match &component {
                Some(c) => c.as_str(),
                None => "unknown",
            };
            let mut message = String::from_str("field '");
            message.append(field.as_str());
            message.append("' is not recognized for '");
            message.append(owner);
            message.append("'");
            let component_copy = match &component {
                Some(c) => Some(c.clone()),
                None => None,
            };
            push_policy_diag(
                diagnostics,
                policy.unknown_field,
                "nemoguardrails.unknown_field",
                component_copy,
                Some(field.clone()),
                message,
            );
        }
        assert(diags_view(diagnostics@) =~= diags_view(old(diagnostics)@) + unknown_field_diags(
            policy.unknown_field,
            comp,
            all.take(i + 1),
            known,
        ));
        i = i + 1;
    }
    assert(all.take(n as int) =~= all);
}

/// Unknown fields of the object-valued member `section`, if there is one.
pub fn validate_section_fields(
    diagnostics: &mut Vec<ConfigDiagnostic>,
    policy: &ConfigPolicy,
    plugin_config: &ConfigObject,
    section: &str,
    known_fields: &[&str],
)
    ensures
        diags_view(final(diagnostics)@) == diags_view(old(diagnostics)@) + section_field_diags(
            *policy,
            plugin_config.fields@,
            section@,
            str_seq_view(known_fields@),
        ),
{
    match plugin_config.section(section) {
        Some(section_keys) => {
            validate_unknown_fields(
                diagnostics,
                policy,
                field_string(section),
                section_keys,
                known_fields,
            );
        },
        None => {
            assert(diags_view(diagnostics@) =~= diags_view(old(diagnostics)@) + Seq::empty());
        },
    }
}

/// Unknown fields of the `policy` section, if it is an object.
pub fn validate_policy_fields(
    diagnostics: &mut Vec<ConfigDiagnostic>,
    policy: &ConfigPolicy,
    plugin_config: &ConfigObject,
)
    ensures
        diags_view(final(diagnostics)@) == diags_view(old(diagnostics)@) + section_field_diags(
            *policy,
            plugin_config.fields@,
            "policy"@,
            policy_fields(),
        ),
{
    let known: [&str; 3] = ["unknown_component", "unknown_field", "unsupported_value"];
    assert(str_seq_view(known@) =~= policy_fields());
    validate_section_fields(diagnostics, policy, plugin_config, "policy", known.as_slice());
}

/// The error for a document that could not be read, `detail` saying why.
pub fn invalid_config_error(detail: &str) -> (e: PluginError)
    ensures
        e matches PluginError::InvalidConfig(m) && m@ == invalid_config_message(detail@),
{
    let mut m = String::from_str("invalid NeMo Guardrails plugin config: ");
    m.append(detail);
    PluginError::InvalidConfig(m)
}

/// Validates a `nemoguardrails` component configuration.
///
/// `parsed` is the outcome of reading the raw document into the typed form;
/// `plugin_config` is the key structure of the raw document. When the
/// document could not be read, the result is the single error saying so;
/// otherwise it is every finding of every rule, in order.
pub fn validate_nemoguardrails_plugin_config(
    parsed: Result<NeMoGuardrailsConfig, PluginError>,
    plugin_config: &ConfigObject,
) -> (diagnostics: Vec<ConfigDiagnostic>)
    ensures
        diags_view(diagnostics@) == plugin_config_diags(parsed, plugin_config.fields@),
{
    let config = match parsed {
        Ok(config) => config,
        Err(err) => {
            let d = ConfigDiagnostic {
                level: DiagnosticLevel::Error,
                code: String::from_str("nemoguardrails.invalid_plugin_config"),
                component: kind_string(),
                field: None,
                message: err.description(),
            };
            let mut diagnostics: Vec<ConfigDiagnostic> = Vec::new();
            diagnostics.push(d);
            assert(diags_view(diagnostics@) =~= parse_failure_diags(error_text(err)));
            return diagnostics;
        },
    };
    let mut diagnostics: Vec<ConfigDiagnostic> = Vec::new();
    let policy = config.policy;

    let top_level: [&str; 15] = [
        "version",
        "mode",
        "config_path",
        "config_yaml",
        "colang_content",
        "codec",
        "input",
        "output",
        "tool_input",
        "tool_output",
        "streaming",
        "priority",
        "remote",
        "local",
        "policy",
    ];
    assert(str_seq_view(top_level@) =~= top_level_fields());
    let keys = plugin_config.keys();
    validate_unknown_fields(
        &mut diagnostics,
        &policy,
        kind_string(),
        &keys,
        top_level.as_slice(),
    );
    validate_policy_fields(&mut diagnostics, &policy, plugin_config);

    let remote_known: [&str; 5] = [
        "endpoint",
        "config_id",
        "config_ids",
        "headers",
        "timeout_millis",
    ];
    assert(str_seq_view(remote_known@) =~= remote_fields());
    validate_section_fields(
        &mut diagnostics,
        &policy,
        plugin_config,
        "remote",
        remote_known.as_slice(),
    );
    let local_known: [&str; 1] = ["python_module"];
    assert(str_seq_view(local_known@) =~= local_fields());
    validate_section_fields(
        &mut diagnostics,
        &policy,
        plugin_config,
        "local",
        local_known.as_slice(),
    );

    validate_version(&mut diagnostics, &policy, config.version);
    validate_mode(&mut diagnostics, &policy, config.mode.as_str());
    validate_config_source(&mut diagnostics, &policy, &config);
    validate_non_empty_strings(&mut diagnostics, &policy, &config);
    validate_codec_requirements(&mut diagnostics, &policy, &config);
    validate_surface_selection(&mut diagnostics, &policy, &config);
    validate_backend_sections(&mut diagnostics, &policy, &config);

    assert(diags_view(diagnostics@) =~= config_diags(config, plugin_config.fields@));
    diagnostics
}

} // verus!
