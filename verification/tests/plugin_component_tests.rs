//! Tests of the built-in NeMo Guardrails plugin component.

use nemoguardrails_plugin::component::{
    deregister_nemoguardrails_component, register_nemoguardrails_component, NeMoGuardrailsPlugin,
};
use nemoguardrails_plugin::config::{
    ConfigField, ConfigObject, NeMoGuardrailsConfig, RemoteBackendConfig,
    NEMO_GUARDRAILS_PLUGIN_KIND,
};
use nemoguardrails_plugin::plugin::{
    ConfigDiagnostic, ConfigPolicy, DiagnosticLevel, PluginError, PluginRegistry,
    UnsupportedBehavior, ValidationReport,
};
use nemoguardrails_plugin::text::{decimal_string, is_blank, str_contains, str_eq};
use nemoguardrails_plugin::validate::invalid_config_error;

/// A member of a raw document: its key, and the keys of its value when that
/// value is an object.
fn member(name: &str, object_keys: Option<&[&str]>) -> ConfigField {
    ConfigField {
        name: name.to_string(),
        object_keys: object_keys.map(|keys| keys.iter().map(|k| k.to_string()).collect()),
    }
}

fn document(members: Vec<ConfigField>) -> ConfigObject {
    ConfigObject { fields: members }
}

fn remote(endpoint: Option<&str>, config_id: Option<&str>, config_ids: &[&str]) -> RemoteBackendConfig {
    let mut r = RemoteBackendConfig::default();
    r.endpoint = endpoint.map(|s| s.to_string());
    r.config_id = config_id.map(|s| s.to_string());
    r.config_ids = config_ids.iter().map(|s| s.to_string()).collect();
    r.timeout_millis = 30_000;
    r
}

fn validate_plugin_config(
    parsed: Result<NeMoGuardrailsConfig, PluginError>,
    raw: &ConfigObject,
) -> ValidationReport {
    ValidationReport { diagnostics: NeMoGuardrailsPlugin.validate(parsed, raw) }
}

/// `{"mode": "remote", "codec": "openai_chat", "remote": {"endpoint":
/// "http://localhost:8000", "config_id": "safety-default"}}`
fn minimal_valid_config() -> (NeMoGuardrailsConfig, ConfigObject) {
    let mut c = NeMoGuardrailsConfig::default();
    c.mode = "remote".to_string();
    c.codec = Some("openai_chat".to_string());
    c.remote = Some(remote(Some("http://localhost:8000"), Some("safety-default"), &[]));
    let raw = document(vec![
        member("codec", None),
        member("mode", None),
        member("remote", Some(&["config_id", "endpoint"])),
    ]);
    (c, raw)
}

fn all_surfaces_off(c: &mut NeMoGuardrailsConfig) {
    c.input = false;
    c.output = false;
    c.tool_input = false;
    c.tool_output = false;
    c.streaming = false;
}

fn any_field(report: &ValidationReport, field: &str) -> bool {
    report.diagnostics.iter().any(|d| d.field.as_deref() == Some(field))
}

fn any_code(report: &ValidationReport, code: &str) -> bool {
    report.diagnostics.iter().any(|d| d.code == code)
}

fn any_message(report: &ValidationReport, text: &str) -> bool {
    report.diagnostics.iter().any(|d| d.message.contains(text))
}

fn find<'a>(report: &'a ValidationReport, field: &str) -> &'a ConfigDiagnostic {
    report.diagnostics.iter().find(|d| d.field.as_deref() == Some(field)).unwrap()
}

#[test]
fn explicit_registration_makes_kind_available() {
    let mut registry = PluginRegistry::new();

    assert!(!registry.list_plugin_kinds().contains(&NEMO_GUARDRAILS_PLUGIN_KIND.to_string()));
    register_nemoguardrails_component(&mut registry).unwrap();
    assert!(registry.list_plugin_kinds().contains(&NEMO_GUARDRAILS_PLUGIN_KIND.to_string()));
    assert!(registry.lookup_plugin(NEMO_GUARDRAILS_PLUGIN_KIND).is_some());
    let (c, raw) = minimal_valid_config();
    assert!(!validate_plugin_config(Ok(c), &raw).has_errors());
}

#[test]
fn invalid_shapes_and_values_are_reported() {
    // {"version": "one"}
    let invalid_shape = validate_plugin_config(
        Err(invalid_config_error("invalid type: string \"one\", expected u32")),
        &document(vec![member("version", None)]),
    );
    assert!(invalid_shape.has_errors());
    assert!(any_code(&invalid_shape, "nemoguardrails.invalid_plugin_config"));

    // {"mode": "edge", "config_path": "./rails", "config_yaml": "models: []",
    //  every surface false}
    let mut c = NeMoGuardrailsConfig::default();
    c.mode = "edge".to_string();
    c.config_path = Some("./rails".to_string());
    c.config_yaml = Some("models: []".to_string());
    all_surfaces_off(&mut c);
    let raw = document(vec![
        member("config_path", None),
        member("config_yaml", None),
        member("input", None),
        member("mode", None),
        member("output", None),
        member("streaming", None),
        member("tool_input", None),
        member("tool_output", None),
    ]);
    let invalid_sources = validate_plugin_config(Ok(c), &raw);
    assert!(invalid_sources.has_errors());
    assert!(any_field(&invalid_sources, "mode"));
    assert!(any_field(&invalid_sources, "mode"));

    // {"config_path": "./rails", "colang_content": "define flow x", every surface false}
    let mut c = NeMoGuardrailsConfig::default();
    c.config_path = Some("./rails".to_string());
    c.colang_content = Some("define flow x".to_string());
    all_surfaces_off(&mut c);
    let raw = document(vec![
        member("colang_content", None),
        member("config_path", None),
        member("input", None),
        member("output", None),
        member("streaming", None),
        member("tool_input", None),
        member("tool_output", None),
    ]);
    let report = validate_plugin_config(Ok(c), &raw);
    assert!(report.has_errors());
    assert!(any_message(&report, "colang_content can only be used"));
    assert!(any_field(&report, "remote.endpoint"));
    assert!(any_message(&report, "at least one Guardrails surface"));

    // {"mode": "remote", "codec": "openai_chat", "remote": {"endpoint": "http://localhost:8000"}}
    let mut c = NeMoGuardrailsConfig::default();
    c.codec = Some("openai_chat".to_string());
    c.remote = Some(remote(Some("http://localhost:8000"), None, &[]));
    let raw = document(vec![
        member("codec", None),
        member("mode", None),
        member("remote", Some(&["endpoint"])),
    ]);
    let remote_missing_config = validate_plugin_config(Ok(c), &raw);
    assert!(remote_missing_config.has_errors());
    assert!(any_message(&remote_missing_config, "remote mode requires"));

    // {"mode": "remote", "codec": "openai_chat", "remote": {"endpoint": ...,
    //  "config_id": "one", "config_ids": ["two"]}}
    let mut c = NeMoGuardrailsConfig::default();
    c.codec = Some("openai_chat".to_string());
    c.remote = Some(remote(Some("http://localhost:8000"), Some("one"), &["two"]));
    let raw = document(vec![
        member("codec", None),
        member("mode", None),
        member("remote", Some(&["config_id", "config_ids", "endpoint"])),
    ]);
    let remote_conflicting_ids = validate_plugin_config(Ok(c), &raw);
    assert!(remote_conflicting_ids.has_errors());
    assert!(any_message(
        &remote_conflicting_ids,
        "config_id and remote.config_ids cannot be used together"
    ));

    // {"mode": "local", "codec": "openai_chat"}
    let mut c = NeMoGuardrailsConfig::default();
    c.mode = "local".to_string();
    c.codec = Some("openai_chat".to_string());
    let raw = document(vec![member("codec", None), member("mode", None)]);
    let local_missing_source = validate_plugin_config(Ok(c), &raw);
    assert!(local_missing_source.has_errors());
    assert!(any_message(
        &local_missing_source,
        "exactly one of config_path or config_yaml is required in local mode"
    ));
}

/// `{"codec": "openai_chat", "remote": {...}, "bogus": true, "local":
/// {"python_module": "nemoguardrails"}}`, under `policy`.
fn bogus_and_local(policy: ConfigPolicy, with_policy_member: bool) -> (NeMoGuardrailsConfig, ConfigObject) {
    let mut c = NeMoGuardrailsConfig::default();
    c.codec = Some("openai_chat".to_string());
    c.remote = Some(remote(Some("http://localhost:8000"), Some("safety-default"), &[]));
    c.local = Some(nemoguardrails_plugin::config::LocalBackendConfig {
        python_module: Some("nemoguardrails".to_string()),
    });
    c.policy = policy;
    let mut members = vec![
        member("bogus", None),
        member("codec", None),
        member("local", Some(&["python_module"])),
    ];
    if with_policy_member {
        members.push(member("policy", Some(&["unknown_field", "unsupported_value"])));
    }
    members.push(member("remote", Some(&["config_id", "endpoint"])));
    (c, document(members))
}

#[test]
fn unknown_fields_and_backend_conflicts_follow_policy() {
    let (c, raw) = bogus_and_local(ConfigPolicy::default(), false);
    let warn_report = validate_plugin_config(Ok(c), &raw);
    assert!(warn_report.has_errors());
    assert!(any_code(&warn_report, "nemoguardrails.unknown_field"));
    assert!(any_field(&warn_report, "local"));

    let ignore = ConfigPolicy {
        unknown_component: UnsupportedBehavior::Warn,
        unknown_field: UnsupportedBehavior::Ignore,
        unsupported_value: UnsupportedBehavior::Ignore,
    };
    let (c, raw) = bogus_and_local(ignore, true);
    let ignored = validate_plugin_config(Ok(c), &raw);
    assert!(!ignored.has_errors());
    assert!(ignored.diagnostics.is_empty());
}

#[test]
fn enabled_initialization_fails_fast_until_backend_exists() {
    let mut registry = PluginRegistry::new();
    register_nemoguardrails_component(&mut registry).unwrap();
    let (c, raw) = minimal_valid_config();
    assert!(!validate_plugin_config(Ok(c), &raw).has_errors());

    let error = NeMoGuardrailsPlugin.register().unwrap_err();
    match error {
        PluginError::RegistrationFailed(message) => {
            assert!(message.contains("not implemented yet"));
        }
        other => panic!("unexpected error: {}", other.description()),
    }
}

#[test]
fn minimal_valid_config_has_no_findings() {
    let (c, raw) = minimal_valid_config();
    let report = validate_plugin_config(Ok(c), &raw);
    assert!(report.diagnostics.is_empty());
}

#[test]
fn unreadable_document_gives_one_error_with_the_reason() {
    let report = validate_plugin_config(
        Err(invalid_config_error("missing field")),
        &document(vec![member("whatever", None)]),
    );
    assert_eq!(report.diagnostics.len(), 1);
    let d = &report.diagnostics[0];
    assert_eq!(d.level, DiagnosticLevel::Error);
    assert_eq!(d.code, "nemoguardrails.invalid_plugin_config");
    assert_eq!(d.component.as_deref(), Some("nemoguardrails"));
    assert_eq!(d.field, None);
    assert_eq!(d.message, "invalid NeMo Guardrails plugin config: missing field");
}

#[test]
fn unsupported_version_is_named_in_decimal() {
    let (mut c, raw) = minimal_valid_config();
    c.version = 1207;
    let report = validate_plugin_config(Ok(c), &raw);
    assert_eq!(report.diagnostics.len(), 1);
    let d = find(&report, "version");
    assert_eq!(d.code, "nemoguardrails.unsupported_config_version");
    assert_eq!(d.message, "NeMo Guardrails config version 1207 is unsupported");
    assert_eq!(d.level, DiagnosticLevel::Error);
}

#[test]
fn blank_strings_count_as_empty_with_unicode_white_space() {
    let (mut c, raw) = minimal_valid_config();
    c.config_path = Some(" \t\u{3000}\n".to_string());
    c.config_yaml = Some("".to_string());
    let r = c.remote.as_mut().unwrap();
    r.config_id = Some("\u{2003}".to_string());
    r.config_ids = vec!["a".to_string(), " ".to_string(), "b".to_string(), "\u{85}".to_string()];
    let report = validate_plugin_config(Ok(c), &raw);
    assert_eq!(find(&report, "config_path").message, "config_path must not be empty");
    assert_eq!(find(&report, "config_yaml").message, "config_yaml must not be empty");
    assert_eq!(find(&report, "remote.config_id").message, "remote.config_id must not be empty");
    assert_eq!(
        find(&report, "remote.config_ids[1]").message,
        "remote.config_ids entries must not be empty"
    );
    assert!(any_field(&report, "remote.config_ids[3]"));
    assert!(!any_field(&report, "remote.config_ids[0]"));
    assert!(!any_field(&report, "remote.config_ids[2]"));
}

#[test]
fn codec_rules_apply_only_to_llm_surfaces() {
    let (mut c, raw) = minimal_valid_config();
    c.codec = None;
    let report = validate_plugin_config(Ok(c.clone()), &raw);
    assert_eq!(
        find(&report, "codec").message,
        "codec is required when any LLM surface is enabled"
    );

    c.codec = Some("gemini".to_string());
    let report = validate_plugin_config(Ok(c.clone()), &raw);
    assert_eq!(
        find(&report, "codec").message,
        "codec must be 'openai_chat', 'openai_responses', or 'anthropic_messages'"
    );

    c.input = false;
    c.output = false;
    c.streaming = false;
    c.tool_input = true;
    let report = validate_plugin_config(Ok(c), &raw);
    assert!(report.diagnostics.is_empty());
}

#[test]
fn local_mode_refuses_remote_settings() {
    let mut c = NeMoGuardrailsConfig::default();
    c.mode = "local".to_string();
    c.codec = Some("anthropic_messages".to_string());
    c.config_yaml = Some("models: []".to_string());
    c.remote = Some(remote(None, None, &[]));
    let raw = document(vec![
        member("codec", None),
        member("config_yaml", None),
        member("mode", None),
        member("remote", Some(&[])),
    ]);
    let report = validate_plugin_config(Ok(c), &raw);
    assert_eq!(report.diagnostics.len(), 1);
    assert_eq!(
        find(&report, "remote").message,
        "remote backend settings cannot be used when mode is 'local'"
    );
}

#[test]
fn unknown_fields_of_sections_name_their_section() {
    let (c, _) = minimal_valid_config();
    let raw = document(vec![
        member("codec", None),
        member("mode", None),
        member("policy", Some(&["unknown_field", "verbosity"])),
        member("remote", Some(&["config_id", "endpoint", "retries"])),
    ]);
    let report = validate_plugin_config(Ok(c), &raw);
    assert_eq!(report.diagnostics.len(), 2);
    let policy = find(&report, "verbosity");
    assert_eq!(policy.component.as_deref(), Some("policy"));
    assert_eq!(policy.message, "field 'verbosity' is not recognized for 'policy'");
    assert_eq!(policy.level, DiagnosticLevel::Warning);
    let remote = find(&report, "retries");
    assert_eq!(remote.component.as_deref(), Some("remote"));
    assert_eq!(remote.code, "nemoguardrails.unknown_field");
    assert!(!report.has_errors());
}

#[test]
fn section_that_is_not_an_object_is_not_inspected() {
    let (c, _) = minimal_valid_config();
    let raw = document(vec![member("codec", None), member("local", None), member("mode", None)]);
    assert!(raw.section("local").is_none());
    assert!(raw.section("absent").is_none());
    let report = validate_plugin_config(Ok(c), &raw);
    assert!(report.diagnostics.is_empty());
}

#[test]
fn ignore_policy_silences_a_broken_config() {
    let mut c = NeMoGuardrailsConfig::default();
    c.version = 7;
    c.mode = "edge".to_string();
    all_surfaces_off(&mut c);
    c.policy.unknown_field = UnsupportedBehavior::Ignore;
    c.policy.unsupported_value = UnsupportedBehavior::Ignore;
    let raw = document(vec![member("bogus", Some(&["x"])), member("mode", None)]);
    let report = validate_plugin_config(Ok(c), &raw);
    assert!(report.diagnostics.is_empty());
}

#[test]
fn warning_policy_never_rejects() {
    let mut c = NeMoGuardrailsConfig::default();
    c.version = 2;
    c.policy.unsupported_value = UnsupportedBehavior::Warn;
    let raw = document(vec![member("bogus", None), member("version", None)]);
    let report = validate_plugin_config(Ok(c), &raw);
    assert!(!report.diagnostics.is_empty());
    assert!(report.diagnostics.iter().all(|d| d.level == DiagnosticLevel::Warning));
    assert!(!report.has_errors());
}

#[test]
fn registration_is_idempotent_and_deregistration_undoes_it() {
    let mut registry = PluginRegistry::new();
    register_nemoguardrails_component(&mut registry).unwrap();
    register_nemoguardrails_component(&mut registry).unwrap();
    assert_eq!(registry.list_plugin_kinds(), vec!["nemoguardrails".to_string()]);
    let d = registry.lookup_plugin("nemoguardrails").unwrap();
    assert!(!d.allows_multiple_components);
    assert!(deregister_nemoguardrails_component(&mut registry));
    assert!(registry.list_plugin_kinds().is_empty());
    assert!(!deregister_nemoguardrails_component(&mut registry));
}

#[test]
fn registry_refuses_a_taken_kind() {
    let mut registry = PluginRegistry::new();
    let plugin = NeMoGuardrailsPlugin;
    registry.register_plugin(plugin.descriptor()).unwrap();
    match registry.register_plugin(plugin.descriptor()) {
        Err(PluginError::RegistrationFailed(m)) => {
            assert_eq!(m, "plugin kind 'nemoguardrails' is already registered")
        }
        _ => panic!("second registration must be refused"),
    }
    assert!(registry.lookup_plugin("other").is_none());
}

#[test]
fn defaults_match_the_document_defaults() {
    let c = NeMoGuardrailsConfig::default();
    assert_eq!(c.version, 1);
    assert_eq!(c.mode, "remote");
    assert!(c.input && c.output);
    assert!(!c.tool_input && !c.tool_output && !c.streaming);
    assert_eq!(c.priority, 100);
    assert_eq!(c.policy, ConfigPolicy::default());
    assert_eq!(ConfigPolicy::default().unsupported_value, UnsupportedBehavior::Error);
    assert_eq!(nemoguardrails_plugin::config::default_timeout_millis(), 30_000);
    assert_eq!(RemoteBackendConfig::default().timeout_millis, 0);
    let spec = nemoguardrails_plugin::config::ComponentSpec::new(c);
    assert!(spec.enabled);
    assert_eq!(NeMoGuardrailsPlugin.plugin_kind(), "nemoguardrails");
    assert!(!NeMoGuardrailsPlugin.allows_multiple_components());
}

#[test]
fn text_helpers() {
    assert_eq!(decimal_string(0), "0");
    assert_eq!(decimal_string(4_294_967_295), "4294967295");
    assert!(is_blank(""));
    assert!(is_blank("\u{2028}\u{a0}"));
    assert!(!is_blank(" x "));
    assert!(!is_blank("\u{200b}"));
    assert!(str_contains("plugin kind 'k' is already registered", "already registered"));
    assert!(!str_contains("already", "already registered"));
    assert!(str_eq("local", "local"));
    assert!(!str_eq("local", "locale"));
}
