//! Properties that hold of every configuration and every registry.
use vstd::prelude::*;

use crate::component::with_component_registered;
use crate::config::{plugin_kind_name, ConfigField, NeMoGuardrailsConfig};
use crate::plugin::{
    behavior_level, has_error_level, policy_diag, ConfigPolicy, DiagnosticLevel, DiagnosticView,
    UnsupportedBehavior,
};
use crate::validate::{
    backend_diags, blank_field_diags, blank_ids_diags, code_invalid_source, code_unknown_field,
    code_unsupported_value, code_unsupported_version, codec_diags, colang_source_diags,
    config_diags, config_source_diags, local_source_diags, mode_diags, non_empty_diags,
    remote_blank_diags, remote_source_diags, section_field_diags, surface_diags,
    unknown_field_diags, value_diag, version_diags, only_if,
};

verus! {

/// The behavior the policy prescribes for findings with `code`: unknown
/// fields go by `unknown_field`, everything else by `unsupported_value`.
pub open spec fn prescribed_behavior(policy: ConfigPolicy, code: Seq<char>) -> UnsupportedBehavior {
    if code == code_unknown_field() {
        policy.unknown_field
    } else {
        policy.unsupported_value
    }
}

/// Every finding is reported at the level its policy class prescribes.
pub open spec fn follows_policy(diags: Seq<DiagnosticView>, policy: ConfigPolicy) -> bool {
    forall|i: int|
        0 <= i < diags.len() ==> Some((#[trigger] diags[i]).level) == behavior_level(
            prescribed_behavior(policy, diags[i].code),
        )
}

proof fn lemma_follows_concat(a: Seq<DiagnosticView>, b: Seq<DiagnosticView>, p: ConfigPolicy)
    requires
        follows_policy(a, p),
        follows_policy(b, p),
    ensures
        follows_policy(a + b, p),
{
    assert forall|i: int| 0 <= i < (a + b).len() implies Some((#[trigger] (a + b)[i]).level)
        == behavior_level(prescribed_behavior(p, (a + b)[i].code)) by {
        if i < a.len() {
            assert((a + b)[i] == a[i]);
        } else {
            assert((a + b)[i] == b[i - a.len()]);
        }
    }
}

proof fn lemma_follows_when(c: bool, d: Seq<DiagnosticView>, p: ConfigPolicy)
    requires
        follows_policy(d, p),
    ensures
        follows_policy(only_if(c, d), p),
{
}

proof fn lemma_codes_differ()
    ensures
        code_unsupported_value() != code_unknown_field(),
        code_invalid_source() != code_unknown_field(),
        code_unsupported_version() != code_unknown_field(),
{
    reveal_strlit("nemoguardrails.unsupported_value");
    reveal_strlit("nemoguardrails.invalid_config_source");
    reveal_strlit("nemoguardrails.unsupported_config_version");
    reveal_strlit("nemoguardrails.unknown_field");
    assert(code_unsupported_value().len() != code_unknown_field().len());
    assert(code_invalid_source().len() != code_unknown_field().len());
    assert(code_unsupported_version().len() != code_unknown_field().len());
}

proof fn lemma_value_diag_follows(
    p: ConfigPolicy,
    code: Seq<char>,
    field: Option<Seq<char>>,
    message: Seq<char>,
)
    requires
        code != code_unknown_field(),
    ensures
        follows_policy(value_diag(p, code, field, message), p),
{
}

proof fn lemma_blank_ids_follow(p: ConfigPolicy, ids: Seq<String>, n: nat)
    ensures
        follows_policy(blank_ids_diags(p, ids, n), p),
    decreases n,
{
    lemma_codes_differ();
    if n > 0 {
        let i = (n - 1) as nat;
        lemma_blank_ids_follow(p, ids, i);
        let d = value_diag(
            p,
            code_unsupported_value(),
            Some("remote.config_ids["@ + crate::text::decimal(i) + "]"@),
            "remote.config_ids entries must not be empty"@,
        );
        lemma_value_diag_follows(
            p,
            code_unsupported_value(),
            Some("remote.config_ids["@ + crate::text::decimal(i) + "]"@),
            "remote.config_ids entries must not be empty"@,
        );
        lemma_follows_concat(
            blank_ids_diags(p, ids, i),
            only_if(is_blank_ids_entry(ids, i), d),
            p,
        );
    }
}

spec fn is_blank_ids_entry(ids: Seq<String>, i: nat) -> bool {
    crate::text::is_blank_seq(ids[i as int]@)
}

proof fn lemma_unknown_fields_follow(
    p: ConfigPolicy,
    component: Option<Seq<char>>,
    keys: Seq<Seq<char>>,
    known: Seq<Seq<char>>,
)
    ensures
        follows_policy(unknown_field_diags(p.unknown_field, component, keys, known), p),
    decreases keys.len(),
{
    if keys.len() > 0 {
        lemma_unknown_fields_follow(p, component, keys.drop_last(), known);
        lemma_follows_concat(
            unknown_field_diags(p.unknown_field, component, keys.drop_last(), known),
            only_if(
                !known.contains(keys.last()),
                policy_diag(
                    p.unknown_field,
                    code_unknown_field(),
                    component,
                    Some(keys.last()),
                    crate::validate::unknown_field_message(keys.last(), component),
                ),
            ),
            p,
        );
    }
}

proof fn lemma_sections_follow(
    p: ConfigPolicy,
    raw: Seq<ConfigField>,
    section: Seq<char>,
    known: Seq<Seq<char>>,
)
    ensures
        follows_policy(section_field_diags(p, raw, section, known), p),
{
    match crate::config::section_keys(raw, section) {
        Some(keys) => lemma_unknown_fields_follow(p, Some(section), keys, known),
        None => {},
    }
}

proof fn lemma_rules_follow(p: ConfigPolicy, config: NeMoGuardrailsConfig)
    ensures
        follows_policy(version_diags(p, config.version), p),
        follows_policy(mode_diags(p, config.mode@), p),
        follows_policy(config_source_diags(p, config), p),
        follows_policy(non_empty_diags(p, config), p),
        follows_policy(codec_diags(p, config), p),
        follows_policy(surface_diags(p, config), p),
        follows_policy(backend_diags(p, config), p),
{
    lemma_codes_differ();
    lemma_follows_concat(local_source_diags(p, config), colang_source_diags(p, config), p);
    lemma_follows_concat(
        local_source_diags(p, config) + colang_source_diags(p, config),
        remote_source_diags(p, config),
        p,
    );
    let a = blank_field_diags(p, config.config_path, "config_path"@, "config_path must not be empty"@);
    let b = blank_field_diags(p, config.config_yaml, "config_yaml"@, "config_yaml must not be empty"@);
    let c = blank_field_diags(
        p,
        config.colang_content,
        "colang_content"@,
        "colang_content must not be empty"@,
    );
    if config.remote is Some {
        let r = config.remote->0;
        lemma_blank_ids_follow(p, r.config_ids@, r.config_ids@.len());
        lemma_follows_concat(
            blank_field_diags(p, r.config_id, "remote.config_id"@, "remote.config_id must not be empty"@),
            blank_ids_diags(p, r.config_ids@, r.config_ids@.len()),
            p,
        );
    }
    let e = only_if(
        !(config.remote is Some && crate::validate::has_content(config.remote->0.endpoint)),
        value_diag(
            p,
            code_unsupported_value(),
            Some("remote.endpoint"@),
            "remote.endpoint is required when mode is 'remote'"@,
        ),
    );
    let f = only_if(
        config.remote is Some,
        blank_field_diags(
            p,
            config.remote->0.config_id,
            "remote.config_id"@,
            "remote.config_id must not be empty"@,
        ) + blank_ids_diags(p, config.remote->0.config_ids@, config.remote->0.config_ids@.len()),
    );
    lemma_follows_concat(e, f, p);
    lemma_follows_concat(a, b, p);
    lemma_follows_concat(a + b, c, p);
    lemma_follows_concat(a + b + c, remote_blank_diags(p, config), p);
}

/// Every finding on a readable configuration is reported at the level its
/// policy prescribes: unknown fields at the level of `policy.unknown_field`,
/// every other finding at the level of `policy.unsupported_value`.
pub proof fn law_findings_follow_policy(config: NeMoGuardrailsConfig, raw: Seq<ConfigField>)
    ensures
        follows_policy(config_diags(config, raw), config.policy),
{
    let p = config.policy;
    lemma_unknown_fields_follow(
        p,
        crate::validate::kind_component(),
        crate::config::object_keys(raw),
        crate::validate::top_level_fields(),
    );
    lemma_sections_follow(p, raw, "policy"@, crate::validate::policy_fields());
    lemma_sections_follow(p, raw, "remote"@, crate::validate::remote_fields());
    lemma_sections_follow(p, raw, "local"@, crate::validate::local_fields());
    lemma_rules_follow(p, config);
    let s0 = unknown_field_diags(
        p.unknown_field,
        crate::validate::kind_component(),
        crate::config::object_keys(raw),
        crate::validate::top_level_fields(),
    );
    let s1 = section_field_diags(p, raw, "policy"@, crate::validate::policy_fields());
    let s2 = section_field_diags(p, raw, "remote"@, crate::validate::remote_fields());
    let s3 = section_field_diags(p, raw, "local"@, crate::validate::local_fields());
    lemma_follows_concat(s0, s1, p);
    lemma_follows_concat(s0 + s1, s2, p);
    lemma_follows_concat(s0 + s1 + s2, s3, p);
    let t0 = s0 + s1 + s2 + s3;
    lemma_follows_concat(t0, version_diags(p, config.version), p);
    let t1 = t0 + version_diags(p, config.version);
    lemma_follows_concat(t1, mode_diags(p, config.mode@), p);
    let t2 = t1 + mode_diags(p, config.mode@);
    lemma_follows_concat(t2, config_source_diags(p, config), p);
    let t3 = t2 + config_source_diags(p, config);
    lemma_follows_concat(t3, non_empty_diags(p, config), p);
    let t4 = t3 + non_empty_diags(p, config);
    lemma_follows_concat(t4, codec_diags(p, config), p);
    let t5 = t4 + codec_diags(p, config);
    lemma_follows_concat(t5, surface_diags(p, config), p);
    let t6 = t5 + surface_diags(p, config);
    lemma_follows_concat(t6, backend_diags(p, config), p);
}

/// A policy that ignores both unknown fields and unsupported values makes
/// every readable configuration pass without a single finding.
pub proof fn law_ignore_policy_is_silent(config: NeMoGuardrailsConfig, raw: Seq<ConfigField>)
    requires
        config.policy.unknown_field == UnsupportedBehavior::Ignore,
        config.policy.unsupported_value == UnsupportedBehavior::Ignore,
    ensures
        config_diags(config, raw).len() == 0,
{
    law_findings_follow_policy(config, raw);
    let d = config_diags(config, raw);
    if d.len() > 0 {
        assert(Some(d[0].level) == behavior_level(prescribed_behavior(config.policy, d[0].code)));
    }
}

/// When neither unknown fields nor unsupported values are errors under the
/// policy, no finding on a readable configuration is an error.
pub proof fn law_lenient_policy_never_rejects(config: NeMoGuardrailsConfig, raw: Seq<ConfigField>)
    requires
        config.policy.unknown_field != UnsupportedBehavior::Error,
        config.policy.unsupported_value != UnsupportedBehavior::Error,
    ensures
        !has_error_level(config_diags(config, raw)),
{
    law_findings_follow_policy(config, raw);
    let d = config_diags(config, raw);
    assert forall|i: int| 0 <= i < d.len() implies #[trigger] d[i].level
        != DiagnosticLevel::Error by {
        assert(Some(d[i].level) == behavior_level(prescribed_behavior(config.policy, d[i].code)));
    }
}

/// After registration the component kind is available.
pub proof fn law_registration_makes_kind_available(kinds: Map<Seq<char>, bool>)
    ensures
        with_component_registered(kinds).contains_key(plugin_kind_name()),
{
}

/// Registering the component kind twice has the effect of registering it once.
pub proof fn law_registration_is_idempotent(kinds: Map<Seq<char>, bool>)
    ensures
        with_component_registered(with_component_registered(kinds)) == with_component_registered(
            kinds,
        ),
{
}

/// Deregistering the component kind undoes its registration into a registry
/// that did not hold it.
pub proof fn law_deregistration_undoes_registration(kinds: Map<Seq<char>, bool>)
    requires
        !kinds.contains_key(plugin_kind_name()),
    ensures
        with_component_registered(kinds).remove(plugin_kind_name()) == kinds,
{
    assert(with_component_registered(kinds).remove(plugin_kind_name()) =~= kinds);
}

} // verus!
