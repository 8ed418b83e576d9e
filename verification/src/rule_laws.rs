//! What each validation rule promises of the findings on a readable
//! configuration, stated over the configuration's fields and the findings'
//! codes, fields and messages.
use vstd::prelude::*;

use crate::config::{ConfigField, NeMoGuardrailsConfig};
use crate::plugin::{DiagnosticView, UnsupportedBehavior};
use crate::text::{decimal, is_blank_seq};
use crate::validate::{
    backend_diags, blank_field_diags, blank_ids_diags, code_invalid_source, code_unknown_field,
    code_unsupported_value, code_unsupported_version, codec_diags, config_diags,
    config_source_diags, kind_component, local_fields, mode_diags, non_empty_diags, policy_fields,
    remote_blank_diags, remote_fields, section_field_diags, surface_diags, top_level_fields,
    unknown_field_diags, version_diags,
};

verus! {

/// Every finding satisfies `pred`.
pub open spec fn all_findings(d: Seq<DiagnosticView>, pred: spec_fn(DiagnosticView) -> bool) -> bool {
    forall|i: int| 0 <= i < d.len() ==> pred(#[trigger] d[i])
}

/// Some finding satisfies `pred`.
pub open spec fn some_finding(d: Seq<DiagnosticView>, pred: spec_fn(DiagnosticView) -> bool) -> bool {
    exists|i: int| 0 <= i < d.len() && pred(#[trigger] d[i])
}

proof fn lemma_all_concat(
    a: Seq<DiagnosticView>,
    b: Seq<DiagnosticView>,
    pred: spec_fn(DiagnosticView) -> bool,
)
    requires
        all_findings(a, pred),
        all_findings(b, pred),
    ensures
        all_findings(a + b, pred),
{
    assert forall|i: int| 0 <= i < (a + b).len() implies pred(#[trigger] (a + b)[i]) by {
        if i < a.len() {
            assert((a + b)[i] == a[i]);
        } else {
            assert((a + b)[i] == b[i - a.len()]);
        }
    }
}

proof fn lemma_some_concat(
    a: Seq<DiagnosticView>,
    b: Seq<DiagnosticView>,
    pred: spec_fn(DiagnosticView) -> bool,
)
    requires
        some_finding(a, pred) || some_finding(b, pred),
    ensures
        some_finding(a + b, pred),
{
    if some_finding(a, pred) {
        let i = choose|i: int| 0 <= i < a.len() && pred(#[trigger] a[i]);
        assert((a + b)[i] == a[i]);
    } else {
        let i = choose|i: int| 0 <= i < b.len() && pred(#[trigger] b[i]);
        assert((a + b)[a.len() + i] == b[i]);
    }
}

proof fn lemma_all_weaken(
    d: Seq<DiagnosticView>,
    p: spec_fn(DiagnosticView) -> bool,
    q: spec_fn(DiagnosticView) -> bool,
)
    requires
        all_findings(d, p),
        forall|x: DiagnosticView| #[trigger] p(x) ==> q(x),
    ensures
        all_findings(d, q),
{
    assert forall|i: int| 0 <= i < d.len() implies q(#[trigger] d[i]) by {
        assert(p(d[i]));
    }
}

/// The literals of codes, fields and components, as characters.
proof fn lemma_literals()
    ensures
        code_unknown_field() == "nemoguardrails.unknown_field"@,
        code_unsupported_value() == "nemoguardrails.unsupported_value"@,
        code_unsupported_version() == "nemoguardrails.unsupported_config_version"@,
        code_invalid_source() == "nemoguardrails.invalid_config_source"@,
        "nemoguardrails.unknown_field"@.len() == 28,
        "nemoguardrails.unsupported_value"@.len() == 32,
        "nemoguardrails.unsupported_config_version"@.len() == 41,
        "nemoguardrails.invalid_config_source"@.len() == 36,
        "nemoguardrails"@.len() == 14,
        "remote"@.len() == 6,
        "policy"@.len() == 6,
        "local"@.len() == 5,
        "remote"@[0] == 'r',
        "policy"@[0] == 'p',
        "codec"@.len() == 5,
        "codec"@[0] == 'c',
        "local"@[0] == 'l',
        "mode"@.len() == 4,
        "version"@.len() == 7,
        "colang_content"@.len() == 14,
        "config_path"@.len() == 11,
        "config_yaml"@.len() == 11,
        "remote.endpoint"@.len() == 15,
        "remote.config_id"@.len() == 16,
        "remote.config_ids["@.len() == 18,
        "]"@.len() == 1,
{
    reveal_strlit("nemoguardrails.unknown_field");
    reveal_strlit("nemoguardrails.unsupported_value");
    reveal_strlit("nemoguardrails.unsupported_config_version");
    reveal_strlit("nemoguardrails.invalid_config_source");
    reveal_strlit("nemoguardrails");
    reveal_strlit("remote");
    reveal_strlit("policy");
    reveal_strlit("local");
    reveal_strlit("codec");
    reveal_strlit("mode");
    reveal_strlit("version");
    reveal_strlit("colang_content");
    reveal_strlit("config_path");
    reveal_strlit("config_yaml");
    reveal_strlit("remote.endpoint");
    reveal_strlit("remote.config_id");
    reveal_strlit("remote.config_ids[");
    reveal_strlit("]");
}

proof fn lemma_decimal_nonempty(n: nat)
    ensures
        decimal(n).len() >= 1,
    decreases n,
{
    if n >= 10 {
        lemma_decimal_nonempty(n / 10);
    }
}

/// Unknown-field findings all have the unknown-field code and `component`.
proof fn lemma_unknown_shape(
    behavior: UnsupportedBehavior,
    component: Option<Seq<char>>,
    keys: Seq<Seq<char>>,
    known: Seq<Seq<char>>,
)
    ensures
        all_findings(
            unknown_field_diags(behavior, component, keys, known),
            |d: DiagnosticView| d.code == code_unknown_field() && d.component == component,
        ),
    decreases keys.len(),
{
    if keys.len() > 0 {
        lemma_unknown_shape(behavior, component, keys.drop_last(), known);
        let rest = unknown_field_diags(behavior, component, keys.drop_last(), known);
        let last = unknown_field_diags(behavior, component, keys, known).subrange(
            rest.len() as int,
            unknown_field_diags(behavior, component, keys, known).len() as int,
        );
        assert(unknown_field_diags(behavior, component, keys, known) =~= rest + last);
        lemma_all_concat(
            rest,
            last,
            |d: DiagnosticView| d.code == code_unknown_field() && d.component == component,
        );
    }
}

/// Keys that are all known give no unknown-field findings.
proof fn lemma_unknown_all_known(
    behavior: UnsupportedBehavior,
    component: Option<Seq<char>>,
    keys: Seq<Seq<char>>,
    known: Seq<Seq<char>>,
)
    requires
        forall|i: int| 0 <= i < keys.len() ==> known.contains(#[trigger] keys[i]),
    ensures
        unknown_field_diags(behavior, component, keys, known).len() == 0,
    decreases keys.len(),
{
    if keys.len() > 0 {
        assert(known.contains(keys[keys.len() - 1]));
        assert forall|i: int| 0 <= i < keys.drop_last().len() implies known.contains(
            #[trigger] keys.drop_last()[i],
        ) by {
            assert(keys.drop_last()[i] == keys[i]);
        }
        lemma_unknown_all_known(behavior, component, keys.drop_last(), known);
    }
}

/// Section findings are unknown-field findings about that section.
proof fn lemma_section_shape(
    raw: Seq<ConfigField>,
    config: NeMoGuardrailsConfig,
    section: Seq<char>,
    known: Seq<Seq<char>>,
)
    ensures
        all_findings(
            section_field_diags(config.policy, raw, section, known),
            |d: DiagnosticView| d.code == code_unknown_field() && d.component == Some(section),
        ),
{
    match crate::config::section_keys(raw, section) {
        Some(keys) => lemma_unknown_shape(config.policy.unknown_field, Some(section), keys, known),
        None => {},
    }
}

/// The member found for a section is a member of that name.
proof fn lemma_section_keys_found(raw: Seq<ConfigField>, section: Seq<char>)
    ensures
        crate::config::section_keys(raw, section) matches Some(keys) ==> exists|j: int|
            0 <= j < raw.len() && (#[trigger] raw[j]).name@ == section
                && crate::config::keys_view(raw[j].object_keys) == Some(keys),
    decreases raw.len(),
{
    if raw.len() > 0 && raw[0].name@ != section {
        lemma_section_keys_found(raw.drop_first(), section);
        if crate::config::section_keys(raw, section) is Some {
            let j = choose|j: int|
                0 <= j < raw.drop_first().len() && (#[trigger] raw.drop_first()[j]).name@
                    == section && crate::config::keys_view(raw.drop_first()[j].object_keys)
                    == crate::config::section_keys(raw, section);
            assert(raw[j + 1] == raw.drop_first()[j]);
        }
    } else if raw.len() > 0 {
        assert(raw[0].name@ == section);
    }
}

/// Findings on blank remote config ids name an indexed field.
proof fn lemma_blank_ids_shape(config: NeMoGuardrailsConfig, ids: Seq<String>, n: nat)
    ensures
        all_findings(
            blank_ids_diags(config.policy, ids, n),
            |d: DiagnosticView|
                d.code == code_unsupported_value() && d.field is Some && d.field->0.len() >= 20,
        ),
    decreases n,
{
    if n > 0 {
        let i = (n - 1) as nat;
        lemma_literals();
        lemma_decimal_nonempty(i);
        lemma_blank_ids_shape(config, ids, i);
        let rest = blank_ids_diags(config.policy, ids, i);
        let whole = blank_ids_diags(config.policy, ids, n);
        let last = whole.subrange(rest.len() as int, whole.len() as int);
        assert(whole =~= rest + last);
        lemma_all_concat(
            rest,
            last,
            |d: DiagnosticView|
                d.code == code_unsupported_value() && d.field is Some && d.field->0.len() >= 20,
        );
    }
}

/// A top-level unknown-field finding.
pub open spec fn top_shape(d: DiagnosticView) -> bool {
    d.code == code_unknown_field() && d.component == kind_component()
}

/// An unknown-field finding about `section`.
pub open spec fn section_shape(d: DiagnosticView, section: Seq<char>) -> bool {
    d.code == code_unknown_field() && d.component == Some(section)
}

/// A finding of the version rule.
pub open spec fn version_shape(d: DiagnosticView) -> bool {
    d.code == code_unsupported_version() && d.field == Some("version"@)
}

/// A finding of the mode rule.
pub open spec fn mode_shape(d: DiagnosticView) -> bool {
    d.code == code_unsupported_value() && d.field == Some("mode"@)
}

/// A finding of the rules on where the rails come from.
pub open spec fn source_shape(d: DiagnosticView) -> bool {
    (d.code == code_invalid_source() && d.field is None) || (d.code == code_unsupported_value() && (
    d.field == Some("colang_content"@) || d.field == Some("remote"@)))
}

/// A finding of the rules on blank strings.
pub open spec fn non_empty_shape(d: DiagnosticView) -> bool {
    d.code == code_unsupported_value() && d.field is Some && (d.field->0 == "config_path"@
        || d.field->0 == "config_yaml"@ || d.field->0 == "colang_content"@ || d.field->0
        == "remote.endpoint"@ || d.field->0 == "remote.config_id"@ || d.field->0.len() >= 20)
}

/// A finding of the codec rule.
pub open spec fn codec_shape(d: DiagnosticView) -> bool {
    d.code == code_unsupported_value() && d.field == Some("codec"@)
}

/// A finding of the surface rule.
pub open spec fn surface_shape(d: DiagnosticView) -> bool {
    d.code == code_unsupported_value() && d.field is None
}

/// A finding of the backend-section rule.
pub open spec fn backend_shape(d: DiagnosticView) -> bool {
    d.code == code_unsupported_value() && (d.field == Some("local"@) || d.field == Some("remote"@))
}

/// What each value rule can report: its codes and fields.
proof fn lemma_value_rule_shapes(config: NeMoGuardrailsConfig)
    ensures
        all_findings(version_diags(config.policy, config.version), |d: DiagnosticView| version_shape(d)),
        all_findings(mode_diags(config.policy, config.mode@), |d: DiagnosticView| mode_shape(d)),
        all_findings(config_source_diags(config.policy, config), |d: DiagnosticView| source_shape(d)),
        all_findings(non_empty_diags(config.policy, config), |d: DiagnosticView| non_empty_shape(d)),
        all_findings(codec_diags(config.policy, config), |d: DiagnosticView| codec_shape(d)),
        all_findings(surface_diags(config.policy, config), |d: DiagnosticView| surface_shape(d)),
        all_findings(backend_diags(config.policy, config), |d: DiagnosticView| backend_shape(d)),
{
    let p = config.policy;
    let src = |d: DiagnosticView| source_shape(d);
    let l = crate::validate::local_source_diags(p, config);
    let c = crate::validate::colang_source_diags(p, config);
    let r = crate::validate::remote_source_diags(p, config);
    assert(all_findings(l, src));
    assert(all_findings(c, src));
    let r1 = crate::validate::only_if(
        crate::validate::remote_has_config_id(config) && crate::validate::remote_has_config_ids(
            config,
        ),
        crate::validate::value_diag(
            p,
            code_unsupported_value(),
            Some("remote"@),
            "remote.config_id and remote.config_ids cannot be used together"@,
        ),
    );
    let r2 = crate::validate::only_if(
        !(crate::validate::has_content(config.config_path) || crate::validate::has_content(
            config.config_yaml,
        ) || crate::validate::remote_has_config_id(config)
            || crate::validate::remote_has_config_ids(config)),
        crate::validate::value_diag(
            p,
            code_invalid_source(),
            None,
            "remote mode requires config_path, config_yaml, remote.config_id, or remote.config_ids"@,
        ),
    );
    assert(all_findings(r1, src));
    assert(all_findings(r2, src));
    lemma_all_concat(r1, r2, src);
    if config.mode@ == "remote"@ {
        assert(r == r1 + r2);
    }
    assert(all_findings(r, src));
    lemma_all_concat(l, c, src);
    lemma_all_concat(l + c, r, src);

    let ne = |d: DiagnosticView| non_empty_shape(d);
    let a = blank_field_diags(p, config.config_path, "config_path"@, "config_path must not be empty"@);
    let b = blank_field_diags(p, config.config_yaml, "config_yaml"@, "config_yaml must not be empty"@);
    let cc = blank_field_diags(
        p,
        config.colang_content,
        "colang_content"@,
        "colang_content must not be empty"@,
    );
    assert(all_findings(a, ne));
    assert(all_findings(b, ne));
    assert(all_findings(cc, ne));
    let rb = remote_blank_diags(p, config);
    if config.mode@ == "remote"@ {
        let e = crate::validate::only_if(
            !(config.remote is Some && crate::validate::has_content(config.remote->0.endpoint)),
            crate::validate::value_diag(
                p,
                code_unsupported_value(),
                Some("remote.endpoint"@),
                "remote.endpoint is required when mode is 'remote'"@,
            ),
        );
        assert(all_findings(e, ne));
        if config.remote is Some {
            let rem = config.remote->0;
            let f1 = blank_field_diags(
                p,
                rem.config_id,
                "remote.config_id"@,
                "remote.config_id must not be empty"@,
            );
            let f2 = blank_ids_diags(p, rem.config_ids@, rem.config_ids@.len());
            assert(all_findings(f1, ne));
            lemma_blank_ids_shape(config, rem.config_ids@, rem.config_ids@.len());
            lemma_all_weaken(
                f2,
                |d: DiagnosticView|
                    d.code == code_unsupported_value() && d.field is Some && d.field->0.len()
                        >= 20,
                ne,
            );
            lemma_all_concat(f1, f2, ne);
            lemma_all_concat(e, f1 + f2, ne);
            assert(rb == e + (f1 + f2));
        } else {
            assert(rb =~= e + Seq::<DiagnosticView>::empty());
        }
    }
    assert(all_findings(rb, ne));
    lemma_all_concat(a, b, ne);
    lemma_all_concat(a + b, cc, ne);
    lemma_all_concat(a + b + cc, rb, ne);
}

/// A property that every part of the findings has, the findings have.
proof fn lemma_all_config_diags(
    config: NeMoGuardrailsConfig,
    raw: Seq<ConfigField>,
    pred: spec_fn(DiagnosticView) -> bool,
)
    requires
        all_findings(
            unknown_field_diags(
                config.policy.unknown_field,
                kind_component(),
                crate::config::object_keys(raw),
                top_level_fields(),
            ),
            pred,
        ),
        all_findings(section_field_diags(config.policy, raw, "policy"@, policy_fields()), pred),
        all_findings(section_field_diags(config.policy, raw, "remote"@, remote_fields()), pred),
        all_findings(section_field_diags(config.policy, raw, "local"@, local_fields()), pred),
        all_findings(version_diags(config.policy, config.version), pred),
        all_findings(mode_diags(config.policy, config.mode@), pred),
        all_findings(config_source_diags(config.policy, config), pred),
        all_findings(non_empty_diags(config.policy, config), pred),
        all_findings(codec_diags(config.policy, config), pred),
        all_findings(surface_diags(config.policy, config), pred),
        all_findings(backend_diags(config.policy, config), pred),
    ensures
        all_findings(config_diags(config, raw), pred),
{
    let p = config.policy;
    let s0 = unknown_field_diags(
        p.unknown_field,
        kind_component(),
        crate::config::object_keys(raw),
        top_level_fields(),
    );
    let s1 = section_field_diags(p, raw, "policy"@, policy_fields());
    let s2 = section_field_diags(p, raw, "remote"@, remote_fields());
    let s3 = section_field_diags(p, raw, "local"@, local_fields());
    lemma_all_concat(s0, s1, pred);
    lemma_all_concat(s0 + s1, s2, pred);
    lemma_all_concat(s0 + s1 + s2, s3, pred);
    let t0 = s0 + s1 + s2 + s3;
    lemma_all_concat(t0, version_diags(p, config.version), pred);
    let t1 = t0 + version_diags(p, config.version);
    lemma_all_concat(t1, mode_diags(p, config.mode@), pred);
    let t2 = t1 + mode_diags(p, config.mode@);
    lemma_all_concat(t2, config_source_diags(p, config), pred);
    let t3 = t2 + config_source_diags(p, config);
    lemma_all_concat(t3, non_empty_diags(p, config), pred);
    let t4 = t3 + non_empty_diags(p, config);
    lemma_all_concat(t4, codec_diags(p, config), pred);
    let t5 = t4 + codec_diags(p, config);
    lemma_all_concat(t5, surface_diags(p, config), pred);
    let t6 = t5 + surface_diags(p, config);
    lemma_all_concat(t6, backend_diags(p, config), pred);
}

/// A finding that some part of the findings holds, the findings hold.
proof fn lemma_some_config_diags(
    config: NeMoGuardrailsConfig,
    raw: Seq<ConfigField>,
    pred: spec_fn(DiagnosticView) -> bool,
)
    requires
        some_finding(
            unknown_field_diags(
                config.policy.unknown_field,
                kind_component(),
                crate::config::object_keys(raw),
                top_level_fields(),
            ),
            pred,
        ) || some_finding(section_field_diags(config.policy, raw, "policy"@, policy_fields()), pred)
            || some_finding(section_field_diags(config.policy, raw, "remote"@, remote_fields()), pred)
            || some_finding(section_field_diags(config.policy, raw, "local"@, local_fields()), pred)
            || some_finding(version_diags(config.policy, config.version), pred) || some_finding(
            mode_diags(config.policy, config.mode@),
            pred,
        ) || some_finding(config_source_diags(config.policy, config), pred) || some_finding(
            non_empty_diags(config.policy, config),
            pred,
        ) || some_finding(codec_diags(config.policy, config), pred) || some_finding(
            surface_diags(config.policy, config),
            pred,
        ) || some_finding(backend_diags(config.policy, config), pred),
    ensures
        some_finding(config_diags(config, raw), pred),
{
    let p = config.policy;
    let s0 = unknown_field_diags(
        p.unknown_field,
        kind_component(),
        crate::config::object_keys(raw),
        top_level_fields(),
    );
    let s1 = section_field_diags(p, raw, "policy"@, policy_fields());
    let s2 = section_field_diags(p, raw, "remote"@, remote_fields());
    let s3 = section_field_diags(p, raw, "local"@, local_fields());
    let q4 = version_diags(p, config.version);
    let q5 = mode_diags(p, config.mode@);
    let q6 = config_source_diags(p, config);
    let q7 = non_empty_diags(p, config);
    let q8 = codec_diags(p, config);
    let q9 = surface_diags(p, config);
    let q10 = backend_diags(p, config);
    let t1 = s0 + s1;
    if some_finding(s0, pred) || some_finding(s1, pred) {
        lemma_some_concat(s0, s1, pred);
    }
    let t2 = t1 + s2;
    if some_finding(t1, pred) || some_finding(s2, pred) {
        lemma_some_concat(t1, s2, pred);
    }
    let t3 = t2 + s3;
    if some_finding(t2, pred) || some_finding(s3, pred) {
        lemma_some_concat(t2, s3, pred);
    }
    let t4 = t3 + q4;
    if some_finding(t3, pred) || some_finding(q4, pred) {
        lemma_some_concat(t3, q4, pred);
    }
    let t5 = t4 + q5;
    if some_finding(t4, pred) || some_finding(q5, pred) {
        lemma_some_concat(t4, q5, pred);
    }
    let t6 = t5 + q6;
    if some_finding(t5, pred) || some_finding(q6, pred) {
        lemma_some_concat(t5, q6, pred);
    }
    let t7 = t6 + q7;
    if some_finding(t6, pred) || some_finding(q7, pred) {
        lemma_some_concat(t6, q7, pred);
    }
    let t8 = t7 + q8;
    if some_finding(t7, pred) || some_finding(q8, pred) {
        lemma_some_concat(t7, q8, pred);
    }
    let t9 = t8 + q9;
    if some_finding(t8, pred) || some_finding(q9, pred) {
        lemma_some_concat(t8, q9, pred);
    }
    let t10 = t9 + q10;
    if some_finding(t9, pred) || some_finding(q10, pred) {
        lemma_some_concat(t9, q10, pred);
    }
    assert(t10 == config_diags(config, raw));
}


/// A property that each part of the findings either has outright or has by
/// the shape of that part's findings, the findings have.
proof fn lemma_all_by_shapes(
    config: NeMoGuardrailsConfig,
    raw: Seq<ConfigField>,
    pred: spec_fn(DiagnosticView) -> bool,
)
    requires
        all_findings(
            unknown_field_diags(
                config.policy.unknown_field,
                kind_component(),
                crate::config::object_keys(raw),
                top_level_fields(),
            ),
            pred,
        ) || forall|d: DiagnosticView| #[trigger] top_shape(d) ==> pred(d),
        all_findings(section_field_diags(config.policy, raw, "policy"@, policy_fields()), pred)
            || forall|d: DiagnosticView| #[trigger] section_shape(d, "policy"@) ==> pred(d),
        all_findings(section_field_diags(config.policy, raw, "remote"@, remote_fields()), pred)
            || forall|d: DiagnosticView| #[trigger] section_shape(d, "remote"@) ==> pred(d),
        all_findings(section_field_diags(config.policy, raw, "local"@, local_fields()), pred)
            || forall|d: DiagnosticView| #[trigger] section_shape(d, "local"@) ==> pred(d),
        all_findings(version_diags(config.policy, config.version), pred) || forall|
            d: DiagnosticView,
        | #[trigger] version_shape(d) ==> pred(d),
        all_findings(mode_diags(config.policy, config.mode@), pred) || forall|d: DiagnosticView| #[trigger]
            mode_shape(d) ==> pred(d),
        all_findings(config_source_diags(config.policy, config), pred) || forall|
            d: DiagnosticView,
        | #[trigger] source_shape(d) ==> pred(d),
        all_findings(non_empty_diags(config.policy, config), pred) || forall|d: DiagnosticView| #[trigger]
            non_empty_shape(d) ==> pred(d),
        all_findings(codec_diags(config.policy, config), pred) || forall|d: DiagnosticView| #[trigger]
            codec_shape(d) ==> pred(d),
        all_findings(surface_diags(config.policy, config), pred) || forall|d: DiagnosticView| #[trigger]
            surface_shape(d) ==> pred(d),
        all_findings(backend_diags(config.policy, config), pred) || forall|d: DiagnosticView| #[trigger]
            backend_shape(d) ==> pred(d),
    ensures
        all_findings(config_diags(config, raw), pred),
{
    let p = config.policy;
    lemma_value_rule_shapes(config);
    lemma_unknown_shape(
        p.unknown_field,
        kind_component(),
        crate::config::object_keys(raw),
        top_level_fields(),
    );
    if !all_findings(
        unknown_field_diags(
            p.unknown_field,
            kind_component(),
            crate::config::object_keys(raw),
            top_level_fields(),
        ),
        pred,
    ) {
        assert forall|d: DiagnosticView|
            d.code == code_unknown_field() && d.component == kind_component() implies pred(d) by {
            assert(top_shape(d));
        }
        lemma_all_weaken(
            unknown_field_diags(
                p.unknown_field,
                kind_component(),
                crate::config::object_keys(raw),
                top_level_fields(),
            ),
            |d: DiagnosticView| d.code == code_unknown_field() && d.component == kind_component(),
            pred,
        );
    }
    lemma_section_shape(raw, config, "policy"@, policy_fields());
    if !all_findings(section_field_diags(p, raw, "policy"@, policy_fields()), pred) {
        assert forall|d: DiagnosticView|
            d.code == code_unknown_field() && d.component == Some("policy"@) implies pred(d) by {
            assert(section_shape(d, "policy"@));
        }
        lemma_all_weaken(
            section_field_diags(p, raw, "policy"@, policy_fields()),
            |d: DiagnosticView| d.code == code_unknown_field() && d.component == Some("policy"@),
            pred,
        );
    }
    if !all_findings(section_field_diags(p, raw, "remote"@, remote_fields()), pred) {
        lemma_section_shape(raw, config, "remote"@, remote_fields());
        assert forall|d: DiagnosticView|
            d.code == code_unknown_field() && d.component == Some("remote"@) implies pred(d) by {
            assert(section_shape(d, "remote"@));
        }
        lemma_all_weaken(
            section_field_diags(p, raw, "remote"@, remote_fields()),
            |d: DiagnosticView| d.code == code_unknown_field() && d.component == Some("remote"@),
            pred,
        );
    }
    lemma_section_shape(raw, config, "local"@, local_fields());
    if !all_findings(section_field_diags(p, raw, "local"@, local_fields()), pred) {
        assert forall|d: DiagnosticView|
            d.code == code_unknown_field() && d.component == Some("local"@) implies pred(d) by {
            assert(section_shape(d, "local"@));
        }
        lemma_all_weaken(
            section_field_diags(p, raw, "local"@, local_fields()),
            |d: DiagnosticView| d.code == code_unknown_field() && d.component == Some("local"@),
            pred,
        );
    }
    if !all_findings(version_diags(p, config.version), pred) {
        lemma_all_weaken(version_diags(p, config.version), |d: DiagnosticView| version_shape(d), pred);
    }
    if !all_findings(mode_diags(p, config.mode@), pred) {
        lemma_all_weaken(mode_diags(p, config.mode@), |d: DiagnosticView| mode_shape(d), pred);
    }
    if !all_findings(config_source_diags(p, config), pred) {
        lemma_all_weaken(config_source_diags(p, config), |d: DiagnosticView| source_shape(d), pred);
    }
    if !all_findings(non_empty_diags(p, config), pred) {
        lemma_all_weaken(non_empty_diags(p, config), |d: DiagnosticView| non_empty_shape(d), pred);
    }
    if !all_findings(codec_diags(p, config), pred) {
        lemma_all_weaken(codec_diags(p, config), |d: DiagnosticView| codec_shape(d), pred);
    }
    if !all_findings(surface_diags(p, config), pred) {
        lemma_all_weaken(surface_diags(p, config), |d: DiagnosticView| surface_shape(d), pred);
    }
    if !all_findings(backend_diags(p, config), pred) {
        lemma_all_weaken(backend_diags(p, config), |d: DiagnosticView| backend_shape(d), pred);
    }
    lemma_all_config_diags(config, raw, pred);
}

/// In remote mode a non-blank entry of `remote.config_ids` is a source of
/// rails: when no non-blank `remote.config_id` competes with it, no finding
/// says that the configuration lacks a source.
pub proof fn law_remote_config_ids_are_a_rails_source(
    config: NeMoGuardrailsConfig,
    raw: Seq<ConfigField>,
)
    requires
        config.mode@ == "remote"@,
        config.remote is Some,
        exists|i: int|
            0 <= i < config.remote->0.config_ids@.len() && !is_blank_seq(
                #[trigger] config.remote->0.config_ids@[i]@,
            ),
        config.remote->0.config_id is None || is_blank_seq(config.remote->0.config_id->0@),
    ensures
        forall|i: int|
            0 <= i < config_diags(config, raw).len() ==> (#[trigger] config_diags(config, raw)[i]).code
                != "nemoguardrails.invalid_config_source"@,
{
    lemma_literals();
    let pred = |d: DiagnosticView| d.code != "nemoguardrails.invalid_config_source"@;
    assert(crate::validate::remote_has_config_ids(config));
    assert(!crate::validate::remote_has_config_id(config));
    assert("remote"@ != "local"@);
    assert(all_findings(config_source_diags(config.policy, config), pred));
    lemma_all_by_shapes(config, raw, pred);
}

/// Blank inline Colang content is reported as such, whenever the policy
/// reports unsupported values at all.
pub proof fn law_blank_colang_content_is_reported(config: NeMoGuardrailsConfig, raw: Seq<ConfigField>)
    requires
        config.colang_content is Some,
        is_blank_seq(config.colang_content->0@),
        config.policy.unsupported_value != UnsupportedBehavior::Ignore,
    ensures
        exists|i: int|
            0 <= i < config_diags(config, raw).len() && (#[trigger] config_diags(config, raw)[i]).code
                == "nemoguardrails.unsupported_value"@ && config_diags(config, raw)[i].field == Some(
                "colang_content"@,
            ) && config_diags(config, raw)[i].message == "colang_content must not be empty"@,
{
    lemma_literals();
    let p = config.policy;
    let good = |d: DiagnosticView|
        d.code == "nemoguardrails.unsupported_value"@ && d.field == Some("colang_content"@)
            && d.message == "colang_content must not be empty"@;
    let a = blank_field_diags(p, config.config_path, "config_path"@, "config_path must not be empty"@);
    let b = blank_field_diags(p, config.config_yaml, "config_yaml"@, "config_yaml must not be empty"@);
    let c = blank_field_diags(
        p,
        config.colang_content,
        "colang_content"@,
        "colang_content must not be empty"@,
    );
    assert(good(c[0]));
    assert(some_finding(c, good));
    lemma_some_concat(a + b, c, good);
    lemma_some_concat(a + b + c, remote_blank_diags(p, config), good);
    assert(non_empty_diags(p, config) == a + b + c + remote_blank_diags(p, config));
    lemma_some_config_diags(config, raw, good);
    let i = choose|i: int| 0 <= i < config_diags(config, raw).len() && good(#[trigger] config_diags(config, raw)[i]);
    assert(good(config_diags(config, raw)[i]));
}

/// Every setting of the remote backend is a known field of the `remote`
/// section: a `remote` object whose keys are all among `endpoint`,
/// `config_id`, `config_ids`, `headers` and `timeout_millis` gives no
/// unknown-field finding about that section.
pub proof fn law_remote_settings_are_known_fields(config: NeMoGuardrailsConfig, raw: Seq<ConfigField>)
    requires
        forall|j: int, k: int|
            0 <= j < raw.len() && (#[trigger] raw[j]).name@ == "remote"@ && raw[j].object_keys is Some
                && 0 <= k < raw[j].object_keys->0@.len() ==> {
                let key = (#[trigger] raw[j].object_keys->0@[k])@;
                key == "endpoint"@ || key == "config_id"@ || key == "config_ids"@ || key
                    == "headers"@ || key == "timeout_millis"@
            },
    ensures
        forall|i: int|
            0 <= i < config_diags(config, raw).len() ==> !((#[trigger] config_diags(config, raw)[i]).code
                == "nemoguardrails.unknown_field"@ && config_diags(config, raw)[i].component == Some(
                "remote"@,
            )),
{
    lemma_literals();
    let pred = |d: DiagnosticView|
        !(d.code == "nemoguardrails.unknown_field"@ && d.component == Some("remote"@));
    assert("remote"@ != "policy"@);
    assert("remote"@ != "nemoguardrails"@);
    let s2 = section_field_diags(config.policy, raw, "remote"@, remote_fields());
    lemma_section_keys_found(raw, "remote"@);
    match crate::config::section_keys(raw, "remote"@) {
        Some(keys) => {
            let j = choose|j: int|
                0 <= j < raw.len() && (#[trigger] raw[j]).name@ == "remote"@
                    && crate::config::keys_view(raw[j].object_keys) == Some(keys);
            assert(raw[j].object_keys is Some);
            let known = remote_fields();
            assert(known[0] == "endpoint"@ && known[1] == "config_id"@ && known[2] == "config_ids"@
                && known[3] == "headers"@ && known[4] == "timeout_millis"@);
            assert forall|k: int| 0 <= k < keys.len() implies known.contains(#[trigger] keys[k]) by {
                assert(keys[k] == raw[j].object_keys->0@[k]@);
                let key = raw[j].object_keys->0@[k]@;
                if key == "endpoint"@ {
                    assert(known[0] == key);
                } else if key == "config_id"@ {
                    assert(known[1] == key);
                } else if key == "config_ids"@ {
                    assert(known[2] == key);
                } else if key == "headers"@ {
                    assert(known[3] == key);
                } else {
                    assert(known[4] == key);
                }
            }
            lemma_unknown_all_known(config.policy.unknown_field, Some("remote"@), keys, known);
        },
        None => {},
    }
    assert(s2.len() == 0);
    assert(all_findings(s2, pred));
    lemma_all_by_shapes(config, raw, pred);
}

/// Each of `openai_chat`, `openai_responses` and `anthropic_messages` is a
/// codec the component accepts: with an LLM surface enabled and one of them
/// chosen, no finding reports the codec as unsupported.
pub proof fn law_supported_codecs_are_accepted(config: NeMoGuardrailsConfig, raw: Seq<ConfigField>)
    requires
        config.input || config.output || config.streaming,
        config.codec is Some,
        config.codec->0@ == "openai_chat"@ || config.codec->0@ == "openai_responses"@
            || config.codec->0@ == "anthropic_messages"@,
    ensures
        forall|i: int|
            0 <= i < config_diags(config, raw).len() ==> !((#[trigger] config_diags(config, raw)[i]).code
                == "nemoguardrails.unsupported_value"@ && config_diags(config, raw)[i].field == Some(
                "codec"@,
            )),
{
    lemma_literals();
    let pred = |d: DiagnosticView|
        !(d.code == "nemoguardrails.unsupported_value"@ && d.field == Some("codec"@));
    assert("codec"@ != "local"@);
    assert(codec_diags(config.policy, config).len() == 0);
    assert(all_findings(codec_diags(config.policy, config), pred));
    lemma_all_by_shapes(config, raw, pred);
}

/// Enabling any one Guardrails surface (input, output, tool input, tool
/// output or streaming) satisfies the surface rule: there is no finding that
/// no surface is enabled, nor any other unsupported-value finding against the
/// configuration as a whole.
pub proof fn law_any_surface_satisfies_selection(config: NeMoGuardrailsConfig, raw: Seq<ConfigField>)
    requires
        config.input || config.output || config.tool_input || config.tool_output || config.streaming,
    ensures
        forall|i: int|
            0 <= i < config_diags(config, raw).len() ==> !((#[trigger] config_diags(config, raw)[i]).code
                == "nemoguardrails.unsupported_value"@ && config_diags(config, raw)[i].field is None),
{
    lemma_literals();
    let pred = |d: DiagnosticView|
        !(d.code == "nemoguardrails.unsupported_value"@ && d.field is None);
    assert(surface_diags(config.policy, config).len() == 0);
    assert(all_findings(surface_diags(config.policy, config), pred));
    lemma_all_by_shapes(config, raw, pred);
}


/// Some finding has this code, field and message.
pub open spec fn reports(
    diags: Seq<DiagnosticView>,
    code: Seq<char>,
    field: Option<Seq<char>>,
    message: Seq<char>,
) -> bool {
    exists|i: int|
        0 <= i < diags.len() && (#[trigger] diags[i]).code == code && diags[i].field == field
            && diags[i].message == message
}

proof fn lemma_reports_from_some(
    diags: Seq<DiagnosticView>,
    code: Seq<char>,
    field: Option<Seq<char>>,
    message: Seq<char>,
)
    requires
        some_finding(
            diags,
            |d: DiagnosticView| d.code == code && d.field == field && d.message == message,
        ),
    ensures
        reports(diags, code, field, message),
{
    let good = |d: DiagnosticView| d.code == code && d.field == field && d.message == message;
    let i = choose|i: int| 0 <= i < diags.len() && good(#[trigger] diags[i]);
    assert(good(diags[i]));
}

/// A schema version other than 1 is reported, with the version in decimal,
/// whenever the policy reports unsupported values.
pub proof fn law_unsupported_version_is_reported(config: NeMoGuardrailsConfig, raw: Seq<ConfigField>)
    requires
        config.version != 1,
        config.policy.unsupported_value != UnsupportedBehavior::Ignore,
    ensures
        reports(
            config_diags(config, raw),
            "nemoguardrails.unsupported_config_version"@,
            Some("version"@),
            "NeMo Guardrails config version "@ + decimal(config.version as nat) + " is unsupported"@,
        ),
{
    let good = |d: DiagnosticView|
        d.code == "nemoguardrails.unsupported_config_version"@ && d.field == Some("version"@)
            && d.message == "NeMo Guardrails config version "@ + decimal(config.version as nat)
            + " is unsupported"@;
    let q = version_diags(config.policy, config.version);
    assert(good(q[0]));
    assert(some_finding(q, good));
    lemma_some_config_diags(config, raw, good);
    lemma_reports_from_some(
        config_diags(config, raw),
        "nemoguardrails.unsupported_config_version"@,
        Some("version"@),
        "NeMo Guardrails config version "@ + decimal(config.version as nat) + " is unsupported"@,
    );
}

/// Schema version 1 is supported: no finding is about the version.
pub proof fn law_version_one_is_supported(config: NeMoGuardrailsConfig, raw: Seq<ConfigField>)
    requires
        config.version == 1,
    ensures
        forall|i: int|
            0 <= i < config_diags(config, raw).len() ==> (#[trigger] config_diags(config, raw)[i]).code
                != "nemoguardrails.unsupported_config_version"@,
{
    lemma_literals();
    let pred = |d: DiagnosticView| d.code != "nemoguardrails.unsupported_config_version"@;
    assert(all_findings(version_diags(config.policy, config.version), pred));
    assert(all_findings(config_source_diags(config.policy, config), pred)) by {
        lemma_value_rule_shapes(config);
        lemma_all_weaken(config_source_diags(config.policy, config), |d: DiagnosticView| source_shape(d), pred);
    }
    lemma_all_by_shapes(config, raw, pred);
}

/// A mode other than `remote` and `local` is reported, whenever the policy
/// reports unsupported values.
pub proof fn law_unknown_mode_is_reported(config: NeMoGuardrailsConfig, raw: Seq<ConfigField>)
    requires
        config.mode@ != "remote"@,
        config.mode@ != "local"@,
        config.policy.unsupported_value != UnsupportedBehavior::Ignore,
    ensures
        reports(
            config_diags(config, raw),
            "nemoguardrails.unsupported_value"@,
            Some("mode"@),
            "mode must be 'remote' or 'local'"@,
        ),
{
    let good = |d: DiagnosticView|
        d.code == "nemoguardrails.unsupported_value"@ && d.field == Some("mode"@) && d.message
            == "mode must be 'remote' or 'local'"@;
    let q = mode_diags(config.policy, config.mode@);
    assert(good(q[0]));
    assert(some_finding(q, good));
    lemma_some_config_diags(config, raw, good);
    lemma_reports_from_some(
        config_diags(config, raw),
        "nemoguardrails.unsupported_value"@,
        Some("mode"@),
        "mode must be 'remote' or 'local'"@,
    );
}

/// The modes `remote` and `local` are accepted: no unsupported-value finding
/// is about the mode.
pub proof fn law_known_modes_are_accepted(config: NeMoGuardrailsConfig, raw: Seq<ConfigField>)
    requires
        config.mode@ == "remote"@ || config.mode@ == "local"@,
    ensures
        forall|i: int|
            0 <= i < config_diags(config, raw).len() ==> !((#[trigger] config_diags(config, raw)[i]).code
                == "nemoguardrails.unsupported_value"@ && config_diags(config, raw)[i].field == Some(
                "mode"@,
            )),
{
    lemma_literals();
    let pred = |d: DiagnosticView|
        !(d.code == "nemoguardrails.unsupported_value"@ && d.field == Some("mode"@));
    assert(all_findings(mode_diags(config.policy, config.mode@), pred));
    assert("mode"@ != "local"@);
    lemma_all_by_shapes(config, raw, pred);
}

/// With an LLM surface enabled, a missing codec is reported, whenever the
/// policy reports unsupported values.
pub proof fn law_missing_codec_is_reported(config: NeMoGuardrailsConfig, raw: Seq<ConfigField>)
    requires
        config.input || config.output || config.streaming,
        config.codec is None,
        config.policy.unsupported_value != UnsupportedBehavior::Ignore,
    ensures
        reports(
            config_diags(config, raw),
            "nemoguardrails.unsupported_value"@,
            Some("codec"@),
            "codec is required when any LLM surface is enabled"@,
        ),
{
    let good = |d: DiagnosticView|
        d.code == "nemoguardrails.unsupported_value"@ && d.field == Some("codec"@) && d.message
            == "codec is required when any LLM surface is enabled"@;
    let q = codec_diags(config.policy, config);
    assert(good(q[0]));
    assert(some_finding(q, good));
    lemma_some_config_diags(config, raw, good);
    lemma_reports_from_some(
        config_diags(config, raw),
        "nemoguardrails.unsupported_value"@,
        Some("codec"@),
        "codec is required when any LLM surface is enabled"@,
    );
}

/// With an LLM surface enabled, a codec other than the three supported ones
/// is reported, whenever the policy reports unsupported values.
pub proof fn law_unknown_codec_is_reported(config: NeMoGuardrailsConfig, raw: Seq<ConfigField>)
    requires
        config.input || config.output || config.streaming,
        config.codec is Some,
        config.codec->0@ != "openai_chat"@,
        config.codec->0@ != "openai_responses"@,
        config.codec->0@ != "anthropic_messages"@,
        config.policy.unsupported_value != UnsupportedBehavior::Ignore,
    ensures
        reports(
            config_diags(config, raw),
            "nemoguardrails.unsupported_value"@,
            Some("codec"@),
            "codec must be 'openai_chat', 'openai_responses', or 'anthropic_messages'"@,
        ),
{
    let good = |d: DiagnosticView|
        d.code == "nemoguardrails.unsupported_value"@ && d.field == Some("codec"@) && d.message
            == "codec must be 'openai_chat', 'openai_responses', or 'anthropic_messages'"@;
    let q = codec_diags(config.policy, config);
    assert(good(q[0]));
    assert(some_finding(q, good));
    lemma_some_config_diags(config, raw, good);
    lemma_reports_from_some(
        config_diags(config, raw),
        "nemoguardrails.unsupported_value"@,
        Some("codec"@),
        "codec must be 'openai_chat', 'openai_responses', or 'anthropic_messages'"@,
    );
}

/// Without an LLM surface the codec is not checked: no unsupported-value
/// finding is about the codec.
pub proof fn law_codec_unchecked_without_llm_surface(config: NeMoGuardrailsConfig, raw: Seq<ConfigField>)
    requires
        !config.input,
        !config.output,
        !config.streaming,
    ensures
        forall|i: int|
            0 <= i < config_diags(config, raw).len() ==> !((#[trigger] config_diags(config, raw)[i]).code
                == "nemoguardrails.unsupported_value"@ && config_diags(config, raw)[i].field == Some(
                "codec"@,
            )),
{
    lemma_literals();
    let pred = |d: DiagnosticView|
        !(d.code == "nemoguardrails.unsupported_value"@ && d.field == Some("codec"@));
    assert(codec_diags(config.policy, config).len() == 0);
    assert(all_findings(codec_diags(config.policy, config), pred));
    assert("codec"@ != "local"@);
    lemma_all_by_shapes(config, raw, pred);
}

/// With every Guardrails surface off, that is reported, whenever the policy
/// reports unsupported values.
pub proof fn law_no_surface_is_reported(config: NeMoGuardrailsConfig, raw: Seq<ConfigField>)
    requires
        !config.input,
        !config.output,
        !config.tool_input,
        !config.tool_output,
        !config.streaming,
        config.policy.unsupported_value != UnsupportedBehavior::Ignore,
    ensures
        reports(
            config_diags(config, raw),
            "nemoguardrails.unsupported_value"@,
            None,
            "at least one Guardrails surface must be enabled"@,
        ),
{
    let good = |d: DiagnosticView|
        d.code == "nemoguardrails.unsupported_value"@ && d.field == None::<Seq<char>> && d.message
            == "at least one Guardrails surface must be enabled"@;
    let q = surface_diags(config.policy, config);
    assert(good(q[0]));
    assert(some_finding(q, good));
    lemma_some_config_diags(config, raw, good);
    lemma_reports_from_some(
        config_diags(config, raw),
        "nemoguardrails.unsupported_value"@,
        None,
        "at least one Guardrails surface must be enabled"@,
    );
}

/// Local settings in remote mode are reported, whenever the policy reports
/// unsupported values.
pub proof fn law_local_settings_in_remote_mode_are_reported(
    config: NeMoGuardrailsConfig,
    raw: Seq<ConfigField>,
)
    requires
        config.mode@ == "remote"@,
        config.local is Some,
        config.policy.unsupported_value != UnsupportedBehavior::Ignore,
    ensures
        reports(
            config_diags(config, raw),
            "nemoguardrails.unsupported_value"@,
            Some("local"@),
            "local backend settings cannot be used when mode is 'remote'"@,
        ),
{
    let good = |d: DiagnosticView|
        d.code == "nemoguardrails.unsupported_value"@ && d.field == Some("local"@) && d.message
            == "local backend settings cannot be used when mode is 'remote'"@;
    let q = backend_diags(config.policy, config);
    assert(good(q[0]));
    assert(some_finding(q, good));
    lemma_some_config_diags(config, raw, good);
    lemma_reports_from_some(
        config_diags(config, raw),
        "nemoguardrails.unsupported_value"@,
        Some("local"@),
        "local backend settings cannot be used when mode is 'remote'"@,
    );
}

/// Remote settings in local mode are reported, whenever the policy reports
/// unsupported values.
pub proof fn law_remote_settings_in_local_mode_are_reported(
    config: NeMoGuardrailsConfig,
    raw: Seq<ConfigField>,
)
    requires
        config.mode@ == "local"@,
        config.remote is Some,
        config.policy.unsupported_value != UnsupportedBehavior::Ignore,
    ensures
        reports(
            config_diags(config, raw),
            "nemoguardrails.unsupported_value"@,
            Some("remote"@),
            "remote backend settings cannot be used when mode is 'local'"@,
        ),
{
    lemma_literals();
    assert("local"@ != "remote"@);
    let good = |d: DiagnosticView|
        d.code == "nemoguardrails.unsupported_value"@ && d.field == Some("remote"@) && d.message
            == "remote backend settings cannot be used when mode is 'local'"@;
    let q = backend_diags(config.policy, config);
    assert(good(q[0]));
    assert(some_finding(q, good));
    lemma_some_config_diags(config, raw, good);
    lemma_reports_from_some(
        config_diags(config, raw),
        "nemoguardrails.unsupported_value"@,
        Some("remote"@),
        "remote backend settings cannot be used when mode is 'local'"@,
    );
}

/// Local settings are only refused in remote mode: otherwise no
/// unsupported-value finding is about the `local` section.
pub proof fn law_local_settings_outside_remote_mode_are_accepted(
    config: NeMoGuardrailsConfig,
    raw: Seq<ConfigField>,
)
    requires
        !(config.mode@ == "remote"@ && config.local is Some),
    ensures
        forall|i: int|
            0 <= i < config_diags(config, raw).len() ==> !((#[trigger] config_diags(config, raw)[i]).code
                == "nemoguardrails.unsupported_value"@ && config_diags(config, raw)[i].field == Some(
                "local"@,
            )),
{
    lemma_literals();
    let pred = |d: DiagnosticView|
        !(d.code == "nemoguardrails.unsupported_value"@ && d.field == Some("local"@));
    assert("local"@ != "remote"@);
    assert("local"@ != "codec"@);
    assert(all_findings(backend_diags(config.policy, config), pred));
    lemma_all_by_shapes(config, raw, pred);
}


/// A present string with some character that is not white space.
pub open spec fn given(o: Option<String>) -> bool {
    o is Some && !is_blank_seq(o->0@)
}

proof fn lemma_some_in_source(config: NeMoGuardrailsConfig, pred: spec_fn(DiagnosticView) -> bool)
    requires
        some_finding(crate::validate::local_source_diags(config.policy, config), pred)
            || some_finding(crate::validate::colang_source_diags(config.policy, config), pred)
            || some_finding(crate::validate::remote_source_diags(config.policy, config), pred),
    ensures
        some_finding(config_source_diags(config.policy, config), pred),
{
    let l = crate::validate::local_source_diags(config.policy, config);
    let c = crate::validate::colang_source_diags(config.policy, config);
    let r = crate::validate::remote_source_diags(config.policy, config);
    if some_finding(l, pred) || some_finding(c, pred) {
        lemma_some_concat(l, c, pred);
    }
    lemma_some_concat(l + c, r, pred);
}

proof fn lemma_some_in_non_empty(config: NeMoGuardrailsConfig, pred: spec_fn(DiagnosticView) -> bool)
    requires
        some_finding(
            blank_field_diags(
                config.policy,
                config.config_path,
                "config_path"@,
                "config_path must not be empty"@,
            ),
            pred,
        ) || some_finding(
            blank_field_diags(
                config.policy,
                config.config_yaml,
                "config_yaml"@,
                "config_yaml must not be empty"@,
            ),
            pred,
        ) || some_finding(remote_blank_diags(config.policy, config), pred),
    ensures
        some_finding(non_empty_diags(config.policy, config), pred),
{
    let p = config.policy;
    let a = blank_field_diags(p, config.config_path, "config_path"@, "config_path must not be empty"@);
    let b = blank_field_diags(p, config.config_yaml, "config_yaml"@, "config_yaml must not be empty"@);
    let c = blank_field_diags(
        p,
        config.colang_content,
        "colang_content"@,
        "colang_content must not be empty"@,
    );
    let r = remote_blank_diags(p, config);
    if some_finding(a, pred) || some_finding(b, pred) {
        lemma_some_concat(a, b, pred);
        lemma_some_concat(a + b, c, pred);
    }
    lemma_some_concat(a + b + c, r, pred);
    assert(non_empty_diags(p, config) == a + b + c + r);
}

/// In local mode, giving both or neither of `config_path` and `config_yaml`
/// is reported, whenever the policy reports unsupported values.
pub proof fn law_local_mode_needs_exactly_one_source(config: NeMoGuardrailsConfig, raw: Seq<ConfigField>)
    requires
        config.mode@ == "local"@,
        given(config.config_path) == given(config.config_yaml),
        config.policy.unsupported_value != UnsupportedBehavior::Ignore,
    ensures
        reports(
            config_diags(config, raw),
            "nemoguardrails.invalid_config_source"@,
            None,
            "exactly one of config_path or config_yaml is required in local mode"@,
        ),
{
    let good = |d: DiagnosticView|
        d.code == "nemoguardrails.invalid_config_source"@ && d.field == None::<Seq<char>>
            && d.message == "exactly one of config_path or config_yaml is required in local mode"@;
    let l = crate::validate::local_source_diags(config.policy, config);
    assert(good(l[0]));
    assert(some_finding(l, good));
    lemma_some_in_source(config, good);
    lemma_some_config_diags(config, raw, good);
    lemma_reports_from_some(
        config_diags(config, raw),
        "nemoguardrails.invalid_config_source"@,
        None,
        "exactly one of config_path or config_yaml is required in local mode"@,
    );
}

/// In local mode, exactly one of `config_path` and `config_yaml` is a
/// sufficient source: no finding says a source is missing.
pub proof fn law_local_mode_with_one_source_is_accepted(
    config: NeMoGuardrailsConfig,
    raw: Seq<ConfigField>,
)
    requires
        config.mode@ == "local"@,
        given(config.config_path) != given(config.config_yaml),
    ensures
        forall|i: int|
            0 <= i < config_diags(config, raw).len() ==> (#[trigger] config_diags(config, raw)[i]).code
                != "nemoguardrails.invalid_config_source"@,
{
    lemma_literals();
    let pred = |d: DiagnosticView| d.code != "nemoguardrails.invalid_config_source"@;
    assert("remote"@ != "local"@);
    assert(all_findings(config_source_diags(config.policy, config), pred));
    lemma_all_by_shapes(config, raw, pred);
}

/// Inline Colang content without inline YAML is reported, whenever the policy
/// reports unsupported values.
pub proof fn law_colang_without_yaml_is_reported(config: NeMoGuardrailsConfig, raw: Seq<ConfigField>)
    requires
        config.colang_content is Some,
        !given(config.config_yaml),
        config.policy.unsupported_value != UnsupportedBehavior::Ignore,
    ensures
        reports(
            config_diags(config, raw),
            "nemoguardrails.unsupported_value"@,
            Some("colang_content"@),
            "colang_content can only be used with config_yaml"@,
        ),
{
    let good = |d: DiagnosticView|
        d.code == "nemoguardrails.unsupported_value"@ && d.field == Some("colang_content"@)
            && d.message == "colang_content can only be used with config_yaml"@;
    let c = crate::validate::colang_source_diags(config.policy, config);
    assert(good(c[0]));
    assert(some_finding(c, good));
    lemma_some_in_source(config, good);
    lemma_some_config_diags(config, raw, good);
    lemma_reports_from_some(
        config_diags(config, raw),
        "nemoguardrails.unsupported_value"@,
        Some("colang_content"@),
        "colang_content can only be used with config_yaml"@,
    );
}

/// In remote mode, a non-blank `remote.config_id` together with a non-blank
/// entry of `remote.config_ids` is reported, whenever the policy reports
/// unsupported values.
pub proof fn law_conflicting_remote_ids_are_reported(config: NeMoGuardrailsConfig, raw: Seq<ConfigField>)
    requires
        config.mode@ == "remote"@,
        config.remote is Some,
        given(config.remote->0.config_id),
        exists|i: int|
            0 <= i < config.remote->0.config_ids@.len() && !is_blank_seq(
                #[trigger] config.remote->0.config_ids@[i]@,
            ),
        config.policy.unsupported_value != UnsupportedBehavior::Ignore,
    ensures
        reports(
            config_diags(config, raw),
            "nemoguardrails.unsupported_value"@,
            Some("remote"@),
            "remote.config_id and remote.config_ids cannot be used together"@,
        ),
{
    let p = config.policy;
    let good = |d: DiagnosticView|
        d.code == "nemoguardrails.unsupported_value"@ && d.field == Some("remote"@) && d.message
            == "remote.config_id and remote.config_ids cannot be used together"@;
    assert(crate::validate::remote_has_config_ids(config));
    let r1 = crate::validate::only_if(
        crate::validate::remote_has_config_id(config) && crate::validate::remote_has_config_ids(
            config,
        ),
        crate::validate::value_diag(
            p,
            code_unsupported_value(),
            Some("remote"@),
            "remote.config_id and remote.config_ids cannot be used together"@,
        ),
    );
    let r2 = crate::validate::only_if(
        !(crate::validate::has_content(config.config_path) || crate::validate::has_content(
            config.config_yaml,
        ) || crate::validate::remote_has_config_id(config)
            || crate::validate::remote_has_config_ids(config)),
        crate::validate::value_diag(
            p,
            code_invalid_source(),
            None,
            "remote mode requires config_path, config_yaml, remote.config_id, or remote.config_ids"@,
        ),
    );
    assert(good(r1[0]));
    assert(some_finding(r1, good));
    lemma_some_concat(r1, r2, good);
    assert(crate::validate::remote_source_diags(p, config) == r1 + r2);
    lemma_some_in_source(config, good);
    lemma_some_config_diags(config, raw, good);
    lemma_reports_from_some(
        config_diags(config, raw),
        "nemoguardrails.unsupported_value"@,
        Some("remote"@),
        "remote.config_id and remote.config_ids cannot be used together"@,
    );
}

/// In remote mode, naming no source of rails at all is reported, whenever
/// the policy reports unsupported values.
pub proof fn law_remote_mode_without_source_is_reported(
    config: NeMoGuardrailsConfig,
    raw: Seq<ConfigField>,
)
    requires
        config.mode@ == "remote"@,
        !given(config.config_path),
        !given(config.config_yaml),
        config.remote is Some ==> !given(config.remote->0.config_id) && forall|i: int|
            0 <= i < config.remote->0.config_ids@.len() ==> is_blank_seq(
                #[trigger] config.remote->0.config_ids@[i]@,
            ),
        config.policy.unsupported_value != UnsupportedBehavior::Ignore,
    ensures
        reports(
            config_diags(config, raw),
            "nemoguardrails.invalid_config_source"@,
            None,
            "remote mode requires config_path, config_yaml, remote.config_id, or remote.config_ids"@,
        ),
{
    let p = config.policy;
    let good = |d: DiagnosticView|
        d.code == "nemoguardrails.invalid_config_source"@ && d.field == None::<Seq<char>>
            && d.message
            == "remote mode requires config_path, config_yaml, remote.config_id, or remote.config_ids"@;
    assert(!crate::validate::remote_has_config_ids(config));
    let r1 = crate::validate::only_if(
        crate::validate::remote_has_config_id(config) && crate::validate::remote_has_config_ids(
            config,
        ),
        crate::validate::value_diag(
            p,
            code_unsupported_value(),
            Some("remote"@),
            "remote.config_id and remote.config_ids cannot be used together"@,
        ),
    );
    let r2 = crate::validate::only_if(
        !(crate::validate::has_content(config.config_path) || crate::validate::has_content(
            config.config_yaml,
        ) || crate::validate::remote_has_config_id(config)
            || crate::validate::remote_has_config_ids(config)),
        crate::validate::value_diag(
            p,
            code_invalid_source(),
            None,
            "remote mode requires config_path, config_yaml, remote.config_id, or remote.config_ids"@,
        ),
    );
    assert(good(r2[0]));
    assert(some_finding(r2, good));
    lemma_some_concat(r1, r2, good);
    assert(crate::validate::remote_source_diags(p, config) == r1 + r2);
    lemma_some_in_source(config, good);
    lemma_some_config_diags(config, raw, good);
    lemma_reports_from_some(
        config_diags(config, raw),
        "nemoguardrails.invalid_config_source"@,
        None,
        "remote mode requires config_path, config_yaml, remote.config_id, or remote.config_ids"@,
    );
}

/// A blank `config_path` is reported, whenever the policy reports
/// unsupported values.
pub proof fn law_blank_config_path_is_reported(config: NeMoGuardrailsConfig, raw: Seq<ConfigField>)
    requires
        config.config_path is Some,
        is_blank_seq(config.config_path->0@),
        config.policy.unsupported_value != UnsupportedBehavior::Ignore,
    ensures
        reports(
            config_diags(config, raw),
            "nemoguardrails.unsupported_value"@,
            Some("config_path"@),
            "config_path must not be empty"@,
        ),
{
    let good = |d: DiagnosticView|
        d.code == "nemoguardrails.unsupported_value"@ && d.field == Some("config_path"@)
            && d.message == "config_path must not be empty"@;
    let a = blank_field_diags(
        config.policy,
        config.config_path,
        "config_path"@,
        "config_path must not be empty"@,
    );
    assert(good(a[0]));
    assert(some_finding(a, good));
    lemma_some_in_non_empty(config, good);
    lemma_some_config_diags(config, raw, good);
    lemma_reports_from_some(
        config_diags(config, raw),
        "nemoguardrails.unsupported_value"@,
        Some("config_path"@),
        "config_path must not be empty"@,
    );
}

/// A blank `config_yaml` is reported, whenever the policy reports
/// unsupported values.
pub proof fn law_blank_config_yaml_is_reported(config: NeMoGuardrailsConfig, raw: Seq<ConfigField>)
    requires
        config.config_yaml is Some,
        is_blank_seq(config.config_yaml->0@),
        config.policy.unsupported_value != UnsupportedBehavior::Ignore,
    ensures
        reports(
            config_diags(config, raw),
            "nemoguardrails.unsupported_value"@,
            Some("config_yaml"@),
            "config_yaml must not be empty"@,
        ),
{
    let good = |d: DiagnosticView|
        d.code == "nemoguardrails.unsupported_value"@ && d.field == Some("config_yaml"@)
            && d.message == "config_yaml must not be empty"@;
    let b = blank_field_diags(
        config.policy,
        config.config_yaml,
        "config_yaml"@,
        "config_yaml must not be empty"@,
    );
    assert(good(b[0]));
    assert(some_finding(b, good));
    lemma_some_in_non_empty(config, good);
    lemma_some_config_diags(config, raw, good);
    lemma_reports_from_some(
        config_diags(config, raw),
        "nemoguardrails.unsupported_value"@,
        Some("config_yaml"@),
        "config_yaml must not be empty"@,
    );
}

/// In remote mode, a missing or blank endpoint is reported, whenever the
/// policy reports unsupported values.
pub proof fn law_missing_endpoint_is_reported(config: NeMoGuardrailsConfig, raw: Seq<ConfigField>)
    requires
        config.mode@ == "remote"@,
        !(config.remote is Some && given(config.remote->0.endpoint)),
        config.policy.unsupported_value != UnsupportedBehavior::Ignore,
    ensures
        reports(
            config_diags(config, raw),
            "nemoguardrails.unsupported_value"@,
            Some("remote.endpoint"@),
            "remote.endpoint is required when mode is 'remote'"@,
        ),
{
    let p = config.policy;
    let good = |d: DiagnosticView|
        d.code == "nemoguardrails.unsupported_value"@ && d.field == Some("remote.endpoint"@)
            && d.message == "remote.endpoint is required when mode is 'remote'"@;
    let e = crate::validate::only_if(
        !(config.remote is Some && crate::validate::has_content(config.remote->0.endpoint)),
        crate::validate::value_diag(
            p,
            code_unsupported_value(),
            Some("remote.endpoint"@),
            "remote.endpoint is required when mode is 'remote'"@,
        ),
    );
    let f = crate::validate::only_if(
        config.remote is Some,
        blank_field_diags(
            p,
            config.remote->0.config_id,
            "remote.config_id"@,
            "remote.config_id must not be empty"@,
        ) + blank_ids_diags(p, config.remote->0.config_ids@, config.remote->0.config_ids@.len()),
    );
    assert(good(e[0]));
    assert(some_finding(e, good));
    lemma_some_concat(e, f, good);
    assert(remote_blank_diags(p, config) == e + f);
    lemma_some_in_non_empty(config, good);
    lemma_some_config_diags(config, raw, good);
    lemma_reports_from_some(
        config_diags(config, raw),
        "nemoguardrails.unsupported_value"@,
        Some("remote.endpoint"@),
        "remote.endpoint is required when mode is 'remote'"@,
    );
}

/// A non-blank endpoint, or any mode but remote, satisfies the endpoint rule:
/// no unsupported-value finding is about `remote.endpoint`.
pub proof fn law_endpoint_rule_only_applies_to_remote_mode(
    config: NeMoGuardrailsConfig,
    raw: Seq<ConfigField>,
)
    requires
        config.mode@ != "remote"@ || (config.remote is Some && given(config.remote->0.endpoint)),
    ensures
        forall|i: int|
            0 <= i < config_diags(config, raw).len() ==> !((#[trigger] config_diags(config, raw)[i]).code
                == "nemoguardrails.unsupported_value"@ && config_diags(config, raw)[i].field == Some(
                "remote.endpoint"@,
            )),
{
    lemma_literals();
    let p = config.policy;
    let pred = |d: DiagnosticView|
        !(d.code == "nemoguardrails.unsupported_value"@ && d.field == Some("remote.endpoint"@));
    let a = blank_field_diags(p, config.config_path, "config_path"@, "config_path must not be empty"@);
    let b = blank_field_diags(p, config.config_yaml, "config_yaml"@, "config_yaml must not be empty"@);
    let c = blank_field_diags(
        p,
        config.colang_content,
        "colang_content"@,
        "colang_content must not be empty"@,
    );
    let r = remote_blank_diags(p, config);
    assert(all_findings(a, pred));
    assert(all_findings(b, pred));
    assert(all_findings(c, pred));
    if config.mode@ == "remote"@ {
        let e = crate::validate::only_if(
            !(config.remote is Some && crate::validate::has_content(config.remote->0.endpoint)),
            crate::validate::value_diag(
                p,
                code_unsupported_value(),
                Some("remote.endpoint"@),
                "remote.endpoint is required when mode is 'remote'"@,
            ),
        );
        let rem = config.remote->0;
        let f1 = blank_field_diags(p, rem.config_id, "remote.config_id"@, "remote.config_id must not be empty"@);
        let f2 = blank_ids_diags(p, rem.config_ids@, rem.config_ids@.len());
        assert(e.len() == 0);
        assert(all_findings(f1, pred));
        lemma_blank_ids_shape(config, rem.config_ids@, rem.config_ids@.len());
        lemma_all_weaken(
            f2,
            |d: DiagnosticView|
                d.code == code_unsupported_value() && d.field is Some && d.field->0.len() >= 20,
            pred,
        );
        lemma_all_concat(f1, f2, pred);
        assert(r == e + (f1 + f2));
        lemma_all_concat(e, f1 + f2, pred);
    }
    assert(all_findings(r, pred));
    lemma_all_concat(a, b, pred);
    lemma_all_concat(a + b, c, pred);
    lemma_all_concat(a + b + c, r, pred);
    assert(non_empty_diags(p, config) == a + b + c + r);
    lemma_all_by_shapes(config, raw, pred);
}


proof fn lemma_blank_ids_some(config: NeMoGuardrailsConfig, ids: Seq<String>, n: nat, k: nat)
    requires
        k < n <= ids.len(),
        is_blank_seq(ids[k as int]@),
        config.policy.unsupported_value != UnsupportedBehavior::Ignore,
    ensures
        some_finding(
            blank_ids_diags(config.policy, ids, n),
            |d: DiagnosticView|
                d.code == "nemoguardrails.unsupported_value"@ && d.field == Some(
                    "remote.config_ids["@ + decimal(k) + "]"@,
                ) && d.message == "remote.config_ids entries must not be empty"@,
        ),
    decreases n,
{
    let good = |d: DiagnosticView|
        d.code == "nemoguardrails.unsupported_value"@ && d.field == Some(
            "remote.config_ids["@ + decimal(k) + "]"@,
        ) && d.message == "remote.config_ids entries must not be empty"@;
    let i = (n - 1) as nat;
    let rest = blank_ids_diags(config.policy, ids, i);
    let whole = blank_ids_diags(config.policy, ids, n);
    let last = whole.subrange(rest.len() as int, whole.len() as int);
    assert(whole =~= rest + last);
    if k == i {
        assert(good(last[0]));
        assert(some_finding(last, good));
    } else {
        lemma_blank_ids_some(config, ids, i, k);
    }
    lemma_some_concat(rest, last, good);
}

/// In remote mode, a blank `remote.config_id` is reported, whenever the
/// policy reports unsupported values.
pub proof fn law_blank_remote_config_id_is_reported(config: NeMoGuardrailsConfig, raw: Seq<ConfigField>)
    requires
        config.mode@ == "remote"@,
        config.remote is Some,
        config.remote->0.config_id is Some,
        is_blank_seq(config.remote->0.config_id->0@),
        config.policy.unsupported_value != UnsupportedBehavior::Ignore,
    ensures
        reports(
            config_diags(config, raw),
            "nemoguardrails.unsupported_value"@,
            Some("remote.config_id"@),
            "remote.config_id must not be empty"@,
        ),
{
    let p = config.policy;
    let rem = config.remote->0;
    let good = |d: DiagnosticView|
        d.code == "nemoguardrails.unsupported_value"@ && d.field == Some("remote.config_id"@)
            && d.message == "remote.config_id must not be empty"@;
    let e = crate::validate::only_if(
        !(config.remote is Some && crate::validate::has_content(rem.endpoint)),
        crate::validate::value_diag(
            p,
            code_unsupported_value(),
            Some("remote.endpoint"@),
            "remote.endpoint is required when mode is 'remote'"@,
        ),
    );
    let f1 = blank_field_diags(p, rem.config_id, "remote.config_id"@, "remote.config_id must not be empty"@);
    let f2 = blank_ids_diags(p, rem.config_ids@, rem.config_ids@.len());
    assert(good(f1[0]));
    assert(some_finding(f1, good));
    lemma_some_concat(f1, f2, good);
    lemma_some_concat(e, f1 + f2, good);
    assert(remote_blank_diags(p, config) == e + (f1 + f2));
    lemma_some_in_non_empty(config, good);
    lemma_some_config_diags(config, raw, good);
    lemma_reports_from_some(
        config_diags(config, raw),
        "nemoguardrails.unsupported_value"@,
        Some("remote.config_id"@),
        "remote.config_id must not be empty"@,
    );
}

/// In remote mode, each blank entry of `remote.config_ids` is reported under
/// its index, whenever the policy reports unsupported values.
pub proof fn law_blank_remote_config_ids_entry_is_reported(
    config: NeMoGuardrailsConfig,
    raw: Seq<ConfigField>,
    k: nat,
)
    requires
        config.mode@ == "remote"@,
        config.remote is Some,
        k < config.remote->0.config_ids@.len(),
        is_blank_seq(config.remote->0.config_ids@[k as int]@),
        config.policy.unsupported_value != UnsupportedBehavior::Ignore,
    ensures
        reports(
            config_diags(config, raw),
            "nemoguardrails.unsupported_value"@,
            Some("remote.config_ids["@ + decimal(k) + "]"@),
            "remote.config_ids entries must not be empty"@,
        ),
{
    let p = config.policy;
    let rem = config.remote->0;
    let good = |d: DiagnosticView|
        d.code == "nemoguardrails.unsupported_value"@ && d.field == Some(
            "remote.config_ids["@ + decimal(k) + "]"@,
        ) && d.message == "remote.config_ids entries must not be empty"@;
    let e = crate::validate::only_if(
        !(config.remote is Some && crate::validate::has_content(rem.endpoint)),
        crate::validate::value_diag(
            p,
            code_unsupported_value(),
            Some("remote.endpoint"@),
            "remote.endpoint is required when mode is 'remote'"@,
        ),
    );
    let f1 = blank_field_diags(p, rem.config_id, "remote.config_id"@, "remote.config_id must not be empty"@);
    let f2 = blank_ids_diags(p, rem.config_ids@, rem.config_ids@.len());
    lemma_blank_ids_some(config, rem.config_ids@, rem.config_ids@.len(), k);
    lemma_some_concat(f1, f2, good);
    lemma_some_concat(e, f1 + f2, good);
    assert(remote_blank_diags(p, config) == e + (f1 + f2));
    lemma_some_in_non_empty(config, good);
    lemma_some_config_diags(config, raw, good);
    lemma_reports_from_some(
        config_diags(config, raw),
        "nemoguardrails.unsupported_value"@,
        Some("remote.config_ids["@ + decimal(k) + "]"@),
        "remote.config_ids entries must not be empty"@,
    );
}

proof fn lemma_unknown_some(
    behavior: UnsupportedBehavior,
    component: Option<Seq<char>>,
    keys: Seq<Seq<char>>,
    known: Seq<Seq<char>>,
    k: int,
)
    requires
        0 <= k < keys.len(),
        !known.contains(keys[k]),
        behavior != UnsupportedBehavior::Ignore,
    ensures
        some_finding(
            unknown_field_diags(behavior, component, keys, known),
            |d: DiagnosticView|
                d.code == code_unknown_field() && d.component == component && d.field == Some(
                    keys[k],
                ) && d.message == crate::validate::unknown_field_message(keys[k], component),
        ),
    decreases keys.len(),
{
    let good = |d: DiagnosticView|
        d.code == code_unknown_field() && d.component == component && d.field == Some(keys[k])
            && d.message == crate::validate::unknown_field_message(keys[k], component);
    let rest = unknown_field_diags(behavior, component, keys.drop_last(), known);
    let whole = unknown_field_diags(behavior, component, keys, known);
    let last = whole.subrange(rest.len() as int, whole.len() as int);
    assert(whole =~= rest + last);
    if k == keys.len() - 1 {
        assert(good(last[0]));
        assert(some_finding(last, good));
    } else {
        assert(keys.drop_last()[k] == keys[k]);
        lemma_unknown_some(behavior, component, keys.drop_last(), known, k);
    }
    lemma_some_concat(rest, last, good);
}

/// The names that the top level of the document defines.
pub open spec fn is_document_field(s: Seq<char>) -> bool {
    s == "version"@ || s == "mode"@ || s == "config_path"@ || s == "config_yaml"@ || s
        == "colang_content"@ || s == "codec"@ || s == "input"@ || s == "output"@ || s
        == "tool_input"@ || s == "tool_output"@ || s == "streaming"@ || s == "priority"@ || s
        == "remote"@ || s == "local"@ || s == "policy"@
}

proof fn lemma_top_level_fields_are_document_fields(s: Seq<char>)
    ensures
        top_level_fields().contains(s) <==> is_document_field(s),
{
    let t = top_level_fields();
    if t.contains(s) {
        let i = choose|i: int| 0 <= i < t.len() && t[i] == s;
        assert(is_document_field(t[i]));
    }
    if is_document_field(s) {
        if s == "version"@ { assert(t[0] == s); }
        else if s == "mode"@ { assert(t[1] == s); }
        else if s == "config_path"@ { assert(t[2] == s); }
        else if s == "config_yaml"@ { assert(t[3] == s); }
        else if s == "colang_content"@ { assert(t[4] == s); }
        else if s == "codec"@ { assert(t[5] == s); }
        else if s == "input"@ { assert(t[6] == s); }
        else if s == "output"@ { assert(t[7] == s); }
        else if s == "tool_input"@ { assert(t[8] == s); }
        else if s == "tool_output"@ { assert(t[9] == s); }
        else if s == "streaming"@ { assert(t[10] == s); }
        else if s == "priority"@ { assert(t[11] == s); }
        else if s == "remote"@ { assert(t[12] == s); }
        else if s == "local"@ { assert(t[13] == s); }
        else { assert(t[14] == s); }
    }
}

/// A top-level key that the document does not define is reported as an
/// unknown field of the component, whenever the policy reports unknown
/// fields.
pub proof fn law_unknown_top_level_field_is_reported(
    config: NeMoGuardrailsConfig,
    raw: Seq<ConfigField>,
    k: int,
)
    requires
        0 <= k < raw.len(),
        !is_document_field(raw[k].name@),
        config.policy.unknown_field != UnsupportedBehavior::Ignore,
    ensures
        exists|i: int|
            0 <= i < config_diags(config, raw).len() && (#[trigger] config_diags(config, raw)[i]).code
                == "nemoguardrails.unknown_field"@ && config_diags(config, raw)[i].component == Some(
                "nemoguardrails"@,
            ) && config_diags(config, raw)[i].field == Some(raw[k].name@)
                && config_diags(config, raw)[i].message == "field '"@ + raw[k].name@
                + "' is not recognized for 'nemoguardrails'"@,
{
    lemma_literals();
    reveal_strlit("' is not recognized for 'nemoguardrails'");
    reveal_strlit("' is not recognized for '");
    reveal_strlit("'");
    let keys = crate::config::object_keys(raw);
    assert(keys[k] == raw[k].name@);
    lemma_top_level_fields_are_document_fields(keys[k]);
    let name = raw[k].name@;
    assert(kind_component() == Some("nemoguardrails"@));
    reveal_strlit("nemoguardrails");
    let tail = "' is not recognized for 'nemoguardrails'"@;
    assert(tail =~= "' is not recognized for '"@ + "nemoguardrails"@ + "'"@);
    assert("field '"@ + name + "' is not recognized for '"@ + "nemoguardrails"@ + "'"@ =~= "field '"@
        + name + ("' is not recognized for '"@ + "nemoguardrails"@ + "'"@));
    let good = |d: DiagnosticView|
        d.code == code_unknown_field() && d.component == kind_component() && d.field == Some(
            keys[k],
        ) && d.message == crate::validate::unknown_field_message(keys[k], kind_component());
    lemma_unknown_some(config.policy.unknown_field, kind_component(), keys, top_level_fields(), k);
    lemma_some_config_diags(config, raw, good);
    let i = choose|i: int| 0 <= i < config_diags(config, raw).len() && good(#[trigger] config_diags(config, raw)[i]);
    assert(good(config_diags(config, raw)[i]));
}

/// A document whose top-level keys are all fields it defines gives no
/// unknown-field finding about the component.
pub proof fn law_document_fields_are_known(config: NeMoGuardrailsConfig, raw: Seq<ConfigField>)
    requires
        forall|k: int| 0 <= k < raw.len() ==> is_document_field(#[trigger] raw[k].name@),
    ensures
        forall|i: int|
            0 <= i < config_diags(config, raw).len() ==> !((#[trigger] config_diags(config, raw)[i]).code
                == "nemoguardrails.unknown_field"@ && config_diags(config, raw)[i].component == Some(
                "nemoguardrails"@,
            )),
{
    lemma_literals();
    let keys = crate::config::object_keys(raw);
    assert forall|k: int| 0 <= k < keys.len() implies top_level_fields().contains(#[trigger] keys[k]) by {
        assert(keys[k] == raw[k].name@);
        lemma_top_level_fields_are_document_fields(keys[k]);
    }
    lemma_unknown_all_known(config.policy.unknown_field, kind_component(), keys, top_level_fields());
    let pred = |d: DiagnosticView|
        !(d.code == "nemoguardrails.unknown_field"@ && d.component == Some("nemoguardrails"@));
    assert(all_findings(
        unknown_field_diags(config.policy.unknown_field, kind_component(), keys, top_level_fields()),
        pred,
    ));
    assert("policy"@ != "nemoguardrails"@);
    assert("remote"@ != "nemoguardrails"@);
    assert("local"@ != "nemoguardrails"@);
    lemma_all_by_shapes(config, raw, pred);
}


proof fn lemma_section_keys_first(raw: Seq<ConfigField>, section: Seq<char>, j: int)
    requires
        0 <= j < raw.len(),
        raw[j].name@ == section,
        forall|m: int| 0 <= m < j ==> (#[trigger] raw[m]).name@ != section,
    ensures
        crate::config::section_keys(raw, section) == crate::config::keys_view(raw[j].object_keys),
    decreases raw.len(),
{
    if j > 0 {
        assert(raw[0].name@ != section);
        assert forall|m: int| 0 <= m < j - 1 implies (#[trigger] raw.drop_first()[m]).name@
            != section by {
            assert(raw.drop_first()[m] == raw[m + 1]);
        }
        assert(raw.drop_first()[j - 1] == raw[j]);
        lemma_section_keys_found(raw, section);
        lemma_section_keys_first(raw.drop_first(), section, j - 1);
    }
}

/// The fields of each section, as the document defines them.
pub open spec fn is_section_field(section: Seq<char>, s: Seq<char>) -> bool {
    if section == "remote"@ {
        s == "endpoint"@ || s == "config_id"@ || s == "config_ids"@ || s == "headers"@ || s
            == "timeout_millis"@
    } else if section == "local"@ {
        s == "python_module"@
    } else {
        s == "unknown_component"@ || s == "unknown_field"@ || s == "unsupported_value"@
    }
}

/// The known-field list the validator uses for a section.
spec fn section_known(section: Seq<char>) -> Seq<Seq<char>> {
    if section == "remote"@ {
        remote_fields()
    } else if section == "local"@ {
        local_fields()
    } else {
        policy_fields()
    }
}

proof fn lemma_section_known_members(section: Seq<char>, s: Seq<char>)
    requires
        section == "remote"@ || section == "local"@ || section == "policy"@,
    ensures
        section_known(section).contains(s) <==> is_section_field(section, s),
{
    lemma_literals();
    assert("remote"@ != "local"@);
    assert("remote"@ != "policy"@);
    reveal_strlit("policy");
    reveal_strlit("local");
    assert("local"@ != "policy"@);
    let t = section_known(section);
    if t.contains(s) {
        let i = choose|i: int| 0 <= i < t.len() && t[i] == s;
        assert(is_section_field(section, t[i]));
    }
    if is_section_field(section, s) {
        if section == "remote"@ {
            if s == "endpoint"@ { assert(t[0] == s); }
            else if s == "config_id"@ { assert(t[1] == s); }
            else if s == "config_ids"@ { assert(t[2] == s); }
            else if s == "headers"@ { assert(t[3] == s); }
            else { assert(t[4] == s); }
        } else if section == "local"@ {
            assert(t[0] == s);
        } else {
            if s == "unknown_component"@ { assert(t[0] == s); }
            else if s == "unknown_field"@ { assert(t[1] == s); }
            else { assert(t[2] == s); }
        }
    }
}

/// A key of the `policy`, `remote` or `local` section that the section does
/// not define is reported as an unknown field of that section, whenever the
/// policy reports unknown fields. The section is the first member with its
/// name, and its value is an object.
pub proof fn law_unknown_section_field_is_reported(
    config: NeMoGuardrailsConfig,
    raw: Seq<ConfigField>,
    section: Seq<char>,
    j: int,
    k: int,
)
    requires
        section == "remote"@ || section == "local"@ || section == "policy"@,
        0 <= j < raw.len(),
        raw[j].name@ == section,
        forall|m: int| 0 <= m < j ==> (#[trigger] raw[m]).name@ != section,
        raw[j].object_keys is Some,
        0 <= k < raw[j].object_keys->0@.len(),
        !is_section_field(section, raw[j].object_keys->0@[k]@),
        config.policy.unknown_field != UnsupportedBehavior::Ignore,
    ensures
        exists|i: int|
            0 <= i < config_diags(config, raw).len() && (#[trigger] config_diags(config, raw)[i]).code
                == "nemoguardrails.unknown_field"@ && config_diags(config, raw)[i].component == Some(
                section,
            ) && config_diags(config, raw)[i].field == Some(raw[j].object_keys->0@[k]@),
{
    lemma_literals();
    lemma_section_keys_first(raw, section, j);
    let keys = strings_view_of(raw[j].object_keys->0@);
    assert(crate::config::section_keys(raw, section) == Some(keys));
    assert(keys[k] == raw[j].object_keys->0@[k]@);
    lemma_section_known_members(section, keys[k]);
    let known = section_known(section);
    lemma_unknown_some(config.policy.unknown_field, Some(section), keys, known, k);
    let good = |d: DiagnosticView|
        d.code == code_unknown_field() && d.component == Some(section) && d.field == Some(keys[k])
            && d.message == crate::validate::unknown_field_message(keys[k], Some(section));
    assert(some_finding(section_field_diags(config.policy, raw, section, known), good));
    reveal_strlit("local");
    reveal_strlit("policy");
    assert("remote"@ != "local"@);
    assert("remote"@ != "policy"@);
    assert("local"@ != "policy"@);
    lemma_some_config_diags(config, raw, good);
    let i = choose|i: int| 0 <= i < config_diags(config, raw).len() && good(#[trigger] config_diags(config, raw)[i]);
    assert(good(config_diags(config, raw)[i]));
}

spec fn strings_view_of(v: Seq<String>) -> Seq<Seq<char>> {
    crate::config::strings_view(v)
}

/// A `policy` or `local` section whose keys are all fields it defines gives no
/// unknown-field finding about that section.
pub proof fn law_policy_and_local_fields_are_known(
    config: NeMoGuardrailsConfig,
    raw: Seq<ConfigField>,
    section: Seq<char>,
)
    requires
        section == "local"@ || section == "policy"@,
        forall|j: int, k: int|
            0 <= j < raw.len() && (#[trigger] raw[j]).name@ == section && raw[j].object_keys is Some
                && 0 <= k < raw[j].object_keys->0@.len() ==> is_section_field(
                section,
                (#[trigger] raw[j].object_keys->0@[k])@,
            ),
    ensures
        forall|i: int|
            0 <= i < config_diags(config, raw).len() ==> !((#[trigger] config_diags(config, raw)[i]).code
                == "nemoguardrails.unknown_field"@ && config_diags(config, raw)[i].component == Some(
                section,
            )),
{
    lemma_literals();
    reveal_strlit("local");
    reveal_strlit("policy");
    assert("local"@ != "policy"@);
    assert("remote"@ != "local"@);
    assert("remote"@ != "policy"@);
    let pred = |d: DiagnosticView|
        !(d.code == "nemoguardrails.unknown_field"@ && d.component == Some(section));
    let known = section_known(section);
    lemma_section_keys_found(raw, section);
    match crate::config::section_keys(raw, section) {
        Some(keys) => {
            let j = choose|j: int|
                0 <= j < raw.len() && (#[trigger] raw[j]).name@ == section
                    && crate::config::keys_view(raw[j].object_keys) == Some(keys);
            assert forall|k: int| 0 <= k < keys.len() implies known.contains(#[trigger] keys[k]) by {
                assert(keys[k] == raw[j].object_keys->0@[k]@);
                lemma_section_known_members(section, keys[k]);
            }
            lemma_unknown_all_known(config.policy.unknown_field, Some(section), keys, known);
        },
        None => {},
    }
    assert(section_field_diags(config.policy, raw, section, known).len() == 0);
    assert(all_findings(section_field_diags(config.policy, raw, section, known), pred));
    lemma_all_by_shapes(config, raw, pred);
}


/// A document that could not be read gives exactly one finding: an error of
/// the component, tied to no field, with code
/// `nemoguardrails.invalid_plugin_config` and the reading error's text.
pub proof fn law_unreadable_document_gives_one_error(
    e: crate::plugin::PluginError,
    raw: Seq<ConfigField>,
)
    ensures
        crate::validate::plugin_config_diags(Err(e), raw).len() == 1,
        crate::validate::plugin_config_diags(Err(e), raw)[0].code
            == "nemoguardrails.invalid_plugin_config"@,
        crate::validate::plugin_config_diags(Err(e), raw)[0].level
            == crate::plugin::DiagnosticLevel::Error,
        crate::validate::plugin_config_diags(Err(e), raw)[0].component == Some("nemoguardrails"@),
        crate::validate::plugin_config_diags(Err(e), raw)[0].field is None,
        crate::validate::plugin_config_diags(Err(e), raw)[0].message == match e {
            crate::plugin::PluginError::RegistrationFailed(m) => m@,
            crate::plugin::PluginError::InvalidConfig(m) => m@,
        },
{
}

/// The level of every finding on a readable configuration: unknown fields
/// are warnings under `Warn` and errors under `Error`; every other finding
/// likewise under `unsupported_value`; nothing is reported under `Ignore`.
pub proof fn law_levels_match_policy(config: NeMoGuardrailsConfig, raw: Seq<ConfigField>)
    ensures
        forall|i: int|
            0 <= i < config_diags(config, raw).len() ==> {
                let d = #[trigger] config_diags(config, raw)[i];
                let behavior = if d.code == "nemoguardrails.unknown_field"@ {
                    config.policy.unknown_field
                } else {
                    config.policy.unsupported_value
                };
                &&& behavior != UnsupportedBehavior::Ignore
                &&& behavior == UnsupportedBehavior::Warn ==> d.level
                    == crate::plugin::DiagnosticLevel::Warning
                &&& behavior == UnsupportedBehavior::Error ==> d.level
                    == crate::plugin::DiagnosticLevel::Error
            },
{
    lemma_literals();
    crate::laws::law_findings_follow_policy(config, raw);
    let d = config_diags(config, raw);
    assert forall|i: int| 0 <= i < d.len() implies {
        let x = #[trigger] d[i];
        let behavior = if x.code == "nemoguardrails.unknown_field"@ {
            config.policy.unknown_field
        } else {
            config.policy.unsupported_value
        };
        &&& behavior != UnsupportedBehavior::Ignore
        &&& behavior == UnsupportedBehavior::Warn ==> x.level
            == crate::plugin::DiagnosticLevel::Warning
        &&& behavior == UnsupportedBehavior::Error ==> x.level
            == crate::plugin::DiagnosticLevel::Error
    } by {
        assert(Some(d[i].level) == crate::plugin::behavior_level(
            crate::laws::prescribed_behavior(config.policy, d[i].code),
        ));
    }
}

} // verus!
