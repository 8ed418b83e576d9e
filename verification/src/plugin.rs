//! The plugin host's vocabulary that the component speaks: the policy for
//! unsupported configuration, configuration diagnostics, plugin errors, and a
//! registry of plugin kinds.
use vstd::prelude::*;
use vstd::string::*;

use crate::text::str_eq;

verus! {

/// What to do when a configuration holds something unknown or unsupported.
#[derive(Clone, Copy, Debug, PartialEq, Eq, Structural)]
pub enum UnsupportedBehavior {
    /// Say nothing.
    Ignore,
    /// Report a warning.
    Warn,
    /// Report an error.
    Error,
}

/// Component-local policy for configuration that is not understood.
#[derive(Clone, Copy, Debug, PartialEq, Eq, Structural)]
pub struct ConfigPolicy {
    /// Behavior for an unknown component kind.
    pub unknown_component: UnsupportedBehavior,
    /// Behavior for an unknown field.
    pub unknown_field: UnsupportedBehavior,
    /// Behavior for a known field with an unsupported value.
    pub unsupported_value: UnsupportedBehavior,
}

/// The policy used when a configuration states none: unknown components and
/// fields give warnings, unsupported values give errors.
pub open spec fn default_policy() -> ConfigPolicy {
    ConfigPolicy {
        unknown_component: UnsupportedBehavior::Warn,
        unknown_field: UnsupportedBehavior::Warn,
        unsupported_value: UnsupportedBehavior::Error,
    }
}

impl Default for ConfigPolicy {
    fn default() -> (p: Self)
        ensures
            p == default_policy(),
    {
        ConfigPolicy {
            unknown_component: UnsupportedBehavior::Warn,
            unknown_field: UnsupportedBehavior::Warn,
            unsupported_value: UnsupportedBehavior::Error,
        }
    }
}

/// Severity of a configuration diagnostic.
#[derive(Clone, Copy, Debug, PartialEq, Eq, Structural)]
pub enum DiagnosticLevel {
    /// The configuration is accepted but something in it is questionable.
    Warning,
    /// The configuration is rejected.
    Error,
}

/// One finding of configuration validation.
#[derive(Clone, Debug)]
pub struct ConfigDiagnostic {
    /// Severity.
    pub level: DiagnosticLevel,
    /// Stable machine-readable code.
    pub code: String,
    /// The component or section the finding is about.
    pub component: Option<String>,
    /// The field the finding is about.
    pub field: Option<String>,
    /// Human-readable explanation.
    pub message: String,
}

/// A diagnostic with its strings taken as character sequences.
pub struct DiagnosticView {
    pub level: DiagnosticLevel,
    pub code: Seq<char>,
    pub component: Option<Seq<char>>,
    pub field: Option<Seq<char>>,
    pub message: Seq<char>,
}

/// The characters of an optional string.
pub open spec fn opt_view(s: Option<String>) -> Option<Seq<char>> {
    match s {
        Some(v) => Some(v@),
        None => None,
    }
}

impl View for ConfigDiagnostic {
    type V = DiagnosticView;

    open spec fn view(&self) -> DiagnosticView {
        DiagnosticView {
            level: self.level,
            code: self.code@,
            component: opt_view(self.component),
            field: opt_view(self.field),
            message: self.message@,
        }
    }
}

/// The views of a sequence of diagnostics.
pub open spec fn diags_view(v: Seq<ConfigDiagnostic>) -> Seq<DiagnosticView> {
    v.map_values(|d: ConfigDiagnostic| d@)
}

/// The level a behavior reports at, if it reports at all.
pub open spec fn behavior_level(behavior: UnsupportedBehavior) -> Option<DiagnosticLevel> {
    match behavior {
        UnsupportedBehavior::Ignore => None,
        UnsupportedBehavior::Warn => Some(DiagnosticLevel::Warning),
        UnsupportedBehavior::Error => Some(DiagnosticLevel::Error),
    }
}

/// The diagnostics that one finding produces under `behavior`: none when the
/// behavior is to ignore it, else one at the behavior's level.
pub open spec fn policy_diag(
    behavior: UnsupportedBehavior,
    code: Seq<char>,
    component: Option<Seq<char>>,
    field: Option<Seq<char>>,
    message: Seq<char>,
) -> Seq<DiagnosticView> {
    match behavior_level(behavior) {
        None => Seq::empty(),
        Some(level) => seq![
            DiagnosticView { level, code, component, field, message },
        ],
    }
}

/// Whether some diagnostic is an error.
pub open spec fn has_error_level(diags: Seq<DiagnosticView>) -> bool {
    exists|i: int| 0 <= i < diags.len() && #[trigger] diags[i].level == DiagnosticLevel::Error
}

/// Appends the diagnostic for one finding, at the level `behavior` asks for,
/// or nothing when the behavior is to ignore it.
pub fn push_policy_diag(
    diagnostics: &mut Vec<ConfigDiagnostic>,
    behavior: UnsupportedBehavior,
    code: &str,
    component: Option<String>,
    field: Option<String>,
    message: String,
)
    ensures
        diags_view(final(diagnostics)@) == diags_view(old(diagnostics)@) + policy_diag(
            behavior,
            code@,
            opt_view(component),
            opt_view(field),
            message@,
        ),
{
    let level = match behavior {
        UnsupportedBehavior::Ignore => {
            assert(diags_view(diagnostics@) =~= diags_view(old(diagnostics)@) + Seq::empty());
            return ;
        },
        UnsupportedBehavior::Warn => DiagnosticLevel::Warning,
        UnsupportedBehavior::Error => DiagnosticLevel::Error,
    };
    let d = ConfigDiagnostic { level, code: code.to_owned(), component, field, message };
    diagnostics.push(d);
    assert(diags_view(diagnostics@) =~= diags_view(old(diagnostics)@) + seq![d@]);
}

/// The outcome of validating a plugin configuration.
pub struct ValidationReport {
    /// Every finding, in the order the checks ran.
    pub diagnostics: Vec<ConfigDiagnostic>,
}

impl ValidationReport {
    /// Whether some finding is an error.
    pub fn has_errors(&self) -> (b: bool)
        ensures
            b == has_error_level(diags_view(self.diagnostics@)),
    {
        let n = self.diagnostics.len();
        let mut i: usize = 0;
        while i < n
            invariant
                n == self.diagnostics@.len(),
                i <= n,
                forall|j: int|
                    0 <= j < i ==> #[trigger] diags_view(self.diagnostics@)[j].level
                        != DiagnosticLevel::Error,
            decreases n - i,
        {
            match self.diagnostics[i].level {
                DiagnosticLevel::Error => {
                    assert(diags_view(self.diagnostics@)[i as int].level == DiagnosticLevel::Error);
                    return true;
                },
                DiagnosticLevel::Warning => {},
            }
            i = i + 1;
        }
        false
    }
}

/// Errors of plugin registration and configuration.
#[derive(Clone, Debug)]
pub enum PluginError {
    /// A plugin could not be registered or initialized.
    RegistrationFailed(String),
    /// A plugin configuration could not be read.
    InvalidConfig(String),
}

impl PluginError {
    /// The text that explains the error.
    pub fn description(&self) -> (s: String)
        ensures
            s@ == match self {
                PluginError::RegistrationFailed(m) => m@,
                PluginError::InvalidConfig(m) => m@,
            },
    {
        match self {
            PluginError::RegistrationFailed(m) => m.clone(),
            PluginError::InvalidConfig(m) => m.clone(),
        }
    }
}

/// What the registry knows of a plugin kind.
#[derive(Debug)]
pub struct PluginDescriptor {
    /// The component kind the plugin serves.
    pub kind: String,
    /// Whether a configuration may hold more than one component of this kind.
    pub allows_multiple_components: bool,
}

/// The message of a registration refused because the kind is taken.
pub open spec fn already_registered_message(kind: Seq<char>) -> Seq<char> {
    "plugin kind '"@ + kind + "' is already registered"@
}

/// Kinds of a sequence of descriptors are pairwise different.
pub open spec fn distinct_kinds(s: Seq<PluginDescriptor>) -> bool {
    forall|i: int, j: int|
        0 <= i < j < s.len() ==> (#[trigger] s[i]).kind@ != (#[trigger] s[j]).kind@
}

/// The map from kind to "allows multiple components" that descriptors hold.
pub open spec fn descriptors_map(s: Seq<PluginDescriptor>) -> Map<Seq<char>, bool>
    decreases s.len(),
{
    if s.len() == 0 {
        Map::empty()
    } else {
        descriptors_map(s.drop_last()).insert(s.last().kind@, s.last().allows_multiple_components)
    }
}

proof fn lemma_descriptors_map_dom(s: Seq<PluginDescriptor>, k: Seq<char>)
    ensures
        descriptors_map(s).contains_key(k) <==> exists|i: int|
            0 <= i < s.len() && (#[trigger] s[i]).kind@ == k,
    decreases s.len(),
{
    if s.len() > 0 {
        let t = s.drop_last();
        lemma_descriptors_map_dom(t, k);
        if descriptors_map(t).contains_key(k) {
            let i = choose|i: int| 0 <= i < t.len() && (#[trigger] t[i]).kind@ == k;
            assert(s[i] == t[i]);
        }
        if exists|i: int| 0 <= i < s.len() && (#[trigger] s[i]).kind@ == k {
            let i = choose|i: int| 0 <= i < s.len() && (#[trigger] s[i]).kind@ == k;
            if i < s.len() - 1 {
                assert(t[i] == s[i]);
            }
        }
    }
}

proof fn lemma_descriptors_map_value(s: Seq<PluginDescriptor>, i: int)
    requires
        distinct_kinds(s),
        0 <= i < s.len(),
    ensures
        descriptors_map(s).contains_key(s[i].kind@),
        descriptors_map(s)[s[i].kind@] == s[i].allows_multiple_components,
    decreases s.len(),
{
    let t = s.drop_last();
    if i < s.len() - 1 {
        assert(t[i] == s[i]);
        assert(distinct_kinds(t)) by {
            assert forall|a: int, b: int| 0 <= a < b < t.len() implies (#[trigger] t[a]).kind@
                != (#[trigger] t[b]).kind@ by {
                assert(s[a] == t[a] && s[b] == t[b]);
            }
        }
        lemma_descriptors_map_value(t, i);
        assert(s[i].kind@ != s.last().kind@);
    }
}

proof fn lemma_descriptors_map_remove(s: Seq<PluginDescriptor>, i: int)
    requires
        distinct_kinds(s),
        0 <= i < s.len(),
    ensures
        distinct_kinds(s.remove(i)),
        descriptors_map(s.remove(i)) == descriptors_map(s).remove(s[i].kind@),
{
    let r = s.remove(i);
    let k = s[i].kind@;
    assert forall|a: int, b: int| 0 <= a < b < r.len() implies (#[trigger] r[a]).kind@
        != (#[trigger] r[b]).kind@ by {
        let a1 = if a < i { a } else { a + 1 };
        let b1 = if b < i { b } else { b + 1 };
        assert(r[a] == s[a1] && r[b] == s[b1]);
    }
    assert forall|key: Seq<char>| #[trigger]
        descriptors_map(r).contains_key(key) <==> descriptors_map(s).remove(k).contains_key(
            key,
        ) by {
        lemma_descriptors_map_dom(r, key);
        lemma_descriptors_map_dom(s, key);
        if descriptors_map(r).contains_key(key) {
            let a = choose|a: int| 0 <= a < r.len() && (#[trigger] r[a]).kind@ == key;
            let a1 = if a < i { a } else { a + 1 };
            assert(r[a] == s[a1]);
        }
        if descriptors_map(s).remove(k).contains_key(key) {
            let a = choose|a: int| 0 <= a < s.len() && (#[trigger] s[a]).kind@ == key;
            assert(a != i);
            let a1 = if a < i { a } else { a - 1 };
            assert(r[a1] == s[a]);
        }
    }
    assert forall|key: Seq<char>| #[trigger]
        descriptors_map(r).contains_key(key) implies descriptors_map(r)[key] == descriptors_map(
        s,
    ).remove(k)[key] by {
        lemma_descriptors_map_dom(r, key);
        let a = choose|a: int| 0 <= a < r.len() && (#[trigger] r[a]).kind@ == key;
        let a1 = if a < i { a } else { a + 1 };
        assert(r[a] == s[a1]);
        lemma_descriptors_map_value(r, a);
        lemma_descriptors_map_value(s, a1);
    }
    assert(descriptors_map(r) =~= descriptors_map(s).remove(k));
}

/// The plugin kinds known to a plugin host, each at most once.
pub struct PluginRegistry {
    entries: Vec<PluginDescriptor>,
}

impl View for PluginRegistry {
    type V = Map<Seq<char>, bool>;

    /// Each registered kind, mapped to whether it allows multiple components.
    closed spec fn view(&self) -> Map<Seq<char>, bool> {
        descriptors_map(self.entries@)
    }
}

impl PluginRegistry {
    #[verifier::type_invariant]
    spec fn kinds_are_distinct(self) -> bool {
        distinct_kinds(self.entries@)
    }

    /// An empty registry.
    pub fn new() -> (r: Self)
        ensures
            r@ == Map::<Seq<char>, bool>::empty(),
    {
        PluginRegistry { entries: Vec::new() }
    }

    /// The index of the entry for `kind`, if there is one.
    fn position(&self, kind: &str) -> (r: Option<usize>)
        ensures
            match r {
                Some(i) => i < self.entries@.len() && self.entries@[i as int].kind@ == kind@,
                None => forall|i: int|
                    0 <= i < self.entries@.len() ==> (#[trigger] self.entries@[i]).kind@
                        != kind@,
            },
    {
        let n = self.entries.len();
        let mut i: usize = 0;
        while i < n
            invariant
                n == self.entries@.len(),
                i <= n,
                forall|j: int| 0 <= j < i ==> (#[trigger] self.entries@[j]).kind@ != kind@,
            decreases n - i,
        {
            if str_eq(self.entries[i].kind.as_str(), kind) {
                return Some(i);
            }
            i = i + 1;
        }
        None
    }

    /// Whether `kind` is registered, and if so what the registry holds for it.
    pub fn lookup_plugin(&self, kind: &str) -> (r: Option<PluginDescriptor>)
        ensures
            r is Some <==> self@.contains_key(kind@),
            r matches Some(d) ==> d.kind@ == kind@ && d.allows_multiple_components
                == self@[kind@],
    {
        proof {
            use_type_invariant(self);
            lemma_descriptors_map_dom(self.entries@, kind@);
        }
        match self.position(kind) {
            Some(i) => {
                proof {
                    lemma_descriptors_map_value(self.entries@, i as int);
                }
                let e = &self.entries[i];
                Some(
                    PluginDescriptor {
                        kind: e.kind.clone(),
                        allows_multiple_components: e.allows_multiple_components,
                    },
                )
            },
            None => None,
        }
    }

    /// The registered kinds, each once.
    pub fn list_plugin_kinds(&self) -> (r: Vec<String>)
        ensures
            r@.map_values(|s: String| s@).to_set() == self@.dom(),
            r@.map_values(|s: String| s@).no_duplicates(),
    {
        proof {
            use_type_invariant(self);
        }
        let n = self.entries.len();
        let mut r: Vec<String> = Vec::new();
        let mut i: usize = 0;
        while i < n
            invariant
                n == self.entries@.len(),
                i <= n,
                r@.len() == i,
                forall|j: int| 0 <= j < i ==> (#[trigger] r@[j])@ == self.entries@[j].kind@,
            decreases n - i,
        {
            r.push(self.entries[i].kind.clone());
            i = i + 1;
        }
        let ghost ks = r@.map_values(|s: String| s@);
        assert forall|key: Seq<char>| #[trigger] ks.to_set().contains(key) <==> self@.dom().contains(
            key,
        ) by {
            lemma_descriptors_map_dom(self.entries@, key);
            if ks.to_set().contains(key) {
                assert(ks.contains(key));
                let j = choose|j: int| 0 <= j < ks.len() && ks[j] == key;
                assert(self.entries@[j].kind@ == key);
            }
            if self@.dom().contains(key) {
                let j = choose|j: int|
                    0 <= j < self.entries@.len() && (#[trigger] self.entries@[j]).kind@ == key;
                assert(ks[j] == key);
                assert(ks.contains(key));
            }
        }
        assert(ks.to_set() =~= self@.dom());
        r
    }

    /// Adds a plugin kind; refused when the kind is already registered.
    pub fn register_plugin(&mut self, plugin: PluginDescriptor) -> (r: Result<(), PluginError>)
        ensures
            old(self)@.contains_key(plugin.kind@) ==> final(self)@ == old(self)@ && (r matches Err(
                PluginError::RegistrationFailed(m),
            ) && m@ == already_registered_message(plugin.kind@)),
            !old(self)@.contains_key(plugin.kind@) ==> r is Ok && final(self)@ == old(self)@.insert(
                plugin.kind@,
                plugin.allows_multiple_components,
            ),
    {
        proof {
            use_type_invariant(&*self);
            lemma_descriptors_map_dom(self.entries@, plugin.kind@);
        }
        match self.position(plugin.kind.as_str()) {
            Some(_) => {
                let mut m = String::from_str("plugin kind '");
                m.append(plugin.kind.as_str());
                m.append("' is already registered");
                Err(PluginError::RegistrationFailed(m))
            },
            None => {
                let ghost old_entries = self.entries@;
                let mut entries: Vec<PluginDescriptor> = Vec::new();
                std::mem::swap(&mut entries, &mut self.entries);
                assert(entries@ == old_entries);
                entries.push(plugin);
                assert(entries@.drop_last() =~= old_entries);
                self.entries = entries;
                Ok(())
            },
        }
    }

    /// Removes a plugin kind; tells whether it was registered.
    pub fn deregister_plugin(&mut self, kind: &str) -> (r: bool)
        ensures
            r == old(self)@.contains_key(kind@),
            final(self)@ == old(self)@.remove(kind@),
    {
        proof {
            use_type_invariant(&*self);
            lemma_descriptors_map_dom(self.entries@, kind@);
        }
        match self.position(kind) {
            Some(i) => {
                let ghost old_entries = self.entries@;
                proof {
                    lemma_descriptors_map_remove(old_entries, i as int);
                }
                let mut entries: Vec<PluginDescriptor> = Vec::new();
                std::mem::swap(&mut entries, &mut self.entries);
                assert(entries@ == old_entries);
                entries.remove(i);
                self.entries = entries;
                true
            },
            None => {
                assert(old(self)@.remove(kind@) =~= old(self)@);
                false
            },
        }
    }
}

} // verus!
