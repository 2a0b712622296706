//! Model defaults that an administrator sets for new threads.

use toml::Value as TomlValue;
use vstd::prelude::*;

use crate::models::ReasoningEffort;
use crate::text::same_text;

verus! {

/// `toml::Value`, carried unread.
#[verifier::external_type_specification]
#[verifier::external_body]
pub struct ExTomlValue(toml::Value);

/// How a request is queued by the service.
#[derive(Clone, Copy, Debug, PartialEq, Eq, Structural)]
pub enum ServiceTier {
    Fast,
    Flex,
}

impl ServiceTier {
    /// What a request names the tier.
    pub open spec fn request_text(self) -> Seq<char> {
        match self {
            ServiceTier::Fast => "priority"@,
            ServiceTier::Flex => "flex"@,
        }
    }

    /// The tier that a text names, where it names one.
    pub open spec fn named(value: Seq<char>) -> Option<ServiceTier> {
        if value == "fast"@ || value == "priority"@ {
            Some(ServiceTier::Fast)
        } else if value == "flex"@ {
            Some(ServiceTier::Flex)
        } else {
            None
        }
    }

    /// Returns what a request names the tier.
    pub fn request_value(self) -> (value: &'static str)
        ensures
            value@ == self.request_text(),
    {
        match self {
            ServiceTier::Fast => "priority",
            ServiceTier::Flex => "flex",
        }
    }

    /// Finds the tier that a text names.
    pub fn from_request_value(value: &str) -> (tier: Option<ServiceTier>)
        ensures
            tier == ServiceTier::named(value@),
    {
        if same_text(value, "fast") || same_text(value, "priority") {
            Some(ServiceTier::Fast)
        } else if same_text(value, "flex") {
            Some(ServiceTier::Flex)
        } else {
            None
        }
    }
}

/// The part of a session's configuration that the defaults can replace.
#[derive(Clone, Debug, PartialEq, Eq)]
pub struct Config {
    pub model: Option<String>,
    pub model_reasoning_effort: Option<ReasoningEffort>,
    pub service_tier: Option<String>,
}

/// What `Config` stands for.
#[verifier::ext_equal]
pub struct ConfigView {
    pub model: Option<Seq<char>>,
    pub model_reasoning_effort: Option<ReasoningEffort>,
    pub service_tier: Option<Seq<char>>,
}

impl DeepView for Config {
    type V = ConfigView;

    open spec fn deep_view(&self) -> ConfigView {
        ConfigView {
            model: self.model.deep_view(),
            model_reasoning_effort: self.model_reasoning_effort.deep_view(),
            service_tier: self.service_tier.deep_view(),
        }
    }
}

/// What an administrator sets for new threads.
#[derive(Clone, Debug, PartialEq, Eq)]
pub struct NewThreadModelDefaults {
    pub model: Option<String>,
    pub model_reasoning_effort: Option<ReasoningEffort>,
    pub service_tier: Option<String>,
}

/// What `NewThreadModelDefaults` stands for.
#[verifier::ext_equal]
pub struct NewThreadModelDefaultsView {
    pub model: Option<Seq<char>>,
    pub model_reasoning_effort: Option<ReasoningEffort>,
    pub service_tier: Option<Seq<char>>,
}

impl DeepView for NewThreadModelDefaults {
    type V = NewThreadModelDefaultsView;

    open spec fn deep_view(&self) -> NewThreadModelDefaultsView {
        NewThreadModelDefaultsView {
            model: self.model.deep_view(),
            model_reasoning_effort: self.model_reasoning_effort.deep_view(),
            service_tier: self.service_tier.deep_view(),
        }
    }
}

/// What the launch of a session sets, leaving the configuration aside. A service tier that is set
/// may be set to nothing.
#[derive(Clone, Debug, PartialEq, Eq)]
pub struct ConfigOverrides {
    pub model: Option<String>,
    pub service_tier: Option<Option<String>>,
}

/// What `ConfigOverrides` stands for.
#[verifier::ext_equal]
pub struct ConfigOverridesView {
    pub model: Option<Seq<char>>,
    pub service_tier: Option<Option<Seq<char>>>,
}

impl DeepView for ConfigOverrides {
    type V = ConfigOverridesView;

    open spec fn deep_view(&self) -> ConfigOverridesView {
        ConfigOverridesView {
            model: self.model.deep_view(),
            service_tier: self.service_tier.deep_view(),
        }
    }
}

impl Default for ConfigOverrides {
    fn default() -> (overrides: Self)
        ensures
            overrides.deep_view() == (ConfigOverridesView { model: None, service_tier: None }),
    {
        ConfigOverrides { model: None, service_tier: None }
    }
}

/// Whether one of the settings given on the command line is for `key`.
pub open spec fn names_key(settings: Seq<(String, TomlValue)>, key: Seq<char>) -> bool {
    exists|i: int| 0 <= i < settings.len() && (#[trigger] settings[i]).0@ == key
}

/// The service tier as it is sent: under the name that requests use, where the tier is known.
pub open spec fn requested_tier(service_tier: Seq<char>) -> Seq<char> {
    match ServiceTier::named(service_tier) {
        Some(tier) => tier.request_text(),
        None => service_tier,
    }
}

impl ConfigView {
    /// The configuration of a new thread under the defaults. A default replaces what is
    /// configured, unless the launch sets the same thing.
    pub open spec fn with_defaults(
        self,
        defaults: NewThreadModelDefaultsView,
        settings: Seq<(String, TomlValue)>,
        overrides: ConfigOverridesView,
    ) -> ConfigView {
        ConfigView {
            model: if overrides.model is None && !names_key(settings, "model"@)
                && defaults.model is Some {
                defaults.model
            } else {
                self.model
            },
            model_reasoning_effort: if !names_key(settings, "model_reasoning_effort"@)
                && defaults.model_reasoning_effort is Some {
                defaults.model_reasoning_effort
            } else {
                self.model_reasoning_effort
            },
            service_tier: if overrides.service_tier is None && !names_key(
                settings,
                "service_tier"@,
            ) && defaults.service_tier is Some {
                Some(requested_tier(defaults.service_tier->0))
            } else {
                self.service_tier
            },
        }
    }
}

fn has_cli_override(cli_kv_overrides: &[(String, TomlValue)], key: &str) -> (r: bool)
    ensures
        r == names_key(cli_kv_overrides@, key@),
{
    let mut index: usize = 0;
    while index < cli_kv_overrides.len()
        invariant
            index <= cli_kv_overrides@.len(),
            forall|i: int| 0 <= i < index ==> (#[trigger] cli_kv_overrides@[i]).0@ != key@,
        decreases cli_kv_overrides@.len() - index,
    {
        if same_text(cli_kv_overrides[index].0.as_str(), key) {
            assert(cli_kv_overrides@[index as int].0@ == key@);
            return true;
        }
        index += 1;
    }
    false
}

/// Sets the configuration of a new thread to the defaults, where there are defaults and the launch
/// does not set the same thing.
pub fn apply_managed_new_thread_defaults(
    config: &mut Config,
    defaults: Option<&NewThreadModelDefaults>,
    cli_kv_overrides: &[(String, TomlValue)],
    harness_overrides: &ConfigOverrides,
)
    ensures
        final(config).deep_view() == match defaults {
            Some(set) => old(config).deep_view().with_defaults(
                set.deep_view(),
                cli_kv_overrides@,
                harness_overrides.deep_view(),
            ),
            None => old(config).deep_view(),
        },
{
    let defaults = match defaults {
        Some(set) => set,
        None => {
            return;
        },
    };
    if harness_overrides.model.is_none() && !has_cli_override(cli_kv_overrides, "model") {
        if let Some(model) = &defaults.model {
            config.model = Some(model.clone());
        }
    }
    if !has_cli_override(cli_kv_overrides, "model_reasoning_effort") {
        if let Some(reasoning_effort) = &defaults.model_reasoning_effort {
            config.model_reasoning_effort = Some(*reasoning_effort);
        }
    }
    if harness_overrides.service_tier.is_none() && !has_cli_override(
        cli_kv_overrides,
        "service_tier",
    ) {
        if let Some(service_tier) = &defaults.service_tier {
            config.service_tier = Some(
                match ServiceTier::from_request_value(service_tier.as_str()) {
                    Some(tier) => tier.request_value().to_string(),
                    None => service_tier.clone(),
                },
            );
        }
    }
}

/// What the launch of a session sets is kept: no default replaces it.
pub proof fn law_launch_settings_take_precedence(
    config: ConfigView,
    defaults: NewThreadModelDefaultsView,
    settings: Seq<(String, TomlValue)>,
    overrides: ConfigOverridesView,
)
    ensures
        overrides.model is Some || names_key(settings, "model"@) ==> config.with_defaults(
            defaults,
            settings,
            overrides,
        ).model == config.model,
        names_key(settings, "model_reasoning_effort"@) ==> config.with_defaults(
            defaults,
            settings,
            overrides,
        ).model_reasoning_effort == config.model_reasoning_effort,
        overrides.service_tier is Some || names_key(settings, "service_tier"@)
            ==> config.with_defaults(defaults, settings, overrides).service_tier
            == config.service_tier,
{
}

/// The defaults win over what is configured, wherever the launch sets nothing.
pub proof fn law_defaults_replace_the_configuration(
    config: ConfigView,
    defaults: NewThreadModelDefaultsView,
    settings: Seq<(String, TomlValue)>,
)
    requires
        forall|i: int|
            0 <= i < settings.len() ==> (#[trigger] settings[i]).0@ != "model"@ && settings[i].0@
                != "model_reasoning_effort"@ && settings[i].0@ != "service_tier"@,
        defaults.model is Some,
        defaults.model_reasoning_effort is Some,
        defaults.service_tier is Some,
    ensures
        config.with_defaults(
            defaults,
            settings,
            ConfigOverridesView { model: None, service_tier: None },
        ) == (ConfigView {
            model: defaults.model,
            model_reasoning_effort: defaults.model_reasoning_effort,
            service_tier: Some(requested_tier(defaults.service_tier->0)),
        }),
{
}

/// Applying the same defaults again changes nothing.
pub proof fn law_defaults_apply_once(
    config: ConfigView,
    defaults: NewThreadModelDefaultsView,
    settings: Seq<(String, TomlValue)>,
    overrides: ConfigOverridesView,
)
    ensures
        config.with_defaults(defaults, settings, overrides).with_defaults(
            defaults,
            settings,
            overrides,
        ) == config.with_defaults(defaults, settings, overrides),
{
}

/// The name that a request uses for a tier names that tier, so that a tier is renamed only once.
pub proof fn law_request_value_names_its_tier(tier: ServiceTier)
    ensures
        ServiceTier::named(tier.request_text()) == Some(tier),
        requested_tier(tier.request_text()) == tier.request_text(),
{
    reveal_strlit("fast");
    reveal_strlit("priority");
    reveal_strlit("flex");
    assert("flex"@[1] == 'l');
    assert("fast"@[1] == 'a');
    assert("flex"@ != "fast"@);
    assert("flex"@.len() != "priority"@.len());
}

/// Each setting is settled by itself: by its default, where there is one and the launch does not
/// set it, whatever the other settings are; and else it stays as it is configured.
pub proof fn law_each_default_stands_alone(
    config: ConfigView,
    defaults: NewThreadModelDefaultsView,
    settings: Seq<(String, TomlValue)>,
    overrides: ConfigOverridesView,
)
    ensures
        ({
            let settled = config.with_defaults(defaults, settings, overrides);
            let free = |key: Seq<char>|
                forall|i: int| 0 <= i < settings.len() ==> (#[trigger] settings[i]).0@ != key;
            &&& defaults.model is Some && overrides.model is None && free("model"@)
                ==> settled.model == defaults.model
            &&& defaults.model is None ==> settled.model == config.model
            &&& defaults.model_reasoning_effort is Some && free("model_reasoning_effort"@)
                ==> settled.model_reasoning_effort == defaults.model_reasoning_effort
            &&& defaults.model_reasoning_effort is None ==> settled.model_reasoning_effort
                == config.model_reasoning_effort
            &&& defaults.service_tier is Some && overrides.service_tier is None && free(
                "service_tier"@,
            ) ==> settled.service_tier == Some(requested_tier(defaults.service_tier->0))
            &&& defaults.service_tier is None ==> settled.service_tier == config.service_tier
        }),
{
}

/// What the launch sets is what any of its settings names.
pub proof fn law_settings_name_their_keys(
    settings: Seq<(String, TomlValue)>,
    setting: (String, TomlValue),
    key: Seq<char>,
)
    ensures
        !names_key(seq![], key),
        names_key(settings.push(setting), key) <==> names_key(settings, key) || setting.0@ == key,
{
    let more = settings.push(setting);
    if names_key(settings, key) {
        let i = choose|i: int| 0 <= i < settings.len() && (#[trigger] settings[i]).0@ == key;
        assert(more[i].0@ == key);
    }
    if setting.0@ == key {
        assert(more[settings.len() as int].0@ == key);
    }
    if names_key(more, key) {
        let i = choose|i: int| 0 <= i < more.len() && (#[trigger] more[i]).0@ == key;
        if i < settings.len() {
            assert(settings[i].0@ == key);
        }
    }
}

/// The fast tier is requested as `priority`, by whichever of its two names it is set, and the
/// flexible one by its own name; a text that names no tier is requested as it is.
pub proof fn law_requested_tiers(text: Seq<char>)
    ensures
        requested_tier("fast"@) == "priority"@,
        requested_tier("priority"@) == "priority"@,
        requested_tier("flex"@) == "flex"@,
        ServiceTier::named("fast"@) == Some(ServiceTier::Fast),
        ServiceTier::named("priority"@) == Some(ServiceTier::Fast),
        ServiceTier::named("flex"@) == Some(ServiceTier::Flex),
        text != "fast"@ && text != "priority"@ && text != "flex"@ ==> ServiceTier::named(text)
            is None && requested_tier(text) == text,
{
    reveal_strlit("fast");
    reveal_strlit("priority");
    reveal_strlit("flex");
    assert("flex"@[1] == 'l');
    assert("fast"@[1] == 'a');
    assert("flex"@ != "fast"@);
    assert("flex"@.len() != "priority"@.len());
}

} // verus!
