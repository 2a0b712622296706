//! Model defaults for new threads.

use agent_turns::managed_defaults::{
    apply_managed_new_thread_defaults, Config, ConfigOverrides, NewThreadModelDefaults,
    ServiceTier,
};
use agent_turns::models::ReasoningEffort;
use toml::Value as TomlValue;

fn defaults() -> NewThreadModelDefaults {
    NewThreadModelDefaults {
        model: Some("managed-model".to_string()),
        model_reasoning_effort: Some(ReasoningEffort::High),
        service_tier: Some("fast".to_string()),
    }
}

fn config(model: &str, effort: ReasoningEffort, tier: &str) -> Config {
    Config {
        model: Some(model.to_string()),
        model_reasoning_effort: Some(effort),
        service_tier: Some(tier.to_string()),
    }
}

#[test]
fn applies_managed_defaults_to_a_new_thread_config() {
    let mut actual = config("configured-model", ReasoningEffort::Low, "flex");
    let mut expected = actual.clone();
    expected.model = Some("managed-model".to_string());
    expected.model_reasoning_effort = Some(ReasoningEffort::High);
    expected.service_tier = Some(ServiceTier::Fast.request_value().to_string());

    apply_managed_new_thread_defaults(
        &mut actual,
        Some(&defaults()),
        &[],
        &ConfigOverrides::default(),
    );

    assert_eq!(actual, expected);
}

#[test]
fn explicit_launch_overrides_take_precedence() {
    let mut actual = config("explicit-model", ReasoningEffort::Low, "flex");
    let expected = actual.clone();
    let cli_kv_overrides = vec![(
        "model_reasoning_effort".to_string(),
        TomlValue::String("low".to_string()),
    )];
    let harness_overrides = ConfigOverrides {
        model: Some("explicit-model".to_string()),
        service_tier: Some(Some("flex".to_string())),
        ..ConfigOverrides::default()
    };

    apply_managed_new_thread_defaults(
        &mut actual,
        Some(&defaults()),
        &cli_kv_overrides,
        &harness_overrides,
    );

    assert_eq!(actual, expected);
}

#[test]
fn each_command_line_setting_protects_its_own_key() {
    let setting = |key: &str| (key.to_string(), TomlValue::Boolean(true));
    let start = config("configured-model", ReasoningEffort::Low, "flex");

    let mut actual = start.clone();
    apply_managed_new_thread_defaults(
        &mut actual,
        Some(&defaults()),
        &[setting("other"), setting("model")],
        &ConfigOverrides::default(),
    );
    assert_eq!(actual, config("configured-model", ReasoningEffort::High, "priority"));

    let mut actual = start.clone();
    apply_managed_new_thread_defaults(
        &mut actual,
        Some(&defaults()),
        &[setting("service_tier"), setting("model.name")],
        &ConfigOverrides::default(),
    );
    assert_eq!(actual, config("managed-model", ReasoningEffort::High, "flex"));
}

#[test]
fn a_service_tier_that_is_set_to_nothing_is_set() {
    let mut actual = config("configured-model", ReasoningEffort::Low, "flex");
    actual.service_tier = None;
    apply_managed_new_thread_defaults(
        &mut actual,
        Some(&defaults()),
        &[],
        &ConfigOverrides {
            model: None,
            service_tier: Some(None),
        },
    );
    assert_eq!(actual.service_tier, None);
    assert_eq!(actual.model, Some("managed-model".to_string()));
}

#[test]
fn nothing_changes_without_defaults() {
    let start = config("configured-model", ReasoningEffort::Low, "flex");

    let mut actual = start.clone();
    apply_managed_new_thread_defaults(&mut actual, None, &[], &ConfigOverrides::default());
    assert_eq!(actual, start);

    let empty = NewThreadModelDefaults {
        model: None,
        model_reasoning_effort: None,
        service_tier: None,
    };
    let mut actual = start.clone();
    apply_managed_new_thread_defaults(&mut actual, Some(&empty), &[], &ConfigOverrides::default());
    assert_eq!(actual, start);
}

#[test]
fn applying_the_defaults_again_changes_nothing() {
    let mut actual = config("configured-model", ReasoningEffort::Low, "flex");
    apply_managed_new_thread_defaults(
        &mut actual,
        Some(&defaults()),
        &[],
        &ConfigOverrides::default(),
    );
    let once = actual.clone();
    apply_managed_new_thread_defaults(
        &mut actual,
        Some(&defaults()),
        &[],
        &ConfigOverrides::default(),
    );
    assert_eq!(actual, once);
}

#[test]
fn service_tiers_have_request_names() {
    assert_eq!(ServiceTier::from_request_value("fast"), Some(ServiceTier::Fast));
    assert_eq!(ServiceTier::from_request_value("priority"), Some(ServiceTier::Fast));
    assert_eq!(ServiceTier::from_request_value("flex"), Some(ServiceTier::Flex));
    assert_eq!(ServiceTier::from_request_value("Fast"), None);
    assert_eq!(ServiceTier::Fast.request_value(), "priority");
    assert_eq!(ServiceTier::Flex.request_value(), "flex");

    let mut custom = defaults();
    custom.service_tier = Some("batch".to_string());
    let mut actual = config("configured-model", ReasoningEffort::Low, "flex");
    apply_managed_new_thread_defaults(
        &mut actual,
        Some(&custom),
        &[],
        &ConfigOverrides::default(),
    );
    assert_eq!(actual.service_tier, Some("batch".to_string()));
}
