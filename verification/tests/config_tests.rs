use plugin_supervisor::app_deployments::Config;
use plugin_supervisor::config::{resolve, ConfigField, ConfigValue, FieldSpec};
use plugin_supervisor::errors::ExtensionError;

fn field(name: &str, value: ConfigValue) -> ConfigField {
    ConfigField { name: name.to_owned(), value }
}

fn defaulted(name: &str, default: ConfigValue) -> FieldSpec {
    FieldSpec { name: name.to_owned(), default: Some(default) }
}

fn required(name: &str) -> FieldSpec {
    FieldSpec { name: name.to_owned(), default: None }
}

#[test]
fn resolving_empty_supplied_yields_declared_defaults() {
    let schema = vec![
        defaulted("enabled", ConfigValue::Bool(true)),
        defaulted("batch_size", ConfigValue::Int(25)),
    ];
    let supplied: Vec<ConfigField> = Vec::new();
    let resolved = resolve(&schema, &supplied).unwrap();
    assert_eq!(
        resolved,
        vec![
            field("enabled", ConfigValue::Bool(true)),
            field("batch_size", ConfigValue::Int(25)),
        ]
    );
}

#[test]
fn missing_required_field_fails_config_invalid() {
    let schema = vec![required("endpoint")];
    let supplied: Vec<ConfigField> = Vec::new();
    let err = resolve(&schema, &supplied).unwrap_err();
    assert_eq!(err, ExtensionError::ConfigInvalid("endpoint".to_owned()));
}

#[test]
fn supplied_required_field_succeeds() {
    let schema = vec![required("endpoint")];
    let supplied = vec![field("endpoint", ConfigValue::Int(4000))];
    let resolved = resolve(&schema, &supplied).unwrap();
    assert_eq!(resolved, vec![field("endpoint", ConfigValue::Int(4000))]);
}

#[test]
fn unknown_supplied_field_fails_config_invalid() {
    let schema = vec![defaulted("enabled", ConfigValue::Bool(true))];
    let supplied = vec![field("enabeld", ConfigValue::Bool(false))];
    let err = resolve(&schema, &supplied).unwrap_err();
    assert_eq!(err, ExtensionError::ConfigInvalid("enabeld".to_owned()));
}

#[test]
fn supplied_field_overrides_declared_default() {
    let schema = vec![
        defaulted("enabled", ConfigValue::Bool(true)),
        defaulted("batch_size", ConfigValue::Int(25)),
    ];
    let supplied = vec![field("batch_size", ConfigValue::Int(100))];
    let resolved = resolve(&schema, &supplied).unwrap();
    assert_eq!(
        resolved,
        vec![
            field("enabled", ConfigValue::Bool(true)),
            field("batch_size", ConfigValue::Int(100)),
        ]
    );
}

#[test]
fn empty_schema_resolves_to_empty_configuration() {
    let schema: Vec<FieldSpec> = Vec::new();
    let supplied: Vec<ConfigField> = Vec::new();
    let resolved = resolve(&schema, &supplied).unwrap();
    assert!(resolved.is_empty());
}

#[test]
fn plugin_schema_resolves_empty_supplied_to_enabled_true() {
    let schema = Config::config_schema();
    let supplied: Vec<ConfigField> = Vec::new();
    let resolved = resolve(&schema, &supplied).unwrap();
    assert_eq!(resolved, vec![field("enabled", ConfigValue::Bool(true))]);
}

#[test]
fn default_config_is_enabled() {
    let config = Config::default();
    assert_eq!(config.enabled(), Some(true));
}

#[test]
fn empty_supplied_config_resolves_to_enabled_true() {
    let resolved = Config::resolve(Config::new(None));
    assert_eq!(resolved.enabled(), Some(true));
}

#[test]
fn supplied_enabled_false_resolves_to_enabled_false() {
    let resolved = Config::resolve(Config::new(Some(false)));
    assert_eq!(resolved.enabled(), Some(false));
}

#[test]
fn supplied_enabled_true_resolves_to_enabled_true() {
    let resolved = Config::resolve(Config::new(Some(true)));
    assert_eq!(resolved.enabled(), Some(true));
}

#[test]
fn config_invalid_is_fatal() {
    let err = ExtensionError::ConfigInvalid("endpoint".to_owned());
    assert!(err.is_fatal());
}
