//! The app deployments plugin, which the host loads under the
//! `(hive, app_deployments)` registration key to filter requests against
//! known app deployments.
//!
//! Its configuration declares a single optional field, `enabled`, with `true`
//! as its declared default. Request filtering itself runs in the host's
//! pipeline; this module holds the plugin's configuration schema and the pure
//! core of its construction, which only stores the resolved configuration and
//! cannot fail.

use vstd::prelude::*;

use crate::config::{
    offending_field, spec_resolved, ConfigField, ConfigValue, FieldSpec,
};

verus! {

/// The resolution rule for this plugin type as a single function: a supplied
/// `enabled` value overrides the default, and an absent one takes the
/// declared default, true.
pub open spec fn spec_resolve_enabled(supplied: Option<bool>) -> Option<bool> {
    match supplied {
        Some(supplied_enabled) => Some(supplied_enabled),
        None => Some(true),
    }
}

/// Configuration for the app deployments plugin.
#[derive(Clone, Copy, Debug)]
pub struct Config {
    /// Whether the plugin is enabled. Default: true.
    enabled: Option<bool>,
}

impl Config {
    /// The `enabled` field as a supplied configuration carries it: `None`
    /// when the field was absent.
    pub closed spec fn spec_enabled(self) -> Option<bool> {
        self.enabled
    }

    /// A configuration with the `enabled` field supplied as given, or absent.
    pub fn new(enabled: Option<bool>) -> (config: Config)
        ensures
            config.spec_enabled() == enabled,
    {
        Config { enabled }
    }

    /// The `enabled` field, exactly as held.
    pub fn enabled(&self) -> (enabled: Option<bool>)
        ensures
            enabled == self.spec_enabled(),
    {
        self.enabled
    }

    /// The declared schema of this plugin type: one optional field,
    /// `enabled`, defaulting to true. Every field has a default, so an empty
    /// supplied configuration resolves with no possible failure.
    pub fn config_schema() -> (schema: Vec<FieldSpec>)
        ensures
            schema@.len() == 1,
            schema@[0].name@ == "enabled"@,
            schema@[0].default == Some(ConfigValue::Bool(true)),
    {
        let mut schema: Vec<FieldSpec> = Vec::new();
        schema.push(FieldSpec { name: "enabled".to_owned(), default: Some(ConfigValue::Bool(true)) });
        schema
    }

    /// Resolve a supplied configuration for this plugin type: a supplied
    /// `enabled` value overrides the default; an absent one takes the
    /// documented default, true. Pure, with no possible failure.
    pub fn resolve(supplied: Config) -> (resolved: Config)
        ensures
            resolved.spec_enabled() == spec_resolve_enabled(supplied.spec_enabled()),
    {
        match supplied.enabled {
            Some(supplied_enabled) => Config { enabled: Some(supplied_enabled) },
            None => Config { enabled: Some(true) },
        }
    }
}

impl Default for Config {
    /// The declared default configuration: enabled.
    fn default() -> (config: Self)
        ensures
            config.spec_enabled() == Some(true),
    {
        Config { enabled: Some(true) }
    }
}

/// The app deployments plugin instance: it owns its resolved configuration,
/// never mutated after construction, and holds no other resource.
pub struct AppDeploymentsPlugin {
    /// The resolved configuration the instance was constructed with.
    configuration: Config,
}

impl AppDeploymentsPlugin {
    /// The configuration the instance holds.
    pub closed spec fn spec_configuration(self) -> Config {
        self.configuration
    }

    /// The pure core of this plugin's construct call: the instance only
    /// stores its resolved configuration, so construction cannot fail. The
    /// host drives it through a `PluginLifecycle`, which supplies the
    /// fallible-async framing and the guaranteed teardown.
    pub fn new(configuration: Config) -> (plugin: AppDeploymentsPlugin)
        ensures
            plugin.spec_configuration() == configuration,
    {
        AppDeploymentsPlugin { configuration }
    }

    /// The resolved configuration the instance was constructed with.
    pub fn configuration(&self) -> (configuration: Config)
        ensures
            configuration == self.spec_configuration(),
    {
        self.configuration
    }
}

/// Law: on this plugin's declared schema, the general resolver agrees with
/// the plugin's own resolution rule. For a supplied configuration carrying
/// the `enabled` field or nothing at all, resolution succeeds and `enabled`
/// resolves to exactly what `spec_resolve_enabled` yields.
pub proof fn lemma_plugin_resolution_agrees_with_resolver(
    schema: Seq<FieldSpec>,
    supplied: Seq<ConfigField>,
    supplied_enabled: Option<bool>,
)
    requires
        schema.len() == 1,
        schema[0].name@ == "enabled"@,
        schema[0].default == Some(ConfigValue::Bool(true)),
        match supplied_enabled {
            Some(supplied_value) => supplied.len() == 1 && supplied[0].name@ == "enabled"@
                && supplied[0].value == ConfigValue::Bool(supplied_value),
            None => supplied.len() == 0,
        },
    ensures
        offending_field(schema, supplied) is None,
        spec_resolved(schema, supplied).len() == 1,
        spec_resolved(schema, supplied)[0].name == schema[0].name,
        spec_resolved(schema, supplied)[0].value == ConfigValue::Bool(
            spec_resolve_enabled(supplied_enabled)->0,
        ),
{
    match supplied_enabled {
        Some(_) => {
            assert(crate::config::schema_names_contain(schema, supplied[0].name@));
            assert(supplied.drop_first().len() == 0);
            assert(crate::config::first_unknown(schema, supplied.drop_first()) is None);
            assert(crate::config::lookup(supplied, schema[0].name@) == Some(supplied[0].value));
            assert(schema.drop_first().len() == 0);
            assert(crate::config::first_missing(schema.drop_first(), supplied) is None);
        },
        None => {
            assert(crate::config::lookup(supplied, schema[0].name@) is None);
            assert(schema.drop_first().len() == 0);
            assert(crate::config::first_missing(schema.drop_first(), supplied) is None);
        },
    }
}

} // verus!
