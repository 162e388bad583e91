use plugin_supervisor::errors::ExtensionError;
use plugin_supervisor::registry::{PluginDescriptor, PluginRegistry};

fn descriptor(namespace: &str, name: &str, constructor: u64) -> PluginDescriptor {
    PluginDescriptor {
        namespace: namespace.to_owned(),
        name: name.to_owned(),
        constructor,
    }
}

#[test]
fn registering_a_new_key_succeeds() {
    let mut registry = PluginRegistry::new();
    assert!(registry.register(descriptor("hive", "usage", 1)).is_ok());
    assert_eq!(registry.lookup(&"hive".to_owned(), &"usage".to_owned()), Some(1));
}

#[test]
fn duplicate_registration_fails_and_first_remains_intact() {
    let mut registry = PluginRegistry::new();
    assert!(registry.register(descriptor("hive", "usage", 1)).is_ok());
    let err = registry.register(descriptor("hive", "usage", 2)).unwrap_err();
    assert_eq!(
        err,
        ExtensionError::DuplicateRegistration("hive".to_owned(), "usage".to_owned())
    );
    // The first registration is untouched: same single entry, same handle.
    assert_eq!(registry.entries.len(), 1);
    assert_eq!(registry.lookup(&"hive".to_owned(), &"usage".to_owned()), Some(1));
}

#[test]
fn distinct_names_in_one_namespace_both_register() {
    let mut registry = PluginRegistry::new();
    assert!(registry.register(descriptor("hive", "usage", 1)).is_ok());
    assert!(registry.register(descriptor("hive", "app_deployments", 2)).is_ok());
    assert_eq!(registry.lookup(&"hive".to_owned(), &"usage".to_owned()), Some(1));
    assert_eq!(
        registry.lookup(&"hive".to_owned(), &"app_deployments".to_owned()),
        Some(2)
    );
}

#[test]
fn same_name_in_distinct_namespaces_both_register() {
    let mut registry = PluginRegistry::new();
    assert!(registry.register(descriptor("hive", "usage", 1)).is_ok());
    assert!(registry.register(descriptor("apollo", "usage", 2)).is_ok());
    assert_eq!(registry.lookup(&"apollo".to_owned(), &"usage".to_owned()), Some(2));
}

#[test]
fn lookup_of_an_unregistered_key_finds_nothing() {
    let registry = PluginRegistry::new();
    assert_eq!(registry.lookup(&"hive".to_owned(), &"usage".to_owned()), None);
}

#[test]
fn duplicate_registration_is_fatal() {
    let err = ExtensionError::DuplicateRegistration("hive".to_owned(), "usage".to_owned());
    assert!(err.is_fatal());
}
