use plugin_supervisor::app_deployments::{AppDeploymentsPlugin, Config};
use plugin_supervisor::errors::ExtensionError;
use plugin_supervisor::lifecycle::{LifecycleState, PluginLifecycle};

#[test]
fn successful_construct_reaches_ready() {
    let mut lifecycle: PluginLifecycle<AppDeploymentsPlugin> = PluginLifecycle::new();
    assert_eq!(lifecycle.state, LifecycleState::Uninitialized);
    lifecycle.begin_construct();
    assert_eq!(lifecycle.state, LifecycleState::Constructing);
    let plugin = AppDeploymentsPlugin::new(Config::resolve(Config::new(None)));
    assert!(lifecycle.complete_construct(Ok(plugin)).is_ok());
    assert_eq!(lifecycle.state, LifecycleState::Ready);
    assert_eq!(lifecycle.teardown_runs, 0);
}

#[test]
fn ready_instance_holds_its_resolved_configuration() {
    let mut lifecycle: PluginLifecycle<AppDeploymentsPlugin> = PluginLifecycle::new();
    lifecycle.begin_construct();
    let plugin = AppDeploymentsPlugin::new(Config::resolve(Config::new(Some(false))));
    assert!(lifecycle.complete_construct(Ok(plugin)).is_ok());
    let released = lifecycle.teardown().unwrap();
    assert_eq!(released.configuration().enabled(), Some(false));
}

#[test]
fn failed_construct_goes_straight_to_torn_down_without_teardown() {
    let mut lifecycle: PluginLifecycle<AppDeploymentsPlugin> = PluginLifecycle::new();
    lifecycle.begin_construct();
    let err = lifecycle
        .complete_construct(Err("registry handshake refused".to_owned()))
        .unwrap_err();
    assert_eq!(
        err,
        ExtensionError::ConstructionFailed("registry handshake refused".to_owned())
    );
    assert_eq!(lifecycle.state, LifecycleState::TornDown);
    // No teardown ever ran: nothing was acquired, so nothing is released.
    assert_eq!(lifecycle.teardown_runs, 0);
}

#[test]
fn teardown_releases_the_instance_and_counts_once() {
    let mut lifecycle: PluginLifecycle<u32> = PluginLifecycle::new();
    lifecycle.begin_construct();
    assert!(lifecycle.complete_construct(Ok(7)).is_ok());
    let released = lifecycle.teardown();
    assert_eq!(released, Some(7));
    assert_eq!(lifecycle.state, LifecycleState::TornDown);
    assert_eq!(lifecycle.teardown_runs, 1);
}

#[test]
fn teardown_twice_has_the_same_effect_as_once() {
    let mut torn_once: PluginLifecycle<u32> = PluginLifecycle::new();
    torn_once.begin_construct();
    assert!(torn_once.complete_construct(Ok(7)).is_ok());
    torn_once.teardown();

    let mut torn_twice: PluginLifecycle<u32> = PluginLifecycle::new();
    torn_twice.begin_construct();
    assert!(torn_twice.complete_construct(Ok(7)).is_ok());
    torn_twice.teardown();
    let second_release = torn_twice.teardown();

    // The second call is a no-op: it releases nothing and changes nothing.
    assert_eq!(second_release, None);
    assert_eq!(torn_twice.state, torn_once.state);
    assert_eq!(torn_twice.teardown_runs, torn_once.teardown_runs);
    assert_eq!(torn_twice.teardown_runs, 1);
}

#[test]
fn construction_failure_is_fatal_for_the_plugin() {
    let err = ExtensionError::ConstructionFailed("no route to registry".to_owned());
    assert!(err.is_fatal());
}

#[test]
fn teardown_failure_is_never_fatal() {
    let err = ExtensionError::TeardownFailed("socket already closed".to_owned());
    assert!(!err.is_fatal());
}
