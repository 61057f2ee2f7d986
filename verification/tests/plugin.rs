use amico::plugin::{Plugin, PluginCategory, PluginError, PluginInfo};

#[test]
fn test_impl_plugin() {
    // Implement the interface
    struct TestPlugin;

    impl Plugin for TestPlugin {
        fn info(&self) -> &'static PluginInfo {
            &PluginInfo {
                name: "TestPlugin",
                category: PluginCategory::Sensor,
            }
        }
    }

    let plugin = TestPlugin;
    assert_eq!(plugin.info().name, "TestPlugin");
    assert_eq!(plugin.info().category, PluginCategory::Sensor);
}

#[test]
fn test_plugin_error_display() {
    let err = PluginError::InitializationFailed("bad config".to_string());
    assert_eq!(err.to_string(), "Plugin initialization failed: bad config");

    let err = PluginError::StartupFailed("connection refused".to_string());
    assert_eq!(err.to_string(), "Plugin startup failed: connection refused");

    let err = PluginError::ShutdownFailed("timeout".to_string());
    assert_eq!(err.to_string(), "Plugin shutdown failed: timeout");

    let err = PluginError::OperationFailed("not ready".to_string());
    assert_eq!(err.to_string(), "Plugin operation failed: not ready");

    let err = PluginError::Other("unknown".to_string());
    assert_eq!(err.to_string(), "Plugin error: unknown");
}
