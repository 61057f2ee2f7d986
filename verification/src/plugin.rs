//! Plugins: the information every plugin gives about itself, and the errors of
//! the plugin lifecycle.

use vstd::prelude::*;
use vstd::string::*;

verus! {

/// The information of a plugin.
#[derive(Debug, Clone, PartialEq, Eq)]
pub struct PluginInfo {
    pub name: &'static str,
    pub category: PluginCategory,
}

/// The category of a plugin.
#[derive(Debug, Clone, Copy, PartialEq, Eq, Structural)]
pub enum PluginCategory {
    // High level
    Sensor,
    Effector,
    Service,
    Api,
    // Low level
    Embedding,
    EventGenerator,
    ActionSelector,
}

/// Every plugin gives its information through `info`.
pub trait Plugin {
    fn info(&self) -> &'static PluginInfo;
}

/// An error of the plugin lifecycle.
#[derive(Debug)]
pub enum PluginError {
    /// The plugin failed to initialize from its configuration.
    InitializationFailed(String),
    /// The plugin failed to start.
    StartupFailed(String),
    /// The plugin failed to shut down.
    ShutdownFailed(String),
    /// A plugin operation failed.
    OperationFailed(String),
    /// Any other plugin error.
    Other(String),
}

/// The text of a plugin error: a phrase for its kind, a colon, and its message.
pub open spec fn plugin_error_text(e: PluginError) -> Seq<char> {
    match e {
        PluginError::InitializationFailed(m) => "Plugin initialization failed: "@ + m@,
        PluginError::StartupFailed(m) => "Plugin startup failed: "@ + m@,
        PluginError::ShutdownFailed(m) => "Plugin shutdown failed: "@ + m@,
        PluginError::OperationFailed(m) => "Plugin operation failed: "@ + m@,
        PluginError::Other(m) => "Plugin error: "@ + m@,
    }
}

/// `prefix` followed by `message`.
pub fn prefixed(prefix: &str, message: &str) -> (r: String)
    ensures
        r@ == prefix@ + message@,
{
    let mut r = String::from_str(prefix);
    r.append(message);
    r
}

impl PluginError {
    /// The text of the error (see `plugin_error_text`).
    pub fn to_string(&self) -> (r: String)
        ensures
            r@ == plugin_error_text(*self),
    {
        match self {
            PluginError::InitializationFailed(m) => prefixed(
                "Plugin initialization failed: ",
                m.as_str(),
            ),
            PluginError::StartupFailed(m) => prefixed("Plugin startup failed: ", m.as_str()),
            PluginError::ShutdownFailed(m) => prefixed("Plugin shutdown failed: ", m.as_str()),
            PluginError::OperationFailed(m) => prefixed("Plugin operation failed: ", m.as_str()),
            PluginError::Other(m) => prefixed("Plugin error: ", m.as_str()),
        }
    }
}

} // verus!
