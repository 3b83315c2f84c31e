//! Global settings of the configuration document.  This core treats them
//! as opaque data: they affect the plugin's lifecycle, not the store.

use vstd::prelude::*;

verus! {

/// Global configuration: optional version constraints on the plugin and
/// on Helm itself.
#[derive(Clone, Debug, PartialEq, Eq)]
pub struct Global {
    /// Version constraint the plugin must satisfy.
    pub plugin: Option<String>,

    /// Version constraint Helm must satisfy.
    pub helm: Option<String>,
}

impl Default for Global {
    fn default() -> (r: Global)
        ensures
            r.plugin is None,
            r.helm is None,
    {
        Global { plugin: None, helm: None }
    }
}

} // verus!
