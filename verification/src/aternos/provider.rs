//! The provider that starts a server through a browser.

use vstd::prelude::*;
use crate::config::ArtifactCapture;
use crate::environment::AternosConfig;

verus! {

/// The settings of the browser-backed provider.
#[derive(Clone, Debug)]
pub struct BrowserAternosProvider {
    pub config: AternosConfig,
    pub artifact_dir: String,
    pub artifact_capture: ArtifactCapture,
}

impl BrowserAternosProvider {
    /// A provider with these settings.
    pub fn new(
        config: AternosConfig,
        artifact_dir: String,
        artifact_capture: ArtifactCapture,
    ) -> (r: BrowserAternosProvider)
        ensures
            r == (BrowserAternosProvider { config, artifact_dir, artifact_capture }),
    {
        BrowserAternosProvider { config, artifact_dir, artifact_capture }
    }

    /// The name of the provider.
    pub fn name(&self) -> (r: &'static str)
        ensures
            r@ == "aternos"@,
    {
        "aternos"
    }
}

} // verus!
