//! The handoff of the resolved log level to the logging subsystem.

use vstd::prelude::*;
use crate::resolver::AhConfig;

verus! {

/// Calls `enable_logging` of `sdre_rust_logging::SetupLogging` on the
/// level: the crate installs its logger for the process, at the level that
/// the text names, and keeps quiet where one is installed already. It
/// returns nothing, so nothing is claimed of it.
#[verifier::external_body]
fn install_logger(level: &String) {
    sdre_rust_logging::SetupLogging::enable_logging(level);
}

impl AhConfig {
    /// Hands the resolved log level to the logging subsystem.
    pub fn enable_logging(&self) {
        install_logger(&self.log_level);
    }
}

} // verus!
