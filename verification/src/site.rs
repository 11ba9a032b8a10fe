//! The description of a managed site.

use std::path::PathBuf;
use vstd::prelude::*;

verus! {

/// `std::path::PathBuf`, carried through as an opaque value: nothing in this
/// crate looks inside a path.
#[verifier::external_type_specification]
#[verifier::external_body]
pub struct ExPathBuf(PathBuf);

/// The deployment stage of a site.
#[derive(Debug, Clone, Copy, PartialEq, Eq)]
pub enum Environment {
    Development,
    Staging,
    Production,
}

/// A managed site: where it lives and which WP-CLI executable serves it.
///
/// Neither path is checked here. A path that does not exist shows when the
/// process fails to launch.
#[derive(Debug, PartialEq, Eq)]
pub struct WPSite {
    /// Identifier, unique per site.
    pub id: String,
    /// Display name.
    pub name: String,
    /// Root directory of the site.
    pub path: PathBuf,
    /// The WP-CLI executable to run for this site.
    pub wp_cli_path: PathBuf,
    /// Deployment stage.
    pub environment: Environment,
}

} // verus!
