//! What the project manifest says of the program that is uploaded.

use vstd::prelude::*;

verus! {

/// The description of the manifest that stands in where a project has
/// none.
pub const DEFAULT_DESCRIPTION: &'static str =
    "Default Project Description. Your project may be missing a Cargo.toml, or you are not in your project's root directory.";

/// The `package` table of a project manifest.
#[derive(Debug)]
pub struct Package {
    pub name: String,
    pub version: String,
    pub description: Option<String>,
}

/// A project manifest, as far as an upload needs it.
#[derive(Debug)]
pub struct CargoToml {
    pub package: Package,
}

impl Default for CargoToml {
    /// The manifest that stands in where a project has none.
    fn default() -> (manifest: CargoToml)
        ensures
            manifest.package.name@ == "Default Project Name"@,
            manifest.package.version@ == "1.0.0"@,
            manifest.package.description matches Some(text) && text@ == DEFAULT_DESCRIPTION@,
    {
        CargoToml {
            package: Package {
                name: "Default Project Name".to_owned(),
                version: "1.0.0".to_owned(),
                description: Some(DEFAULT_DESCRIPTION.to_owned()),
            },
        }
    }
}

} // verus!
