//! The environment variables consulted when locating glyph sources.
use vstd::prelude::*;

verus! {

/// The environment variables consulted when locating glyph sources.
#[derive(Clone, Copy, Debug, PartialEq, Eq, Structural)]
pub enum EnvVarNames {
    /// The user's home directory, under which the user font directory lies.
    Home,
    /// A directory to take font files from, tried before the standard
    /// locations.
    FontsPath,
    /// Whether a report without vulnerabilities says so.
    NoVulnsMsg,
}

impl EnvVarNames {
    pub open spec fn name(self) -> Seq<char> {
        match self {
            EnvVarNames::Home => "HOME"@,
            EnvVarNames::FontsPath => "VEX2PDF_FONTS_PATH"@,
            EnvVarNames::NoVulnsMsg => "VEX2PDF_NOVULNS_MSG"@,
        }
    }

    /// The name of the variable.
    pub fn as_str(&self) -> (r: &'static str)
        ensures
            r@ == self.name(),
    {
        match self {
            EnvVarNames::Home => "HOME",
            EnvVarNames::FontsPath => "VEX2PDF_FONTS_PATH",
            EnvVarNames::NoVulnsMsg => "VEX2PDF_NOVULNS_MSG",
        }
    }
}

} // verus!
