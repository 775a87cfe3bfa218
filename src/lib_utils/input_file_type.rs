//! The encodings a VEX document can arrive in.
use vstd::prelude::*;

verus! {

/// The file formats a VEX document can be read from.
#[derive(Clone, Copy, Debug, PartialEq, Eq, Hash, Structural)]
pub enum InputFileType {
    /// A VEX document in XML format.
    XML,
    /// A VEX document in JSON format.
    JSON,
}

impl InputFileType {
    /// The lowercase name of the format, as used for file extensions.
    pub open spec fn lowercase_name(self) -> Seq<char> {
        match self {
            InputFileType::XML => "xml"@,
            InputFileType::JSON => "json"@,
        }
    }

    /// The uppercase name of the format, as used in messages.
    pub open spec fn uppercase_name(self) -> Seq<char> {
        match self {
            InputFileType::XML => "XML"@,
            InputFileType::JSON => "JSON"@,
        }
    }

    /// Returns `"xml"` or `"json"`.
    pub fn as_str_lowercase(&self) -> (r: &'static str)
        ensures
            r@ == self.lowercase_name(),
    {
        match self {
            InputFileType::XML => "xml",
            InputFileType::JSON => "json",
        }
    }

    /// Returns `"XML"` or `"JSON"`.
    pub fn as_str_uppercase(&self) -> (r: &'static str)
        ensures
            r@ == self.uppercase_name(),
    {
        match self {
            InputFileType::XML => "XML",
            InputFileType::JSON => "JSON",
        }
    }
}

} // verus!
