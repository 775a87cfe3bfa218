//! A CycloneDX bill of materials with its vulnerability (VEX) section, as
//! the report reads it. A parser fills these records; the report composer
//! only reads them.
use vstd::prelude::*;
use vstd::string::*;

verus! {

/// The root of a CycloneDX VEX document.
#[derive(Clone, Debug, PartialEq, Eq)]
pub struct CycloneDxVex {
    /// The format family; `"CycloneDX"` in a well-formed document.
    pub bom_format: String,
    /// The dotted schema version the document declares, such as `"1.5"`.
    pub spec_version: String,
    /// The revision counter of the document; 1 for a first revision.
    pub version: u32,
    /// A globally unique identifier of this document instance.
    pub serial_number: Option<String>,
    pub metadata: Option<Metadata>,
    pub components: Option<Vec<Component>>,
    pub services: Option<Vec<Service>>,
    pub external_references: Option<Vec<ExternalReference>>,
    pub dependencies: Option<Vec<Dependency>>,
    pub compositions: Option<Vec<Composition>>,
    pub vulnerabilities: Option<Vec<Vulnerability>>,
}

impl CycloneDxVex {
    /// Checks that the document belongs to the CycloneDX format family,
    /// which is required before it is rendered.
    pub fn validate(&self) -> (r: Result<(), String>)
        ensures
            r is Ok <==> self.bom_format@ == "CycloneDX"@,
            r is Err ==> r->Err_0@ == "bomFormat must be 'CycloneDX'"@,
    {
        if self.bom_format == String::from_str("CycloneDX") {
            Ok(())
        } else {
            Err(String::from_str("bomFormat must be 'CycloneDX'"))
        }
    }
}

/// Information about the document as a whole.
#[derive(Clone, Debug, PartialEq, Eq)]
pub struct Metadata {
    pub timestamp: Option<String>,
    pub tools: Option<Tools>,
    pub authors: Option<Vec<Individual>>,
    /// The component the document describes.
    pub component: Option<Component>,
    pub licenses: Option<Licenses>,
}

/// A tool in the flat list shape of the tools section.
#[derive(Clone, Debug, PartialEq, Eq)]
pub struct Tool {
    pub vendor: Option<String>,
    pub name: Option<String>,
    pub version: Option<String>,
}

/// The grouped shape of the tools section.
#[derive(Clone, Debug, PartialEq, Eq)]
pub struct ModernTools {
    pub components: Option<Vec<Component>>,
    pub services: Option<Vec<Service>>,
}

/// The tools that produced the document, in one of two encodings that carry
/// the same content.
#[derive(Clone, Debug, PartialEq, Eq)]
pub enum Tools {
    Modern(ModernTools),
    Legacy(Vec<Tool>),
}

#[derive(Clone, Debug, PartialEq, Eq)]
pub struct Component {
    pub component_type: String,
    pub bom_ref: Option<String>,
    pub group: Option<String>,
    pub name: String,
    pub version: Option<String>,
    pub description: Option<String>,
    pub purl: Option<String>,
    pub licenses: Option<Licenses>,
}

#[derive(Clone, Debug, PartialEq, Eq)]
pub struct Service {
    pub bom_ref: Option<String>,
    pub group: Option<String>,
    pub name: String,
    pub version: Option<String>,
    pub description: Option<String>,
}

#[derive(Clone, Debug, PartialEq, Eq)]
pub struct Individual {
    pub name: String,
    pub email: Option<String>,
    pub url: Option<String>,
}

#[derive(Clone, Debug, PartialEq, Eq)]
pub struct Organization {
    pub name: String,
    pub email: Option<String>,
    pub url: Option<String>,
}

#[derive(Clone, Debug, PartialEq, Eq)]
pub struct Licenses {
    pub license: Option<Vec<License>>,
    pub expression: Option<String>,
}

#[derive(Clone, Debug, PartialEq, Eq)]
pub struct License {
    pub id: Option<String>,
    pub name: Option<String>,
    pub text: Option<LicenseText>,
    pub url: Option<String>,
}

#[derive(Clone, Debug, PartialEq, Eq)]
pub struct LicenseText {
    pub content: String,
    pub content_type: Option<String>,
    pub encoding: Option<String>,
}

#[derive(Clone, Debug, PartialEq, Eq)]
pub struct ExternalReference {
    pub url: String,
    pub reference_type: String,
    pub comment: Option<String>,
}

/// The components that one component depends on.
#[derive(Clone, Debug, PartialEq, Eq)]
pub struct Dependency {
    pub ref_field: String,
    pub depends_on: Option<Vec<String>>,
}

/// How complete the inventory of some part of the document is.
#[derive(Clone, Debug, PartialEq, Eq)]
pub struct Composition {
    pub aggregate: String,
    pub assemblies: Option<Vec<String>>,
    pub dependencies: Option<Vec<String>>,
}

/// One vulnerability and what is known of it.
#[derive(Clone, Debug, PartialEq, Eq)]
pub struct Vulnerability {
    pub id: Option<String>,
    pub description: Option<String>,
    pub ratings: Option<Vec<Rating>>,
    pub analysis: Option<Analysis>,
    pub advisories: Option<Vec<Advisory>>,
    pub credits: Option<Credits>,
    pub affects: Option<Vec<Affects>>,
}

/// One scoring of a vulnerability.
#[derive(Clone, Debug, PartialEq, Eq)]
pub struct Rating {
    pub severity: Option<String>,
    pub method: Option<String>,
    pub source: Option<Source>,
}

/// Where a rating comes from.
#[derive(Clone, Debug, PartialEq, Eq)]
pub struct Source {
    pub name: Option<String>,
    pub url: Option<String>,
}

/// The impact analysis of a vulnerability.
#[derive(Clone, Debug, PartialEq, Eq)]
pub struct Analysis {
    pub state: Option<AnalysisState>,
    pub detail: Option<String>,
}

/// The state of an impact analysis.
#[derive(Clone, Copy, Debug, PartialEq, Eq, Structural)]
pub enum AnalysisState {
    NotAffected,
    Exploitable,
    InTriage,
    Resolved,
    FalsePositive,
    Unknown,
}

#[derive(Clone, Debug, PartialEq, Eq)]
pub struct Advisory {
    pub title: Option<String>,
    pub url: Option<String>,
}

/// Who found or reported a vulnerability.
#[derive(Clone, Debug, PartialEq, Eq)]
pub struct Credits {
    pub individuals: Option<Vec<Individual>>,
    pub organizations: Option<Vec<Organization>>,
}

/// A component that a vulnerability affects, by reference.
#[derive(Clone, Debug, PartialEq, Eq)]
pub struct Affects {
    pub ref_: String,
    pub reference: Option<String>,
}

} // verus!
