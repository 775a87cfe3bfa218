//! The settings the program reads from its environment, and how a setting's
//! text turns into a switch.
use vstd::prelude::*;

verus! {

/// A character with ASCII capitals mapped to lower case.
pub open spec fn ascii_fold(c: char) -> u32 {
    if 65 <= (c as u32) <= 90 {
        ((c as u32) + 32) as u32
    } else {
        c as u32
    }
}

/// Whether two texts are equal when ASCII letters are compared without case.
pub open spec fn eq_ignore_case(a: Seq<char>, b: Seq<char>) -> bool {
    a.len() == b.len() && forall|i: int| 0 <= i < a.len() ==> ascii_fold(a[i]) == ascii_fold(b[i])
}

/// Compares two texts, ignoring the case of ASCII letters.
pub fn eq_ignore_ascii_case(a: &str, b: &str) -> (r: bool)
    ensures
        r == eq_ignore_case(a@, b@),
{
    let n = a.unicode_len();
    if n != b.unicode_len() {
        return false;
    }
    let mut i: usize = 0;
    while i < n
        invariant
            n == a@.len() == b@.len(),
            i <= n,
            forall|j: int| 0 <= j < i ==> ascii_fold(a@[j]) == ascii_fold(b@[j]),
        decreases n - i,
    {
        let x = a.get_char(i) as u32;
        let y = b.get_char(i) as u32;
        let fx = if 65 <= x && x <= 90 {
            x + 32
        } else {
            x
        };
        let fy = if 65 <= y && y <= 90 {
            y + 32
        } else {
            y
        };
        if fx != fy {
            assert(ascii_fold(a@[i as int]) != ascii_fold(b@[i as int]));
            return false;
        }
        i = i + 1;
    }
    true
}

/// Whether a setting's text switches it on: anything but `false`, `off`,
/// `no` or `0`, in any case.
pub open spec fn value_on(v: Seq<char>) -> bool {
    !(eq_ignore_case(v, "false"@) || eq_ignore_case(v, "off"@) || eq_ignore_case(v, "no"@)
        || eq_ignore_case(v, "0"@))
}

/// The environment variables the program reads.
#[derive(Clone, Copy, Debug, PartialEq, Eq, Structural)]
pub enum EnvVarNames {
    /// The user's home directory.
    Home,
    /// Whether a report without vulnerabilities says so. When off, the
    /// vulnerabilities section is left out of such a report; when on or
    /// unset, it holds a "No Vulnerabilities reported" notice.
    NoVulnsMsg,
    /// Whether JSON files are processed.
    ProcessJson,
    /// Whether XML files are processed.
    ProcessXml,
    /// Whether to print the licenses of the program and its fonts instead of
    /// converting.
    ShowOssLicenses,
    /// Whether to print the version and copyright first.
    VersionInfo,
    /// The title shown on the first page of a report.
    ReportTitle,
    /// The title stored in the PDF metadata, which readers show in their
    /// window title.
    PdfName,
    /// Whether reports list the components of the document.
    ShowComponents,
}

impl EnvVarNames {
    pub open spec fn name(self) -> Seq<char> {
        match self {
            EnvVarNames::Home => "HOME"@,
            EnvVarNames::NoVulnsMsg => "VEX2PDF_NOVULNS_MSG"@,
            EnvVarNames::ProcessJson => "VEX2PDF_JSON"@,
            EnvVarNames::ProcessXml => "VEX2PDF_XML"@,
            EnvVarNames::ShowOssLicenses => "VEX2PDF_SHOW_OSS_LICENSES"@,
            EnvVarNames::VersionInfo => "VEX2PDF_VERSION_INFO"@,
            EnvVarNames::ReportTitle => "VEX2PDF_REPORT_TITLE"@,
            EnvVarNames::PdfName => "VEX2PDF_PDF_META_NAME"@,
            EnvVarNames::ShowComponents => "VEX2PDF_SHOW_COMPONENTS"@,
        }
    }

    /// The name of the variable.
    pub fn as_str(&self) -> (r: &'static str)
        ensures
            r@ == self.name(),
    {
        match self {
            EnvVarNames::Home => "HOME",
            EnvVarNames::NoVulnsMsg => "VEX2PDF_NOVULNS_MSG",
            EnvVarNames::ProcessJson => "VEX2PDF_JSON",
            EnvVarNames::ProcessXml => "VEX2PDF_XML",
            EnvVarNames::ShowOssLicenses => "VEX2PDF_SHOW_OSS_LICENSES",
            EnvVarNames::VersionInfo => "VEX2PDF_VERSION_INFO",
            EnvVarNames::ReportTitle => "VEX2PDF_REPORT_TITLE",
            EnvVarNames::PdfName => "VEX2PDF_PDF_META_NAME",
            EnvVarNames::ShowComponents => "VEX2PDF_SHOW_COMPONENTS",
        }
    }

    /// Whether `value` switches the setting on: anything but `false`, `off`,
    /// `no` or `0`, in any case.
    pub fn is_value_on(&self, value: &str) -> (r: bool)
        ensures
            r == value_on(value@),
    {
        !(eq_ignore_ascii_case(value, "false") || eq_ignore_ascii_case(value, "off")
            || eq_ignore_ascii_case(value, "no") || eq_ignore_ascii_case(value, "0"))
    }

    /// Whether a setting that is off by default is on, given its value in
    /// the environment (`None` when unset).
    pub fn is_on(&self, value: &Option<String>) -> (r: bool)
        ensures
            r == match value {
                Some(v) => value_on(v@),
                None => false,
            },
    {
        match value {
            Some(v) => self.is_value_on(v.as_str()),
            None => false,
        }
    }

    /// Whether a setting that is on by default is on, given its value in the
    /// environment (`None` when unset).
    pub fn is_on_or_unset(&self, value: &Option<String>) -> (r: bool)
        ensures
            r == match value {
                Some(v) => value_on(v@),
                None => true,
            },
    {
        match value {
            Some(v) => self.is_value_on(v.as_str()),
            None => true,
        }
    }
}

} // verus!
