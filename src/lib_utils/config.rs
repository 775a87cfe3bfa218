//! The settings of one run.
use crate::lib_utils::input_file_type::InputFileType;
use crate::pdf::generator::{default_pdf_meta_name, default_report_title, ReportConfig};
use vstd::prelude::*;
use vstd::string::*;

verus! {

/// The settings of one run, gathered once from the environment.
#[derive(Clone, Debug, PartialEq, Eq)]
pub struct Config {
    /// The directory whose files are converted.
    pub working_dir: String,
    /// Whether a report without vulnerabilities says so.
    pub show_novulns_msg: bool,
    /// Whether JSON files are converted.
    pub process_json: bool,
    /// Whether XML files are converted.
    pub process_xml: bool,
    /// Whether to print the licenses instead of converting.
    pub show_oss_licenses: bool,
    /// Whether reports list the components of the document.
    pub show_components: bool,
    pub report_title: Option<String>,
    pub pdf_meta_name: Option<String>,
}

impl Config {
    /// Gathers the settings. At least one file type is always processed:
    /// when both are switched off, JSON is processed.
    pub fn new(
        working_dir: String,
        show_novulns_msg: bool,
        process_json: bool,
        process_xml: bool,
        show_oss_licenses: bool,
        show_components: bool,
        report_title: Option<String>,
        pdf_meta_name: Option<String>,
    ) -> (r: Config)
        ensures
            r == (Config {
                working_dir: working_dir,
                show_novulns_msg: show_novulns_msg,
                process_json: process_json || !process_xml,
                process_xml: process_xml,
                show_oss_licenses: show_oss_licenses,
                show_components: show_components,
                report_title: report_title,
                pdf_meta_name: pdf_meta_name,
            }),
    {
        Config {
            working_dir,
            show_novulns_msg,
            process_json: process_json || !process_xml,
            process_xml,
            show_oss_licenses,
            show_components,
            report_title,
            pdf_meta_name,
        }
    }

    /// The settings used when the environment sets nothing: every section and
    /// file type on, the licenses shown, and the default titles.
    pub fn with_defaults(working_dir: String) -> (r: Config)
        ensures
            r.working_dir == working_dir,
            r.show_novulns_msg && r.process_json && r.process_xml,
            r.show_oss_licenses && r.show_components,
            r.report_title is Some && r.report_title->0@ == default_report_title(),
            r.pdf_meta_name is Some && r.pdf_meta_name->0@ == default_pdf_meta_name(),
    {
        Config {
            working_dir,
            show_novulns_msg: true,
            process_json: true,
            process_xml: true,
            show_oss_licenses: true,
            show_components: true,
            report_title: Some(String::from_str(Self::get_default_report_title())),
            pdf_meta_name: Some(String::from_str(Self::get_default_pdf_meta_name())),
        }
    }

    /// The default title for the PDF metadata.
    pub fn get_default_pdf_meta_name() -> (r: &'static str)
        ensures
            r@ == default_pdf_meta_name(),
    {
        "VEX Vulnerability Report"
    }

    /// The default title of the report, shown on the first page.
    pub fn get_default_report_title() -> (r: &'static str)
        ensures
            r@ == default_report_title(),
    {
        "Vulnerability Report Document"
    }

    /// Whether files of type `ft` are converted.
    pub fn processes(&self, ft: InputFileType) -> (r: bool)
        ensures
            r == match ft {
                InputFileType::JSON => self.process_json,
                InputFileType::XML => self.process_xml,
            },
    {
        match ft {
            InputFileType::JSON => self.process_json,
            InputFileType::XML => self.process_xml,
        }
    }

    /// The content settings of the reports of this run.
    pub fn report_config(&self) -> (r: ReportConfig)
        ensures
            r == (ReportConfig {
                report_title: self.report_title,
                doc_meta_title: self.pdf_meta_name,
                show_empty_vulns_message: self.show_novulns_msg,
                show_components_section: self.show_components,
            }),
    {
        ReportConfig {
            report_title: self.report_title.clone(),
            doc_meta_title: self.pdf_meta_name.clone(),
            show_empty_vulns_message: self.show_novulns_msg,
            show_components_section: self.show_components,
        }
    }
}

} // verus!
