use vex2pdf::lib_utils::config::Config;
use vex2pdf::lib_utils::env_vars::{eq_ignore_ascii_case, EnvVarNames};
use vex2pdf::lib_utils::input_file_type::InputFileType;
use vex2pdf::lib_utils::run_utils::{get_output_pdf_path, matches_file_type};
use vex2pdf::run_utils::env_vars::EnvVarNames as FontVars;

#[test]
fn test_is_value_on_private() {
    let var = EnvVarNames::ProcessJson;
    for value in &[
        "true",
        "True",
        "TRUE",
        "yes",
        "YES",
        "1",
        "on",
        "ON",
        "anything_else",
    ] {
        assert_eq!(
            var.is_value_on(value),
            true,
            "is_value_on() failed for value: {}",
            value
        );
    }
    for value in &["false", "False", "FALSE", "no", "NO", "0", "off", "OFF"] {
        assert_eq!(
            var.is_value_on(value),
            false,
            "is_value_on() failed for value: {}",
            value
        );
    }
}

#[test]
fn test_env_var_behavior() {
    let var = EnvVarNames::ProcessXml;
    assert_eq!(var.is_on(&None), false, "is_on() should return false when var not set");
    for value in &["true", "True", "TRUE", "yes", "YES", "1", "on", "ON"] {
        assert_eq!(var.is_on(&Some(value.to_string())), true, "is_on() failed for value: {}", value);
    }
    for value in &["false", "False", "FALSE", "no", "NO", "0", "off", "OFF"] {
        assert_eq!(var.is_on(&Some(value.to_string())), false, "is_on() failed for value: {}", value);
    }
    assert_eq!(
        var.is_on_or_unset(&None),
        true,
        "is_on_or_unset() should return true when var not set"
    );
    for value in &["true", "True", "TRUE", "yes", "YES", "1", "on", "ON"] {
        assert_eq!(
            var.is_on_or_unset(&Some(value.to_string())),
            true,
            "is_on_or_unset() failed for value: {}",
            value
        );
    }
    for value in &["false", "False", "FALSE", "no", "NO", "0", "off", "OFF"] {
        assert_eq!(
            var.is_on_or_unset(&Some(value.to_string())),
            false,
            "is_on_or_unset() failed for value: {}",
            value
        );
    }
}

#[test]
fn variable_names() {
    assert_eq!(EnvVarNames::Home.as_str(), "HOME");
    assert_eq!(EnvVarNames::NoVulnsMsg.as_str(), "VEX2PDF_NOVULNS_MSG");
    assert_eq!(EnvVarNames::ProcessJson.as_str(), "VEX2PDF_JSON");
    assert_eq!(EnvVarNames::ProcessXml.as_str(), "VEX2PDF_XML");
    assert_eq!(EnvVarNames::ShowOssLicenses.as_str(), "VEX2PDF_SHOW_OSS_LICENSES");
    assert_eq!(EnvVarNames::VersionInfo.as_str(), "VEX2PDF_VERSION_INFO");
    assert_eq!(EnvVarNames::ReportTitle.as_str(), "VEX2PDF_REPORT_TITLE");
    assert_eq!(EnvVarNames::PdfName.as_str(), "VEX2PDF_PDF_META_NAME");
    assert_eq!(EnvVarNames::ShowComponents.as_str(), "VEX2PDF_SHOW_COMPONENTS");
    assert_eq!(FontVars::FontsPath.as_str(), "VEX2PDF_FONTS_PATH");
    assert_eq!(FontVars::Home.as_str(), "HOME");
    assert_eq!(FontVars::NoVulnsMsg.as_str(), "VEX2PDF_NOVULNS_MSG");
}

#[test]
fn ascii_case_comparison() {
    assert!(eq_ignore_ascii_case("JsOn", "json"));
    assert!(!eq_ignore_ascii_case("json", "jso"));
    assert!(!eq_ignore_ascii_case("json", "xml!"));
    assert!(eq_ignore_ascii_case("", ""));
    assert!(!eq_ignore_ascii_case("ä", "Ä"));
}

#[test]
fn file_type_names_and_matching() {
    assert_eq!(InputFileType::XML.as_str_lowercase(), "xml");
    assert_eq!(InputFileType::JSON.as_str_lowercase(), "json");
    assert_eq!(InputFileType::XML.as_str_uppercase(), "XML");
    assert_eq!(InputFileType::JSON.as_str_uppercase(), "JSON");
    assert!(matches_file_type("JSON", InputFileType::JSON));
    assert!(matches_file_type("xml", InputFileType::XML));
    assert!(!matches_file_type("xml", InputFileType::JSON));
    assert!(!matches_file_type("jsonl", InputFileType::JSON));
}

#[test]
fn output_path_replaces_extension() {
    assert_eq!(get_output_pdf_path("dir/report.json"), "dir/report.pdf");
    assert_eq!(get_output_pdf_path("/a/b/vex.cdx.xml"), "/a/b/vex.cdx.pdf");
    assert_eq!(get_output_pdf_path("noext"), "noext.pdf");
    assert_eq!(get_output_pdf_path("dir.d/.hidden"), "dir.d/.hidden.pdf");
    assert_eq!(get_output_pdf_path("dir.d/file"), "dir.d/file.pdf");
    assert_eq!(get_output_pdf_path("dir/"), "dir.pdf");
    assert_eq!(get_output_pdf_path("dir/."), "dir.pdf");
    assert_eq!(get_output_pdf_path("a/b/"), "a/b.pdf");
    assert_eq!(get_output_pdf_path("a/b/./"), "a/b.pdf");
    assert_eq!(get_output_pdf_path("a//b.json"), "a/b.pdf");
    assert_eq!(get_output_pdf_path("a/./b.json"), "a/b.pdf");
    assert_eq!(get_output_pdf_path("./b.json"), "./b.pdf");
    assert_eq!(get_output_pdf_path("/b.json"), "/b.pdf");
    assert_eq!(get_output_pdf_path("a.tar.json"), "a.tar.pdf");
    assert_eq!(get_output_pdf_path("README"), "README.pdf");
    assert_eq!(get_output_pdf_path("..foo"), "..pdf");
    assert_eq!(get_output_pdf_path("/"), "/");
    assert_eq!(get_output_pdf_path(""), "");
    assert_eq!(get_output_pdf_path("."), ".");
    assert_eq!(get_output_pdf_path("a/.."), "a/..");
}

#[test]
fn config_always_processes_some_file_type() {
    let c = Config::new(".".to_string(), true, false, false, false, true, None, None);
    assert!(c.process_json);
    assert!(!c.process_xml);
    assert!(c.processes(InputFileType::JSON));
    let c = Config::new(".".to_string(), true, false, true, false, true, None, None);
    assert!(!c.process_json);
    assert!(c.processes(InputFileType::XML));
}

#[test]
fn config_defaults() {
    let c = Config::with_defaults("/tmp".to_string());
    assert!(c.show_components);
    assert!(c.show_novulns_msg);
    assert!(c.process_json && c.process_xml && c.show_oss_licenses);
    assert_eq!(c.report_title.as_deref(), Some("Vulnerability Report Document"));
    assert_eq!(c.pdf_meta_name.as_deref(), Some("VEX Vulnerability Report"));
    assert_eq!(Config::get_default_report_title(), "Vulnerability Report Document");
    assert_eq!(Config::get_default_pdf_meta_name(), "VEX Vulnerability Report");
    let rc = c.report_config();
    assert!(rc.show_empty_vulns_message && rc.show_components_section);
    assert_eq!(rc.document_title(), "Vulnerability Report Document");
    assert_eq!(rc.pdf_title(), "VEX Vulnerability Report");
}
