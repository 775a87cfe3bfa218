use vex2pdf::lib_utils::input_file_type::InputFileType;
use vex2pdf::lib_utils::version_shim::normalize;
use vex2pdf::model::cyclonedx::{
    Analysis, AnalysisState, Component, CycloneDxVex, Metadata, ModernTools, Rating, Service,
    Source, Tool, Tools, Vulnerability,
};
use vex2pdf::pdf::generator::{
    compose, decimal_string, fmt_analysis_state, rating_entries, tool_display_names, Block,
    Emphasis, FrameStyle, PdfGenerator, ReportConfig,
};

fn s(t: &str) -> String {
    t.to_string()
}

fn doc() -> CycloneDxVex {
    CycloneDxVex {
        bom_format: s("CycloneDX"),
        spec_version: s("1.5"),
        version: 1,
        serial_number: None,
        metadata: None,
        components: None,
        services: None,
        external_references: None,
        dependencies: None,
        compositions: None,
        vulnerabilities: None,
    }
}

fn vuln(id: Option<&str>, ratings: Option<Vec<Rating>>) -> Vulnerability {
    Vulnerability {
        id: id.map(s),
        description: None,
        ratings,
        analysis: None,
        advisories: None,
        credits: None,
        affects: None,
    }
}

fn component(name: &str, version: Option<&str>) -> Component {
    Component {
        component_type: s("library"),
        bom_ref: None,
        group: None,
        name: s(name),
        version: version.map(s),
        description: None,
        purl: None,
        licenses: None,
    }
}

fn config(show_empty: bool, show_components: bool) -> ReportConfig {
    ReportConfig {
        report_title: None,
        doc_meta_title: None,
        show_empty_vulns_message: show_empty,
        show_components_section: show_components,
    }
}

fn is_vulns_heading(b: &Block) -> bool {
    matches!(b, Block::Heading(t, 2) if t == "Vulnerabilities")
}

fn texts(b: &Block) -> Vec<String> {
    match b {
        Block::Paragraph(spans) => spans.iter().map(|sp| sp.text.clone()).collect(),
        Block::Heading(t, _) | Block::UnorderedItem(t) | Block::Framed(t, _) => vec![t.clone()],
        _ => vec![],
    }
}

#[test]
fn empty_vulnerabilities_hidden_when_message_off() {
    let blocks = compose(&doc(), &config(false, true));
    assert!(!blocks.iter().any(is_vulns_heading));
    assert!(!blocks.iter().any(|b| matches!(b, Block::Framed(..))));
}

#[test]
fn empty_vulnerabilities_announced_when_message_on() {
    let blocks = compose(&doc(), &config(true, true));
    assert_eq!(blocks.iter().filter(|b| is_vulns_heading(b)).count(), 1);
    let framed: Vec<&Block> = blocks.iter().filter(|b| matches!(b, Block::Framed(..))).collect();
    assert_eq!(framed.len(), 1);
    assert!(matches!(framed[0], Block::Framed(t, FrameStyle::Notice) if t == "No Vulnerabilities reported"));
}

#[test]
fn empty_vulnerability_list_counts_as_none() {
    let mut d = doc();
    d.vulnerabilities = Some(vec![]);
    let blocks = compose(&d, &config(false, true));
    assert!(!blocks.iter().any(is_vulns_heading));
}

#[test]
fn rating_without_severity_is_not_listed() {
    let ratings = vec![
        Rating { severity: None, method: Some(s("CVSSv31")), source: Some(Source { name: Some(s("NVD")), url: None }) },
        Rating { severity: Some(s("high")), method: Some(s("CVSSv31")), source: None },
        Rating { severity: None, method: None, source: None },
    ];
    assert_eq!(rating_entries(&ratings), vec![s("high (CVSSv31)")]);
}

#[test]
fn rating_entry_format() {
    let ratings = vec![
        Rating { severity: Some(s("critical")), method: None, source: Some(Source { name: Some(s("NVD")), url: None }) },
        Rating { severity: Some(s("low")), method: Some(s("OWASP")), source: Some(Source { name: None, url: None }) },
    ];
    assert_eq!(
        rating_entries(&ratings),
        vec![s("critical (N/A) — Source: NVD"), s("low (OWASP)")]
    );
}

#[test]
fn tools_union_reduces_to_same_list() {
    let legacy = Tools::Legacy(vec![Tool { vendor: None, name: Some(s("A")), version: Some(s("1")) }]);
    let modern = Tools::Modern(ModernTools { components: Some(vec![component("A", Some("1"))]), services: None });
    assert_eq!(tool_display_names(&legacy), vec![s("A (v1)")]);
    assert_eq!(tool_display_names(&modern), vec![s("A (v1)")]);
}

#[test]
fn modern_tools_list_components_then_services() {
    let modern = Tools::Modern(ModernTools {
        components: Some(vec![component("scanner", None)]),
        services: Some(vec![Service { bom_ref: None, group: None, name: s("api"), version: Some(s("2.0")), description: None }]),
    });
    assert_eq!(tool_display_names(&modern), vec![s("scanner"), s("api (v2.0)")]);
    let legacy = Tools::Legacy(vec![
        Tool { vendor: Some(s("v")), name: None, version: Some(s("9")) },
        Tool { vendor: None, name: Some(s("b")), version: None },
    ]);
    assert_eq!(tool_display_names(&legacy), vec![s("b")]);
}

#[test]
fn composing_twice_gives_same_blocks() {
    let mut d = doc();
    d.vulnerabilities = Some(vec![vuln(Some("CVE-1"), None)]);
    let cfg = config(true, true);
    assert_eq!(format!("{:?}", compose(&d, &cfg)), format!("{:?}", compose(&d, &cfg)));
}

#[test]
fn minimal_report_layout() {
    let mut d = doc();
    d.serial_number = Some(s("urn:uuid:1"));
    d.version = 12;
    let blocks = compose(&d, &config(false, false));
    let all: Vec<Vec<String>> = blocks.iter().map(texts).collect();
    assert_eq!(
        all,
        vec![
            vec![s("Vulnerability Report Document")],
            vec![],
            vec![s("BOM Format: CycloneDX")],
            vec![s("Specification Version: 1.5")],
            vec![s("Version: 12")],
            vec![s("Serial Number: urn:uuid:1")],
            vec![],
        ]
    );
    assert!(matches!(blocks[0], Block::Heading(_, 1)));
    assert!(matches!(blocks[1], Block::Spacer(2)));
    assert!(matches!(blocks[6], Block::Spacer(4)));
}

#[test]
fn metadata_section() {
    let mut d = doc();
    d.metadata = Some(Metadata {
        timestamp: Some(s("2024-01-01T00:00:00Z")),
        tools: Some(Tools::Legacy(vec![Tool { vendor: None, name: Some(s("my_tool")), version: None }])),
        authors: None,
        component: Some(component("app", None)),
        licenses: None,
    });
    let cfg = ReportConfig { report_title: Some(s("Custom")), ..config(false, false) };
    let blocks = compose(&d, &cfg);
    let all: Vec<Vec<String>> = blocks.iter().map(texts).collect();
    assert_eq!(all[0], vec![s("Custom")]);
    assert_eq!(all[2], vec![s("Document Information")]);
    assert_eq!(all[4], vec![s("Date: 2024-01-01T00:00:00Z")]);
    assert_eq!(all[6], vec![s("Tools:")]);
    assert!(matches!(&blocks[7], Block::UnorderedItem(t) if t == "my_tool"));
    assert_eq!(all[9], vec![s("Component name: "), s("app")]);
}

#[test]
fn components_section_respects_switch() {
    let mut d = doc();
    d.components = Some(vec![component("lib", Some("1.2.3")), component("other", None)]);
    let shown = compose(&d, &config(false, true));
    let all: Vec<Vec<String>> = shown.iter().map(texts).collect();
    let at = all.iter().position(|t| t == &vec![s("Components")]).unwrap();
    assert_eq!(all[at + 2], vec![s("Name: lib")]);
    assert_eq!(all[at + 3], vec![s("Version: 1.2.3")]);
    assert_eq!(all[at + 5], vec![s("Name: other")]);
    assert_eq!(shown.len(), at + 7);
    let hidden = compose(&d, &config(false, false));
    assert!(!hidden.iter().map(texts).any(|t| t == vec![s("Components")]));
}

#[test]
fn analysis_is_shown_with_state_and_detail() {
    let mut v = vuln(None, None);
    v.description = Some(s("bad"));
    v.analysis = Some(Analysis { state: Some(AnalysisState::NotAffected), detail: Some(s("unused")) });
    let mut d = doc();
    d.vulnerabilities = Some(vec![v]);
    let blocks = compose(&d, &config(true, false));
    let item = blocks.iter().find_map(|b| match b { Block::OrderedItem(c) => Some(c), _ => None }).unwrap();
    let all: Vec<Vec<String>> = item.iter().map(texts).collect();
    assert_eq!(all[0], vec![s("ID: N/A")]);
    assert_eq!(all[1], vec![s("Description: "), s("bad")]);
    assert_eq!(all[3], vec![s("Analysis:")]);
    assert_eq!(all[4], vec![s("  state: "), s("not_affected")]);
    assert_eq!(all[5], vec![s("  detail: "), s("unused")]);
    match &item[1] {
        Block::Paragraph(sp) => {
            assert_eq!(sp[0].emphasis, Emphasis::IndentBold);
            assert_eq!(sp[1].emphasis, Emphasis::Indent);
        }
        _ => panic!("expected a paragraph"),
    }
}

#[test]
fn absent_state_and_empty_detail() {
    let mut v = vuln(Some("X"), None);
    v.analysis = Some(Analysis { state: None, detail: Some(s("")) });
    let mut d = doc();
    d.vulnerabilities = Some(vec![v]);
    let blocks = compose(&d, &config(true, false));
    let item = blocks.iter().find_map(|b| match b { Block::OrderedItem(c) => Some(c), _ => None }).unwrap();
    let all: Vec<Vec<String>> = item.iter().map(texts).collect();
    assert_eq!(all[0], vec![s("ID: X")]);
    assert_eq!(all[4], vec![s("  state: "), s("unknown")]);
    assert!(matches!(item[5], Block::Spacer(1)));
}

#[test]
fn analysis_state_labels() {
    assert_eq!(fmt_analysis_state(&AnalysisState::NotAffected), "not_affected");
    assert_eq!(fmt_analysis_state(&AnalysisState::Exploitable), "exploitable");
    assert_eq!(fmt_analysis_state(&AnalysisState::InTriage), "in_triage");
    assert_eq!(fmt_analysis_state(&AnalysisState::Resolved), "resolved");
    assert_eq!(fmt_analysis_state(&AnalysisState::FalsePositive), "false_positive");
    assert_eq!(fmt_analysis_state(&AnalysisState::Unknown), "unknown");
}

#[test]
fn decimal_formatting() {
    assert_eq!(decimal_string(0), "0");
    assert_eq!(decimal_string(7), "7");
    assert_eq!(decimal_string(10), "10");
    assert_eq!(decimal_string(4294967295), "4294967295");
}

#[test]
fn generator_titles_and_defaults() {
    let g = PdfGenerator::default();
    assert_eq!(g.config.document_title(), "Vulnerability Report Document");
    assert_eq!(g.config.pdf_title(), "VEX Vulnerability Report");
    assert!(g.config.show_empty_vulns_message && g.config.show_components_section);
    assert_eq!(PdfGenerator::get_default_report_title(), "Vulnerability Report Document");
    assert_eq!(PdfGenerator::get_default_pdf_meta_name(), "VEX Vulnerability Report");
    let g = PdfGenerator::new(Some(s("T")), Some(s("M")), false, false);
    assert_eq!(g.config.document_title(), "T");
    assert_eq!(g.config.pdf_title(), "M");
    assert!(!g.config.show_empty_vulns_message && !g.config.show_components_section);
    let blocks = g.compose(&doc());
    assert!(matches!(&blocks[0], Block::Heading(t, 1) if t == "T"));
    let plain = ReportConfig::new();
    assert!(plain.report_title.is_none() && plain.show_empty_vulns_message);
}

#[test]
fn validate_checks_format_tag() {
    assert_eq!(doc().validate(), Ok(()));
    let mut d = doc();
    d.bom_format = s("SPDX");
    assert_eq!(d.validate(), Err(s("bomFormat must be 'CycloneDX'")));
}

#[test]
fn newer_minor_document_with_two_vulnerabilities() {
    let raw = r#"{"bomFormat":"CycloneDX","specVersion":"1.6","version":1,"vulnerabilities":[{"id":"CVE-1"},{"id":"CVE-2"}]}"#;
    let normalized = normalize(raw.as_bytes(), b"1.5", InputFileType::JSON);
    assert_eq!(String::from_utf8(normalized).unwrap(), raw.replace("\"1.6\"", "\"1.5\""));
    let mut d = doc();
    d.vulnerabilities = Some(vec![
        vuln(Some("CVE-1"), Some(vec![Rating { severity: Some(s("high")), method: Some(s("CVSSv31")), source: None }])),
        vuln(Some("CVE-2"), None),
    ]);
    let blocks = compose(&d, &config(true, true));
    assert_eq!(blocks.iter().filter(|b| is_vulns_heading(b)).count(), 1);
    let items: Vec<&Vec<Block>> = blocks.iter().filter_map(|b| match b { Block::OrderedItem(c) => Some(c), _ => None }).collect();
    assert_eq!(items.len(), 2);
    let bullets = |c: &Vec<Block>| c.iter().filter(|b| matches!(b, Block::UnorderedItem(_))).count();
    assert_eq!(bullets(items[0]), 1);
    assert!(matches!(&items[0][3], Block::UnorderedItem(t) if t == "high (CVSSv31)"));
    assert_eq!(bullets(items[1]), 0);
    assert!(!blocks.iter().any(|b| matches!(b, Block::Framed(..))));
}
