use vex2pdf::pdf::font_config::{
    active_source_description, choose_font_source, font_sources, FontCandidate, FontSource,
};
use vex2pdf::pdf::generator::{Emphasis, FrameStyle};
use vex2pdf::pdf::style::{
    frame_style, header_style, heading_style, running_header, span_style, Rgb,
};

fn candidates(present: &[bool]) -> Vec<FontCandidate> {
    let sources = font_sources(None, Some("/home/u".to_string()));
    sources
        .into_iter()
        .zip(present.iter())
        .map(|(source, p)| FontCandidate { source, present: *p })
        .collect()
}

#[test]
fn source_order() {
    let sources = font_sources(Some("/opt/f".to_string()), Some("/home/u".to_string()));
    assert_eq!(
        sources,
        vec![
            FontSource::Embedded,
            FontSource::Configured("/opt/f".to_string()),
            FontSource::Project("fonts/liberation-fonts".to_string()),
            FontSource::User("/home/u/.fonts/liberation-fonts".to_string()),
            FontSource::System("/usr/share/fonts/truetype/liberation".to_string()),
        ]
    );
    assert_eq!(font_sources(None, None).len(), 3);
}

#[test]
fn only_system_directory_present() {
    let cs = candidates(&[false, false, false, true]);
    let i = choose_font_source(&cs).unwrap();
    assert_eq!(active_source_description(&cs[i].source), "/usr/share/fonts/truetype/liberation");
}

#[test]
fn project_directory_preferred_over_system() {
    let cs = candidates(&[false, true, false, true]);
    let i = choose_font_source(&cs).unwrap();
    assert_eq!(active_source_description(&cs[i].source), "fonts/liberation-fonts");
}

#[test]
fn embedded_glyphs_preferred_over_all() {
    let cs = candidates(&[true, true, true, true]);
    let i = choose_font_source(&cs).unwrap();
    assert_eq!(i, 0);
    assert_eq!(active_source_description(&cs[i].source), "<embedded liberationSans fonts>");
}

#[test]
fn no_source_available() {
    let cs = candidates(&[false, false, false, false]);
    assert_eq!(choose_font_source(&cs), None);
}

#[test]
fn style_presets() {
    let blue = Some(Rgb { r: 0, g: 0, b: 80 });
    assert_eq!(heading_style(1).font_size, 18);
    assert_eq!(heading_style(2).font_size, 14);
    assert_eq!(heading_style(2).color, blue);
    assert_eq!(span_style(Emphasis::Normal).font_size, 11);
    assert_eq!(span_style(Emphasis::Indent).color, Some(Rgb { r: 40, g: 40, b: 40 }));
    assert!(span_style(Emphasis::IndentBold).bold);
    let f = frame_style(FrameStyle::Notice);
    assert!(f.bold);
    assert_eq!(f.font_size, 16);
    assert_eq!(f.color, Some(Rgb { r: 0, g: 100, b: 0 }));
    assert_eq!(header_style().font_size, 10);
}

#[test]
fn running_header_from_second_page() {
    let title = "Report".to_string();
    assert_eq!(running_header(1, &title), None);
    let h = running_header(2, &title).unwrap();
    assert_eq!(h.title, "Report");
    assert_eq!(h.page_label, "Page 2");
    assert_eq!(running_header(31, &title).unwrap().page_label, "Page 31");
}
