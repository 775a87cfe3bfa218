//! The fixed look of each kind of block, and the running header.
use crate::pdf::generator::{decimal, decimal_string, Emphasis, FrameStyle};
use vstd::prelude::*;
use vstd::string::*;

verus! {

/// A colour as red, green and blue intensities.
#[derive(Clone, Copy, Debug, PartialEq, Eq, Structural)]
pub struct Rgb {
    pub r: u8,
    pub g: u8,
    pub b: u8,
}

/// How a run of text is drawn.
#[derive(Clone, Copy, Debug, PartialEq, Eq, Structural)]
pub struct TextStyle {
    /// The font size, in points.
    pub font_size: u8,
    /// The colour; the renderer's default when absent.
    pub color: Option<Rgb>,
    pub bold: bool,
}

/// Dark blue, used for headings and the running header.
pub open spec fn heading_color() -> Option<Rgb> {
    Some(Rgb { r: 0, g: 0, b: 80 })
}

/// Dark grey, used for detail text.
pub open spec fn detail_color() -> Option<Rgb> {
    Some(Rgb { r: 40, g: 40, b: 40 })
}

pub open spec fn heading_style_of(level: u8) -> TextStyle {
    if level <= 1 {
        TextStyle { font_size: 18, color: heading_color(), bold: false }
    } else {
        TextStyle { font_size: 14, color: heading_color(), bold: false }
    }
}

pub open spec fn span_style_of(e: Emphasis) -> TextStyle {
    match e {
        Emphasis::Normal => TextStyle { font_size: 11, color: None, bold: false },
        Emphasis::Indent => TextStyle { font_size: 10, color: detail_color(), bold: false },
        Emphasis::IndentBold => TextStyle { font_size: 10, color: detail_color(), bold: true },
    }
}

/// The style of a heading: level 1 is the report title, any other level a
/// section header.
pub fn heading_style(level: u8) -> (r: TextStyle)
    ensures
        r == heading_style_of(level),
{
    if level <= 1 {
        TextStyle { font_size: 18, color: Some(Rgb { r: 0, g: 0, b: 80 }), bold: false }
    } else {
        TextStyle { font_size: 14, color: Some(Rgb { r: 0, g: 0, b: 80 }), bold: false }
    }
}

/// The style of a run of paragraph text.
pub fn span_style(e: Emphasis) -> (r: TextStyle)
    ensures
        r == span_style_of(e),
{
    match e {
        Emphasis::Normal => TextStyle { font_size: 11, color: None, bold: false },
        Emphasis::Indent => TextStyle { font_size: 10, color: Some(Rgb { r: 40, g: 40, b: 40 }), bold: false },
        Emphasis::IndentBold => TextStyle { font_size: 10, color: Some(Rgb { r: 40, g: 40, b: 40 }), bold: true },
    }
}

/// The style of a framed callout: bold dark green text.
pub fn frame_style(s: FrameStyle) -> (r: TextStyle)
    ensures
        r == (TextStyle { font_size: 16, color: Some(Rgb { r: 0, g: 100, b: 0 }), bold: true }),
{
    match s {
        FrameStyle::Notice => TextStyle { font_size: 16, color: Some(Rgb { r: 0, g: 100, b: 0 }), bold: true },
    }
}

/// The style of the running header: smaller than body text, dark blue.
pub fn header_style() -> (r: TextStyle)
    ensures
        r == (TextStyle { font_size: 10, color: heading_color(), bold: false }),
{
    TextStyle { font_size: 10, color: Some(Rgb { r: 0, g: 0, b: 80 }), bold: false }
}

/// The header drawn at the top of a page: the report title on the left and
/// the page label in the centre.
#[derive(Clone, Debug, PartialEq, Eq)]
pub struct RunningHeader {
    pub title: String,
    pub page_label: String,
}

/// The header of page `page` (counted from 1) of a report titled `title`.
/// The first page has none.
pub fn running_header(page: u32, title: &String) -> (r: Option<RunningHeader>)
    ensures
        r is Some <==> page > 1,
        r is Some ==> r->0.title@ == title@ && r->0.page_label@ == "Page "@ + decimal(
            page as nat,
        ),
{
    if page > 1 {
        let mut label = String::from_str("Page ");
        let n = decimal_string(page);
        label.append(n.as_str());
        Some(RunningHeader { title: title.clone(), page_label: label })
    } else {
        None
    }
}

} // verus!
