//! Composition of a VEX document into an ordered sequence of report blocks.
use crate::model::cyclonedx::{
    Analysis, AnalysisState, Component, CycloneDxVex, Metadata, ModernTools, Rating, Service,
    Source, Tool, Tools, Vulnerability,
};
use vstd::prelude::*;
use vstd::string::*;

verus! {

broadcast use vstd::std_specs::vec::group_vec_axioms, vstd::seq::group_seq_axioms;

/// How a run of text within a paragraph is emphasised.
#[derive(Clone, Copy, Debug, PartialEq, Eq, Structural)]
pub enum Emphasis {
    /// Body text.
    Normal,
    /// Smaller, muted text for details.
    Indent,
    /// Detail text in bold, used for labels.
    IndentBold,
}

/// The look of a framed callout.
#[derive(Clone, Copy, Debug, PartialEq, Eq, Structural)]
pub enum FrameStyle {
    /// The bold, coloured, centred notice that no vulnerabilities were reported.
    Notice,
}

/// A run of text with one emphasis.
#[derive(Clone, Debug, PartialEq, Eq)]
pub struct Span {
    pub text: String,
    pub emphasis: Emphasis,
}

/// A unit of report content, independent of how it is drawn.
#[derive(Debug)]
pub enum Block {
    /// A heading; level 1 is the report title, level 2 a section header.
    Heading(String, u8),
    /// A paragraph made of runs of text.
    Paragraph(Vec<Span>),
    /// An entry of a numbered list, made of blocks.
    OrderedItem(Vec<Block>),
    /// An entry of a bulleted list.
    UnorderedItem(String),
    /// A boxed callout.
    Framed(String, FrameStyle),
    /// Vertical space, in half lines.
    Spacer(u8),
}

/// The mathematical value of a [`Block`].
pub enum BlockView {
    Heading(Seq<char>, u8),
    Paragraph(Seq<(Seq<char>, Emphasis)>),
    OrderedItem(Seq<BlockView>),
    UnorderedItem(Seq<char>),
    Framed(Seq<char>, FrameStyle),
    Spacer(u8),
}

/// The value of a sequence of spans.
pub open spec fn spans_view(spans: Seq<Span>) -> Seq<(Seq<char>, Emphasis)> {
    spans.map_values(|s: Span| (s.text@, s.emphasis))
}

/// The value of a block.
pub open spec fn block_view(b: Block) -> BlockView
    decreases b,
{
    match b {
        Block::Heading(t, l) => BlockView::Heading(t@, l),
        Block::Paragraph(spans) => BlockView::Paragraph(spans_view(spans@)),
        Block::OrderedItem(children) => BlockView::OrderedItem(
            Seq::new(
                children@.len(),
                |i: int|
                    if 0 <= i < children@.len() {
                        block_view(children@[i])
                    } else {
                        BlockView::Spacer(0)
                    },
            ),
        ),
        Block::UnorderedItem(t) => BlockView::UnorderedItem(t@),
        Block::Framed(t, s) => BlockView::Framed(t@, s),
        Block::Spacer(h) => BlockView::Spacer(h),
    }
}

/// The value of a sequence of blocks.
pub open spec fn blocks_view(bs: Seq<Block>) -> Seq<BlockView> {
    bs.map_values(|b: Block| block_view(b))
}

impl View for Block {
    type V = BlockView;

    open spec fn view(&self) -> BlockView {
        block_view(*self)
    }
}

/// A tool name, followed by ` (v<version>)` when a version is known.
pub open spec fn display_name(name: Seq<char>, version: Option<String>) -> Seq<char> {
    match version {
        Some(v) => name + " (v"@ + v@ + ")"@,
        None => name,
    }
}

/// The display names of the named tools of a flat tools list, in order.
/// A tool without a name is not listed.
pub open spec fn legacy_tool_names(tools: Seq<Tool>) -> Seq<Seq<char>>
    decreases tools.len(),
{
    if tools.len() == 0 {
        Seq::empty()
    } else {
        let t = tools.last();
        legacy_tool_names(tools.drop_last()) + match t.name {
            Some(n) => seq![display_name(n@, t.version)],
            None => Seq::empty(),
        }
    }
}

/// The display names of components used as tools.
pub open spec fn component_tool_names(cs: Seq<Component>) -> Seq<Seq<char>> {
    cs.map_values(|c: Component| display_name(c.name@, c.version))
}

/// The display names of services used as tools.
pub open spec fn service_tool_names(ss: Seq<Service>) -> Seq<Seq<char>> {
    ss.map_values(|s: Service| display_name(s.name@, s.version))
}

/// The flat list of tool display names that either shape of the tools
/// section reduces to: in the grouped shape, components before services.
pub open spec fn tool_names(tools: Tools) -> Seq<Seq<char>> {
    match tools {
        Tools::Legacy(ts) => legacy_tool_names(ts@),
        Tools::Modern(m) => {
            let cs = match m.components {
                Some(cs) => component_tool_names(cs@),
                None => Seq::empty(),
            };
            let ss = match m.services {
                Some(ss) => service_tool_names(ss@),
                None => Seq::empty(),
            };
            cs + ss
        },
    }
}

/// The values of a sequence of strings.
pub open spec fn strings_view(ss: Seq<String>) -> Seq<Seq<char>> {
    ss.map_values(|s: String| s@)
}

proof fn lemma_map_push<A, B>(s: Seq<A>, x: A, f: spec_fn(A) -> B)
    ensures
        s.push(x).map_values(f) == s.map_values(f).push(f(x)),
{
    assert(s.push(x).map_values(f) =~= s.map_values(f).push(f(x)));
}

proof fn lemma_take_push<A>(s: Seq<A>, i: int)
    requires
        0 <= i < s.len(),
    ensures
        s.take(i + 1) == s.take(i).push(s[i]),
{
    assert(s.take(i + 1) =~= s.take(i).push(s[i]));
}

/// Builds `name`, or `name (v<version>)` when a version is given.
fn display_name_of(name: &String, version: &Option<String>) -> (r: String)
    ensures
        r@ == display_name(name@, *version),
{
    match version {
        Some(v) => {
            let mut s = name.clone();
            s.append(" (v");
            s.append(v.as_str());
            s.append(")");
            s
        },
        None => name.clone(),
    }
}

/// Reduces either shape of the tools section to one ordered list of display
/// names: a name alone, or `name (v<version>)` when the version is known.
pub fn tool_display_names(tools: &Tools) -> (r: Vec<String>)
    ensures
        strings_view(r@) == tool_names(*tools),
{
    let mut out: Vec<String> = Vec::new();
    match tools {
        Tools::Legacy(ts) => {
            let mut i: usize = 0;
            while i < ts.len()
                invariant
                    i <= ts.len(),
                    strings_view(out@) == legacy_tool_names(ts@.take(i as int)),
                decreases ts.len() - i,
            {
                let t = &ts[i];
                proof {
                    assert(ts@.take(i + 1).drop_last() =~= ts@.take(i as int));
                }
                match &t.name {
                    Some(n) => {
                        let d = display_name_of(n, &t.version);
                        out.push(d);
                        assert(strings_view(out@) =~= legacy_tool_names(ts@.take(i + 1)));
                    },
                    None => {
                        assert(strings_view(out@) =~= legacy_tool_names(ts@.take(i + 1)));
                    },
                }
                i = i + 1;
            }
            assert(ts@.take(ts.len() as int) =~= ts@);
        },
        Tools::Modern(m) => {
            if let Some(cs) = &m.components {
                let mut i: usize = 0;
                while i < cs.len()
                    invariant
                        i <= cs.len(),
                        strings_view(out@) =~= component_tool_names(cs@.take(i as int)),
                    decreases cs.len() - i,
                {
                    let d = display_name_of(&cs[i].name, &cs[i].version);
                    proof {
                        lemma_take_push(cs@, i as int);
                        lemma_map_push(out@, d, |s: String| s@);
                        lemma_map_push(
                            cs@.take(i as int),
                            cs@[i as int],
                            |c: Component| display_name(c.name@, c.version),
                        );
                    }
                    out.push(d);
                    i = i + 1;
                }
                assert(cs@.take(cs.len() as int) =~= cs@);
            }
            let ghost before = strings_view(out@);
            if let Some(ss) = &m.services {
                let mut i: usize = 0;
                while i < ss.len()
                    invariant
                        i <= ss.len(),
                        strings_view(out@) =~= before + service_tool_names(ss@.take(i as int)),
                    decreases ss.len() - i,
                {
                    let d = display_name_of(&ss[i].name, &ss[i].version);
                    proof {
                        lemma_take_push(ss@, i as int);
                        lemma_map_push(out@, d, |s: String| s@);
                        lemma_map_push(
                            ss@.take(i as int),
                            ss@[i as int],
                            |s: Service| display_name(s.name@, s.version),
                        );
                    }
                    out.push(d);
                    i = i + 1;
                }
                assert(ss@.take(ss.len() as int) =~= ss@);
            }
            assert(strings_view(out@) =~= tool_names(*tools));
        },
    }
    out
}

/// A paragraph of one run of text.
pub open spec fn para(t: Seq<char>, e: Emphasis) -> BlockView {
    BlockView::Paragraph(seq![(t, e)])
}

/// A bold label followed by its value, in detail text.
pub open spec fn labelled(label: Seq<char>, value: Seq<char>) -> BlockView {
    BlockView::Paragraph(seq![(label, Emphasis::IndentBold), (value, Emphasis::Indent)])
}

/// Bulleted entries, one per text.
pub open spec fn bullets(ts: Seq<Seq<char>>) -> Seq<BlockView> {
    ts.map_values(|t: Seq<char>| BlockView::UnorderedItem(t))
}

proof fn lemma_blocks_push(s: Seq<Block>, b: Block)
    ensures
        blocks_view(s.push(b)) == blocks_view(s).push(block_view(b)),
{
    assert(blocks_view(s.push(b)) =~= blocks_view(s).push(block_view(b)));
}

proof fn lemma_ordered_item_view(children: Vec<Block>)
    ensures
        block_view(Block::OrderedItem(children)) == BlockView::OrderedItem(blocks_view(children@)),
{
    let v = block_view(Block::OrderedItem(children));
    assert(v->OrderedItem_0 =~= blocks_view(children@));
}

/// Appends a block.
fn emit(out: &mut Vec<Block>, b: Block)
    ensures
        blocks_view(final(out)@) == blocks_view(old(out)@).push(block_view(b)),
{
    proof {
        lemma_blocks_push(out@, b);
    }
    out.push(b);
}

/// `a` followed by `b`.
fn join(a: &str, b: &str) -> (r: String)
    ensures
        r@ == a@ + b@,
{
    let mut s = String::from_str(a);
    s.append(b);
    s
}

/// A paragraph of one run of text.
fn paragraph(text: String, e: Emphasis) -> (r: Block)
    ensures
        block_view(r) == para(text@, e),
{
    let mut spans: Vec<Span> = Vec::new();
    spans.push(Span { text, emphasis: e });
    assert(spans_view(spans@) =~= seq![(text@, e)]);
    Block::Paragraph(spans)
}

/// A bold label followed by its value.
fn labelled_paragraph(label: &str, value: String) -> (r: Block)
    ensures
        block_view(r) == labelled(label@, value@),
{
    let mut spans: Vec<Span> = Vec::new();
    spans.push(Span { text: String::from_str(label), emphasis: Emphasis::IndentBold });
    spans.push(Span { text: value, emphasis: Emphasis::Indent });
    assert(spans_view(spans@) =~= seq![(label@, Emphasis::IndentBold), (value@, Emphasis::Indent)]);
    Block::Paragraph(spans)
}

/// Appends one bulleted entry per string, in order.
fn emit_bullets(out: &mut Vec<Block>, texts: &Vec<String>)
    ensures
        blocks_view(final(out)@) == blocks_view(old(out)@) + bullets(strings_view(texts@)),
{
    let ghost start = blocks_view(out@);
    let mut i: usize = 0;
    while i < texts.len()
        invariant
            i <= texts.len(),
            blocks_view(out@) == start + bullets(strings_view(texts@.take(i as int))),
        decreases texts.len() - i,
    {
        let t = texts[i].clone();
        emit(out, Block::UnorderedItem(t));
        proof {
            lemma_take_push(texts@, i as int);
            lemma_map_push(texts@.take(i as int), texts@[i as int], |s: String| s@);
            lemma_map_push(
                strings_view(texts@.take(i as int)),
                texts@[i as int]@,
                |t: Seq<char>| BlockView::UnorderedItem(t),
            );
        }
        i = i + 1;
        assert(blocks_view(out@) =~= start + bullets(strings_view(texts@.take(i as int))));
    }
    assert(texts@.take(texts.len() as int) =~= texts@);
}

/// The title used when none is configured.
pub open spec fn default_report_title() -> Seq<char> {
    "Vulnerability Report Document"@
}

/// The PDF metadata title used when none is configured.
pub open spec fn default_pdf_meta_name() -> Seq<char> {
    "VEX Vulnerability Report"@
}

/// What configures the content of a report.
#[derive(Clone, Debug, PartialEq, Eq)]
pub struct ReportConfig {
    /// The heading on the first page; a default title when absent.
    pub report_title: Option<String>,
    /// The title in the document's metadata; a default title when absent.
    pub doc_meta_title: Option<String>,
    /// Whether a report without vulnerabilities says so in its own section.
    pub show_empty_vulns_message: bool,
    /// Whether the components of the document are listed.
    pub show_components_section: bool,
}

/// The report title that a configuration resolves to.
pub open spec fn title_of(cfg: ReportConfig) -> Seq<char> {
    match cfg.report_title {
        Some(t) => t@,
        None => default_report_title(),
    }
}

/// The metadata title that a configuration resolves to.
pub open spec fn meta_title_of(cfg: ReportConfig) -> Seq<char> {
    match cfg.doc_meta_title {
        Some(t) => t@,
        None => default_pdf_meta_name(),
    }
}

/// The opening blocks: the title and a line of space.
pub open spec fn title_blocks(cfg: ReportConfig) -> Seq<BlockView> {
    seq![BlockView::Heading(title_of(cfg), 1), BlockView::Spacer(2)]
}

pub open spec fn date_blocks(timestamp: Option<String>) -> Seq<BlockView> {
    match timestamp {
        Some(t) => seq![para("Date: "@ + t@, Emphasis::Normal)],
        None => Seq::empty(),
    }
}

pub open spec fn tools_blocks(tools: Option<Tools>) -> Seq<BlockView> {
    match tools {
        Some(t) => seq![para("Tools:"@, Emphasis::Normal)] + bullets(tool_names(t)) + seq![
            BlockView::Spacer(2),
        ],
        None => Seq::empty(),
    }
}

pub open spec fn primary_component_blocks(c: Option<Component>) -> Seq<BlockView> {
    match c {
        Some(c) => seq![
            BlockView::Paragraph(
                seq![("Component name: "@, Emphasis::Normal), (c.name@, Emphasis::Indent)],
            ),
        ],
        None => Seq::empty(),
    }
}

/// The document information section.
pub open spec fn metadata_blocks(m: Metadata) -> Seq<BlockView> {
    seq![BlockView::Heading("Document Information"@, 2), BlockView::Spacer(2)] + date_blocks(
        m.timestamp,
    ) + seq![BlockView::Spacer(2)] + tools_blocks(m.tools) + primary_component_blocks(m.component)
        + seq![BlockView::Spacer(2)]
}

fn emit_title(out: &mut Vec<Block>, cfg: &ReportConfig)
    ensures
        blocks_view(final(out)@) == blocks_view(old(out)@) + title_blocks(*cfg),
{
    let ghost start = blocks_view(out@);
    let title = match &cfg.report_title {
        Some(t) => t.clone(),
        None => String::from_str("Vulnerability Report Document"),
    };
    emit(out, Block::Heading(title, 1));
    emit(out, Block::Spacer(2));
    assert(blocks_view(out@) =~= start + title_blocks(*cfg));
}

fn emit_metadata(out: &mut Vec<Block>, m: &Metadata)
    ensures
        blocks_view(final(out)@) == blocks_view(old(out)@) + metadata_blocks(*m),
{
    let ghost start = blocks_view(out@);
    emit(out, Block::Heading(String::from_str("Document Information"), 2));
    emit(out, Block::Spacer(2));
    if let Some(t) = &m.timestamp {
        emit(out, paragraph(join("Date: ", t.as_str()), Emphasis::Normal));
    }
    emit(out, Block::Spacer(2));
    assert(blocks_view(out@) =~= start + seq![
        BlockView::Heading("Document Information"@, 2),
        BlockView::Spacer(2),
    ] + date_blocks(m.timestamp) + seq![BlockView::Spacer(2)]);
    let ghost mid = blocks_view(out@);
    if let Some(tools) = &m.tools {
        emit(out, paragraph(String::from_str("Tools:"), Emphasis::Normal));
        let names = tool_display_names(tools);
        emit_bullets(out, &names);
        emit(out, Block::Spacer(2));
    }
    assert(blocks_view(out@) =~= mid + tools_blocks(m.tools));
    let ghost mid2 = blocks_view(out@);
    if let Some(c) = &m.component {
        let mut spans: Vec<Span> = Vec::new();
        spans.push(Span { text: String::from_str("Component name: "), emphasis: Emphasis::Normal });
        spans.push(Span { text: c.name.clone(), emphasis: Emphasis::Indent });
        assert(spans_view(spans@) =~= seq![
            ("Component name: "@, Emphasis::Normal),
            (c.name@, Emphasis::Indent),
        ]);
        emit(out, Block::Paragraph(spans));
    }
    assert(blocks_view(out@) =~= mid2 + primary_component_blocks(m.component));
    emit(out, Block::Spacer(2));
    assert(blocks_view(out@) =~= start + metadata_blocks(*m));
}

/// The decimal digit `d`, for `d < 10`.
pub open spec fn digit_text(d: nat) -> Seq<char> {
    if d == 0 {
        "0"@
    } else if d == 1 {
        "1"@
    } else if d == 2 {
        "2"@
    } else if d == 3 {
        "3"@
    } else if d == 4 {
        "4"@
    } else if d == 5 {
        "5"@
    } else if d == 6 {
        "6"@
    } else if d == 7 {
        "7"@
    } else if d == 8 {
        "8"@
    } else {
        "9"@
    }
}

/// The decimal notation of `n`, without leading zeros.
pub open spec fn decimal(n: nat) -> Seq<char>
    decreases n,
{
    if n < 10 {
        digit_text(n)
    } else {
        decimal(n / 10) + digit_text(n % 10)
    }
}

fn digit_str(d: u32) -> (r: &'static str)
    requires
        d < 10,
    ensures
        r@ == digit_text(d as nat),
{
    if d == 0 {
        "0"
    } else if d == 1 {
        "1"
    } else if d == 2 {
        "2"
    } else if d == 3 {
        "3"
    } else if d == 4 {
        "4"
    } else if d == 5 {
        "5"
    } else if d == 6 {
        "6"
    } else if d == 7 {
        "7"
    } else if d == 8 {
        "8"
    } else {
        "9"
    }
}

/// The decimal notation of `n`.
pub fn decimal_string(n: u32) -> (r: String)
    ensures
        r@ == decimal(n as nat),
    decreases n,
{
    if n < 10 {
        String::from_str(digit_str(n))
    } else {
        let mut s = decimal_string(n / 10);
        s.append(digit_str(n % 10));
        s
    }
}

pub open spec fn serial_blocks(serial: Option<String>) -> Seq<BlockView> {
    match serial {
        Some(s) => seq![para("Serial Number: "@ + s@, Emphasis::Normal)],
        None => Seq::empty(),
    }
}

/// The summary of format, schema version, revision and serial number.
pub open spec fn summary_blocks(doc: CycloneDxVex) -> Seq<BlockView> {
    seq![
        para("BOM Format: "@ + doc.bom_format@, Emphasis::Normal),
        para("Specification Version: "@ + doc.spec_version@, Emphasis::Normal),
        para("Version: "@ + decimal(doc.version as nat), Emphasis::Normal),
    ] + serial_blocks(doc.serial_number) + seq![BlockView::Spacer(4)]
}

fn emit_summary(out: &mut Vec<Block>, doc: &CycloneDxVex)
    ensures
        blocks_view(final(out)@) == blocks_view(old(out)@) + summary_blocks(*doc),
{
    let ghost start = blocks_view(out@);
    emit(out, paragraph(join("BOM Format: ", doc.bom_format.as_str()), Emphasis::Normal));
    emit(
        out,
        paragraph(join("Specification Version: ", doc.spec_version.as_str()), Emphasis::Normal),
    );
    let v = decimal_string(doc.version);
    emit(out, paragraph(join("Version: ", v.as_str()), Emphasis::Normal));
    if let Some(serial) = &doc.serial_number {
        emit(out, paragraph(join("Serial Number: ", serial.as_str()), Emphasis::Normal));
    }
    emit(out, Block::Spacer(4));
    assert(blocks_view(out@) =~= start + summary_blocks(*doc));
}

/// The label of an analysis state; an absent state reads `unknown`.
pub open spec fn state_label(state: Option<AnalysisState>) -> Seq<char> {
    match state {
        Some(AnalysisState::NotAffected) => "not_affected"@,
        Some(AnalysisState::Exploitable) => "exploitable"@,
        Some(AnalysisState::InTriage) => "in_triage"@,
        Some(AnalysisState::Resolved) => "resolved"@,
        Some(AnalysisState::FalsePositive) => "false_positive"@,
        _ => "unknown"@,
    }
}

/// The label under which an analysis state is shown.
pub fn fmt_analysis_state(state: &AnalysisState) -> (r: &'static str)
    ensures
        r@ == state_label(Some(*state)),
{
    match state {
        AnalysisState::NotAffected => "not_affected",
        AnalysisState::Exploitable => "exploitable",
        AnalysisState::InTriage => "in_triage",
        AnalysisState::Resolved => "resolved",
        AnalysisState::FalsePositive => "false_positive",
        AnalysisState::Unknown => "unknown",
    }
}

pub open spec fn id_text(id: Option<String>) -> Seq<char> {
    match id {
        Some(i) => "ID: "@ + i@,
        None => "ID: N/A"@,
    }
}

pub open spec fn or_na(s: Option<String>) -> Seq<char> {
    match s {
        Some(s) => s@,
        None => "N/A"@,
    }
}

pub open spec fn detail_blocks(detail: Option<String>) -> Seq<BlockView> {
    match detail {
        Some(d) => if d@.len() > 0 {
            seq![labelled("  detail: "@, d@)]
        } else {
            Seq::empty()
        },
        None => Seq::empty(),
    }
}

/// The analysis sub-block: its state, and its detail when not empty.
pub open spec fn analysis_blocks(analysis: Option<Analysis>) -> Seq<BlockView> {
    match analysis {
        Some(a) => seq![
            para("Analysis:"@, Emphasis::IndentBold),
            labelled("  state: "@, state_label(a.state)),
        ] + detail_blocks(a.detail) + seq![BlockView::Spacer(1)],
        None => Seq::empty(),
    }
}

pub open spec fn source_suffix(source: Option<Source>) -> Seq<char> {
    match source {
        Some(s) => match s.name {
            Some(n) => " — Source: "@ + n@,
            None => Seq::empty(),
        },
        None => Seq::empty(),
    }
}

/// The entry of a rating with severity `severity`.
pub open spec fn rating_text(severity: Seq<char>, r: Rating) -> Seq<char> {
    severity + " ("@ + or_na(r.method) + ")"@ + source_suffix(r.source)
}

/// The entries of the ratings that carry a severity, in order.
pub open spec fn rating_texts(rs: Seq<Rating>) -> Seq<Seq<char>>
    decreases rs.len(),
{
    if rs.len() == 0 {
        Seq::empty()
    } else {
        let r = rs.last();
        rating_texts(rs.drop_last()) + match r.severity {
            Some(s) => seq![rating_text(s@, r)],
            None => Seq::empty(),
        }
    }
}

pub open spec fn ratings_of(v: Vulnerability) -> Seq<Rating> {
    match v.ratings {
        Some(rs) => rs@,
        None => Seq::empty(),
    }
}

/// What a numbered vulnerability entry holds.
pub open spec fn vulnerability_children(v: Vulnerability) -> Seq<BlockView> {
    seq![
        para(id_text(v.id), Emphasis::Normal),
        labelled("Description: "@, or_na(v.description)),
        BlockView::Spacer(1),
    ] + analysis_blocks(v.analysis) + bullets(rating_texts(ratings_of(v))) + seq![
        BlockView::Spacer(2),
    ]
}

pub open spec fn vulnerability_items(vs: Seq<Vulnerability>) -> Seq<BlockView> {
    vs.map_values(|v: Vulnerability| BlockView::OrderedItem(vulnerability_children(v)))
}

/// Whether the document lists at least one vulnerability.
pub open spec fn has_vulns(doc: CycloneDxVex) -> bool {
    match doc.vulnerabilities {
        Some(vs) => vs@.len() > 0,
        None => false,
    }
}

/// The vulnerabilities section. It is left out entirely when the document
/// lists none and the configuration does not ask to say so.
pub open spec fn vulnerability_blocks(doc: CycloneDxVex, cfg: ReportConfig) -> Seq<BlockView> {
    let listed = has_vulns(doc);
    let show = cfg.show_empty_vulns_message;
    (if listed || show {
        seq![BlockView::Heading("Vulnerabilities"@, 2), BlockView::Spacer(2)]
    } else {
        Seq::empty()
    }) + (if listed {
        vulnerability_items(doc.vulnerabilities->0@) + seq![BlockView::Spacer(1)]
    } else {
        Seq::empty()
    }) + (if !listed && show {
        seq![
            BlockView::Framed("No Vulnerabilities reported"@, FrameStyle::Notice),
            BlockView::Spacer(2),
        ]
    } else {
        Seq::empty()
    })
}

fn rating_entry(severity: &String, r: &Rating) -> (s: String)
    ensures
        s@ == rating_text(severity@, *r),
{
    let mut s = severity.clone();
    s.append(" (");
    match &r.method {
        Some(m) => s.append(m.as_str()),
        None => s.append("N/A"),
    }
    s.append(")");
    if let Some(src) = &r.source {
        if let Some(n) = &src.name {
            s.append(" — Source: ");
            s.append(n.as_str());
        }
    }
    s
}

/// The entries of the ratings that carry a severity, in order; a rating
/// without a severity has no entry.
pub fn rating_entries(rs: &Vec<Rating>) -> (r: Vec<String>)
    ensures
        strings_view(r@) == rating_texts(rs@),
{
    let mut out: Vec<String> = Vec::new();
    let mut i: usize = 0;
    while i < rs.len()
        invariant
            i <= rs.len(),
            strings_view(out@) == rating_texts(rs@.take(i as int)),
        decreases rs.len() - i,
    {
        proof {
            assert(rs@.take(i + 1).drop_last() =~= rs@.take(i as int));
        }
        if let Some(sev) = &rs[i].severity {
            let e = rating_entry(sev, &rs[i]);
            out.push(e);
        }
        assert(strings_view(out@) =~= rating_texts(rs@.take(i + 1)));
        i = i + 1;
    }
    assert(rs@.take(rs.len() as int) =~= rs@);
    out
}

fn emit_analysis(out: &mut Vec<Block>, analysis: &Option<Analysis>)
    ensures
        blocks_view(final(out)@) == blocks_view(old(out)@) + analysis_blocks(*analysis),
{
    let ghost start = blocks_view(out@);
    if let Some(a) = analysis {
        emit(out, paragraph(String::from_str("Analysis:"), Emphasis::IndentBold));
        let label = match &a.state {
            Some(st) => fmt_analysis_state(st),
            None => "unknown",
        };
        emit(out, labelled_paragraph("  state: ", String::from_str(label)));
        if let Some(d) = &a.detail {
            if !d.as_str().is_empty() {
                emit(out, labelled_paragraph("  detail: ", d.clone()));
            }
        }
        emit(out, Block::Spacer(1));
    }
    assert(blocks_view(out@) =~= start + analysis_blocks(*analysis));
}

/// The blocks of one numbered vulnerability entry.
fn vulnerability_entry(v: &Vulnerability) -> (r: Vec<Block>)
    ensures
        blocks_view(r@) == vulnerability_children(*v),
{
    let mut out: Vec<Block> = Vec::new();
    let id = match &v.id {
        Some(i) => join("ID: ", i.as_str()),
        None => String::from_str("ID: N/A"),
    };
    emit(&mut out, paragraph(id, Emphasis::Normal));
    let desc = match &v.description {
        Some(d) => d.clone(),
        None => String::from_str("N/A"),
    };
    emit(&mut out, labelled_paragraph("Description: ", desc));
    emit(&mut out, Block::Spacer(1));
    emit_analysis(&mut out, &v.analysis);
    let entries = match &v.ratings {
        Some(rs) => rating_entries(rs),
        None => Vec::new(),
    };
    assert(strings_view(entries@) =~= rating_texts(ratings_of(*v)));
    emit_bullets(&mut out, &entries);
    emit(&mut out, Block::Spacer(2));
    assert(blocks_view(out@) =~= vulnerability_children(*v));
    out
}

fn emit_vulnerabilities(out: &mut Vec<Block>, doc: &CycloneDxVex, cfg: &ReportConfig)
    ensures
        blocks_view(final(out)@) == blocks_view(old(out)@) + vulnerability_blocks(*doc, *cfg),
{
    let ghost start = blocks_view(out@);
    let listed = match &doc.vulnerabilities {
        Some(vs) => vs.len() > 0,
        None => false,
    };
    let show = cfg.show_empty_vulns_message;
    if listed || show {
        emit(out, Block::Heading(String::from_str("Vulnerabilities"), 2));
        emit(out, Block::Spacer(2));
    }
    let ghost mid = blocks_view(out@);
    if listed {
        if let Some(vs) = &doc.vulnerabilities {
            let mut i: usize = 0;
            while i < vs.len()
                invariant
                    i <= vs.len(),
                    blocks_view(out@) == mid + vulnerability_items(vs@.take(i as int)),
                decreases vs.len() - i,
            {
                let children = vulnerability_entry(&vs[i]);
                proof {
                    lemma_ordered_item_view(children);
                    lemma_take_push(vs@, i as int);
                    lemma_map_push(
                        vs@.take(i as int),
                        vs@[i as int],
                        |v: Vulnerability| BlockView::OrderedItem(vulnerability_children(v)),
                    );
                }
                emit(out, Block::OrderedItem(children));
                i = i + 1;
                assert(blocks_view(out@) =~= mid + vulnerability_items(vs@.take(i as int)));
            }
            assert(vs@.take(vs.len() as int) =~= vs@);
        }
        emit(out, Block::Spacer(1));
    }
    if !listed && show {
        emit(
            out,
            Block::Framed(String::from_str("No Vulnerabilities reported"), FrameStyle::Notice),
        );
        emit(out, Block::Spacer(2));
    }
    assert(blocks_view(out@) =~= start + vulnerability_blocks(*doc, *cfg));
}

/// The lines of one listed component.
pub open spec fn component_entry(c: Component) -> Seq<BlockView> {
    seq![para("Name: "@ + c.name@, Emphasis::Normal)] + match c.version {
        Some(v) => seq![para("Version: "@ + v@, Emphasis::Indent)],
        None => Seq::empty(),
    } + seq![BlockView::Spacer(1)]
}

pub open spec fn component_entries(cs: Seq<Component>) -> Seq<BlockView>
    decreases cs.len(),
{
    if cs.len() == 0 {
        Seq::empty()
    } else {
        component_entries(cs.drop_last()) + component_entry(cs.last())
    }
}

/// The components section, present only when it is enabled and the document
/// has a component list.
pub open spec fn components_blocks(doc: CycloneDxVex, cfg: ReportConfig) -> Seq<BlockView> {
    if cfg.show_components_section && doc.components is Some {
        seq![BlockView::Heading("Components"@, 2), BlockView::Spacer(1)] + component_entries(
            doc.components->0@,
        )
    } else {
        Seq::empty()
    }
}

/// The whole report: title, document information when there is metadata,
/// summary, vulnerabilities, components.
pub open spec fn report_blocks(doc: CycloneDxVex, cfg: ReportConfig) -> Seq<BlockView> {
    title_blocks(cfg) + match doc.metadata {
        Some(m) => metadata_blocks(m),
        None => Seq::empty(),
    } + summary_blocks(doc) + vulnerability_blocks(doc, cfg) + components_blocks(doc, cfg)
}

fn emit_components(out: &mut Vec<Block>, doc: &CycloneDxVex, cfg: &ReportConfig)
    ensures
        blocks_view(final(out)@) == blocks_view(old(out)@) + components_blocks(*doc, *cfg),
{
    let ghost start = blocks_view(out@);
    if cfg.show_components_section {
        if let Some(cs) = &doc.components {
            emit(out, Block::Heading(String::from_str("Components"), 2));
            emit(out, Block::Spacer(1));
            let ghost mid = blocks_view(out@);
            let mut i: usize = 0;
            while i < cs.len()
                invariant
                    i <= cs.len(),
                    blocks_view(out@) == mid + component_entries(cs@.take(i as int)),
                decreases cs.len() - i,
            {
                let ghost before = blocks_view(out@);
                let c = &cs[i];
                emit(out, paragraph(join("Name: ", c.name.as_str()), Emphasis::Normal));
                if let Some(v) = &c.version {
                    emit(out, paragraph(join("Version: ", v.as_str()), Emphasis::Indent));
                }
                emit(out, Block::Spacer(1));
                proof {
                    assert(blocks_view(out@) =~= before + component_entry(cs@[i as int]));
                    assert(cs@.take(i + 1).drop_last() =~= cs@.take(i as int));
                }
                i = i + 1;
                assert(blocks_view(out@) =~= mid + component_entries(cs@.take(i as int)));
            }
            assert(cs@.take(cs.len() as int) =~= cs@);
        }
    }
    assert(blocks_view(out@) =~= start + components_blocks(*doc, *cfg));
}

/// Composes a document into the ordered blocks of its report.
///
/// The report holds, in order: the title; a document information section
/// when the document has metadata; the format, schema version, revision and
/// serial number; the vulnerabilities section, unless the document lists no
/// vulnerability and the configuration hides the empty message; and the
/// components, when enabled and present.
pub fn compose(doc: &CycloneDxVex, config: &ReportConfig) -> (r: Vec<Block>)
    ensures
        blocks_view(r@) == report_blocks(*doc, *config),
{
    let mut out: Vec<Block> = Vec::new();
    emit_title(&mut out, config);
    if let Some(m) = &doc.metadata {
        emit_metadata(&mut out, m);
    }
    emit_summary(&mut out, doc);
    emit_vulnerabilities(&mut out, doc, config);
    emit_components(&mut out, doc, config);
    assert(blocks_view(out@) =~= report_blocks(*doc, *config));
    out
}

/// Composing is a function of the document and the configuration: two
/// reports composed from the same pair have the same blocks.
pub proof fn lemma_compose_deterministic(
    doc: CycloneDxVex,
    config: ReportConfig,
    first: Seq<Block>,
    second: Seq<Block>,
)
    requires
        blocks_view(first) == report_blocks(doc, config),
        blocks_view(second) == report_blocks(doc, config),
    ensures
        blocks_view(first) == blocks_view(second),
{
}

/// Every report opens with its title as a top-level heading, so no report
/// is empty.
pub proof fn lemma_report_starts_with_title(doc: CycloneDxVex, config: ReportConfig)
    ensures
        report_blocks(doc, config).len() > 0,
        report_blocks(doc, config)[0] == BlockView::Heading(title_of(config), 1),
{
}

/// A heading, of any level, that reads "Vulnerabilities".
pub open spec fn is_vulns_heading(b: BlockView) -> bool {
    b is Heading && b->Heading_0 == "Vulnerabilities"@
}

/// A block that belongs only to the vulnerabilities section: its heading, a
/// numbered vulnerability entry, or a framed notice.
pub open spec fn vulns_marker(b: BlockView) -> bool {
    is_vulns_heading(b) || b is Framed || b is OrderedItem
}

pub open spec fn no_vulns_marker(s: Seq<BlockView>) -> bool {
    forall|i: int| 0 <= i < s.len() ==> !vulns_marker(#[trigger] s[i])
}

proof fn lemma_no_marker_concat(a: Seq<BlockView>, b: Seq<BlockView>)
    requires
        no_vulns_marker(a),
        no_vulns_marker(b),
    ensures
        no_vulns_marker(a + b),
{
    assert forall|i: int| 0 <= i < (a + b).len() implies !vulns_marker(#[trigger] (a + b)[i]) by {
        if i < a.len() {
            assert((a + b)[i] == a[i]);
        } else {
            assert((a + b)[i] == b[i - a.len()]);
        }
    }
}

proof fn lemma_other_sections_unmarked(doc: CycloneDxVex, config: ReportConfig)
    requires
        title_of(config) != "Vulnerabilities"@,
    ensures
        no_vulns_marker(title_blocks(config)),
        no_vulns_marker(
            match doc.metadata {
                Some(m) => metadata_blocks(m),
                None => Seq::empty(),
            },
        ),
        no_vulns_marker(summary_blocks(doc)),
        no_vulns_marker(components_blocks(doc, config)),
{
    reveal_strlit("Vulnerabilities");
    reveal_strlit("Document Information");
    reveal_strlit("Components");
    if let Some(m) = doc.metadata {
        let head = seq![BlockView::Heading("Document Information"@, 2), BlockView::Spacer(2)];
        assert("Document Information"@ != "Vulnerabilities"@) by {
            assert("Document Information"@.len() != "Vulnerabilities"@.len());
        }
        lemma_no_marker_concat(head, date_blocks(m.timestamp));
        lemma_no_marker_concat(head + date_blocks(m.timestamp), seq![BlockView::Spacer(2)]);
        if let Some(t) = m.tools {
            let names = tool_names(t);
            assert(no_vulns_marker(bullets(names)));
            lemma_no_marker_concat(seq![para("Tools:"@, Emphasis::Normal)], bullets(names));
            lemma_no_marker_concat(
                seq![para("Tools:"@, Emphasis::Normal)] + bullets(names),
                seq![BlockView::Spacer(2)],
            );
        }
        let a = head + date_blocks(m.timestamp) + seq![BlockView::Spacer(2)];
        lemma_no_marker_concat(a, tools_blocks(m.tools));
        lemma_no_marker_concat(a + tools_blocks(m.tools), primary_component_blocks(m.component));
        lemma_no_marker_concat(
            a + tools_blocks(m.tools) + primary_component_blocks(m.component),
            seq![BlockView::Spacer(2)],
        );
    }
    let three = seq![
        para("BOM Format: "@ + doc.bom_format@, Emphasis::Normal),
        para("Specification Version: "@ + doc.spec_version@, Emphasis::Normal),
        para("Version: "@ + decimal(doc.version as nat), Emphasis::Normal),
    ];
    lemma_no_marker_concat(three, serial_blocks(doc.serial_number));
    lemma_no_marker_concat(three + serial_blocks(doc.serial_number), seq![BlockView::Spacer(4)]);
    if config.show_components_section && doc.components is Some {
        let cs = doc.components->0@;
        lemma_component_entries_unmarked(cs);
        assert("Components"@ != "Vulnerabilities"@) by {
            assert("Components"@.len() != "Vulnerabilities"@.len());
        }
        lemma_no_marker_concat(
            seq![BlockView::Heading("Components"@, 2), BlockView::Spacer(1)],
            component_entries(cs),
        );
    }
}

proof fn lemma_component_entries_unmarked(cs: Seq<Component>)
    ensures
        no_vulns_marker(component_entries(cs)),
    decreases cs.len(),
{
    if cs.len() > 0 {
        lemma_component_entries_unmarked(cs.drop_last());
        let c = cs.last();
        let v = match c.version {
            Some(v) => seq![para("Version: "@ + v@, Emphasis::Indent)],
            None => Seq::<BlockView>::empty(),
        };
        lemma_no_marker_concat(seq![para("Name: "@ + c.name@, Emphasis::Normal)], v);
        lemma_no_marker_concat(
            seq![para("Name: "@ + c.name@, Emphasis::Normal)] + v,
            seq![BlockView::Spacer(1)],
        );
        lemma_no_marker_concat(component_entries(cs.drop_last()), component_entry(c));
    }
}

/// A document without a vulnerability list gets no "Vulnerabilities"
/// heading, no numbered entry and no framed notice when the empty message is
/// switched off. When it is switched on, the report holds exactly one
/// "Vulnerabilities" heading, followed later by exactly one framed block, the
/// "No Vulnerabilities reported" notice, and no numbered entry. A report
/// whose own title is "Vulnerabilities" is left out: its title heading reads
/// the same.
pub proof fn lemma_empty_vulnerabilities_gate(doc: CycloneDxVex, config: ReportConfig)
    requires
        doc.vulnerabilities is None,
        title_of(config) != "Vulnerabilities"@,
    ensures
        !config.show_empty_vulns_message ==> no_vulns_marker(report_blocks(doc, config)),
        config.show_empty_vulns_message ==> {
            let r = report_blocks(doc, config);
            exists|h: int, f: int|
                #![trigger r[h], r[f]]
                0 <= h < f < r.len() && r[h] == BlockView::Heading("Vulnerabilities"@, 2) && r[f]
                    == BlockView::Framed("No Vulnerabilities reported"@, FrameStyle::Notice)
                    && (forall|j: int| 0 <= j < r.len() && j != h ==> !is_vulns_heading(#[trigger] r[j]))
                    && (forall|j: int| 0 <= j < r.len() && j != f ==> !(#[trigger] r[j] is Framed))
                    && (forall|j: int| 0 <= j < r.len() ==> !(#[trigger] r[j] is OrderedItem))
        },
{
    lemma_other_sections_unmarked(doc, config);
    let meta = match doc.metadata {
        Some(m) => metadata_blocks(m),
        None => Seq::empty(),
    };
    let before = title_blocks(config) + meta + summary_blocks(doc);
    let vb = vulnerability_blocks(doc, config);
    let after = components_blocks(doc, config);
    lemma_no_marker_concat(title_blocks(config), meta);
    lemma_no_marker_concat(title_blocks(config) + meta, summary_blocks(doc));
    assert(report_blocks(doc, config) == before + vb + after);
    if !config.show_empty_vulns_message {
        assert(vb =~= Seq::<BlockView>::empty());
        lemma_no_marker_concat(before, vb);
        lemma_no_marker_concat(before + vb, after);
    } else {
        let r = report_blocks(doc, config);
        let n = before.len() as int;
        assert(vb =~= seq![
            BlockView::Heading("Vulnerabilities"@, 2),
            BlockView::Spacer(2),
            BlockView::Framed("No Vulnerabilities reported"@, FrameStyle::Notice),
            BlockView::Spacer(2),
        ]);
        assert(r[n] == vb[0]);
        assert(r[n + 2] == vb[2]);
        assert forall|j: int| 0 <= j < r.len() implies (j != n ==> !is_vulns_heading(
            #[trigger] r[j],
        )) && (j != n + 2 ==> !(r[j] is Framed)) && !(r[j] is OrderedItem) by {
            if j < n {
                assert(r[j] == before[j]);
                assert(!vulns_marker(before[j]));
            } else if j < n + 4 {
                assert(r[j] == vb[j - n]);
            } else {
                assert(r[j] == after[j - n - 4]);
                assert(!vulns_marker(after[j - n - 4]));
            }
        }
        assert(0 <= n < n + 2 < r.len());
    }
}

/// A document that lists vulnerabilities gets exactly one "Vulnerabilities"
/// heading, followed by one numbered entry per vulnerability, in the order of
/// the list, and no framed notice; no other block is a numbered entry. A
/// report whose own title is "Vulnerabilities" is left out.
pub proof fn lemma_listed_vulnerabilities(doc: CycloneDxVex, config: ReportConfig)
    requires
        has_vulns(doc),
        title_of(config) != "Vulnerabilities"@,
    ensures
        ({
            let r = report_blocks(doc, config);
            let items = vulnerability_items(doc.vulnerabilities->0@);
            exists|h: int|
                #![trigger r[h]]
                0 <= h && h + 2 + items.len() <= r.len() && r[h] == BlockView::Heading(
                    "Vulnerabilities"@,
                    2,
                ) && r.subrange(h + 2, h + 2 + items.len()) == items && (forall|j: int|
                    0 <= j < r.len() && j != h ==> !is_vulns_heading(#[trigger] r[j])) && (forall|
                    j: int,
                | 0 <= j < r.len() ==> !(#[trigger] r[j] is Framed)) && (forall|j: int|
                    0 <= j < r.len() && !(h + 2 <= j < h + 2 + items.len()) ==> !(
                    #[trigger] r[j] is OrderedItem))
        }),
{
    lemma_other_sections_unmarked(doc, config);
    let meta = match doc.metadata {
        Some(m) => metadata_blocks(m),
        None => Seq::empty(),
    };
    let before = title_blocks(config) + meta + summary_blocks(doc);
    let vb = vulnerability_blocks(doc, config);
    let after = components_blocks(doc, config);
    let items = vulnerability_items(doc.vulnerabilities->0@);
    let k = items.len() as int;
    lemma_no_marker_concat(title_blocks(config), meta);
    lemma_no_marker_concat(title_blocks(config) + meta, summary_blocks(doc));
    let r = report_blocks(doc, config);
    assert(r == before + vb + after);
    assert(vb =~= seq![BlockView::Heading("Vulnerabilities"@, 2), BlockView::Spacer(2)] + items
        + seq![BlockView::Spacer(1)]);
    let n = before.len() as int;
    assert(r[n] == vb[0]);
    assert(r.subrange(n + 2, n + 2 + k) =~= items);
    assert forall|j: int| 0 <= j < r.len() implies (j != n ==> !is_vulns_heading(#[trigger] r[j]))
        && !(r[j] is Framed) && (!(n + 2 <= j < n + 2 + k) ==> !(r[j] is OrderedItem)) by {
        if j < n {
            assert(r[j] == before[j]);
            assert(!vulns_marker(before[j]));
        } else if j < n + 2 {
            assert(r[j] == vb[j - n]);
        } else if j < n + 2 + k {
            assert(r[j] == items[j - n - 2]);
            assert(items[j - n - 2] is OrderedItem);
        } else if j < n + 3 + k {
            assert(r[j] == vb[j - n]);
        } else {
            assert(r[j] == after[j - n - 3 - k]);
            assert(!vulns_marker(after[j - n - 3 - k]));
        }
    }
}

/// A rating without a severity adds no entry, whatever its other fields.
pub proof fn lemma_unrated_rating_ignored(before: Seq<Rating>, r: Rating, after: Seq<Rating>)
    requires
        r.severity is None,
    ensures
        rating_texts(before + seq![r] + after) == rating_texts(before + after),
    decreases after.len(),
{
    if after.len() == 0 {
        assert((before + seq![r] + after).drop_last() =~= before);
        assert(before + after =~= before);
    } else {
        lemma_unrated_rating_ignored(before, r, after.drop_last());
        assert((before + seq![r] + after).drop_last() =~= before + seq![r] + after.drop_last());
        assert((before + after).drop_last() =~= before + after.drop_last());
    }
}

/// Whether two optional texts are both absent or hold the same text.
pub open spec fn same_text(a: Option<String>, b: Option<String>) -> bool {
    match (a, b) {
        (Some(x), Some(y)) => x@ == y@,
        (None, None) => true,
        _ => false,
    }
}

proof fn lemma_legacy_matches_components(ts: Seq<Tool>, cs: Seq<Component>)
    requires
        ts.len() == cs.len(),
        forall|i: int|
            0 <= i < ts.len() ==> (#[trigger] ts[i]).name is Some && ts[i].name->0@ == cs[i].name@
                && same_text(ts[i].version, cs[i].version),
    ensures
        legacy_tool_names(ts) == component_tool_names(cs),
    decreases ts.len(),
{
    if ts.len() > 0 {
        lemma_legacy_matches_components(ts.drop_last(), cs.drop_last());
        let t = ts.last();
        let c = cs.last();
        assert(ts[ts.len() - 1] == t);
        assert(display_name(t.name->0@, t.version) == display_name(c.name@, c.version));
        assert(component_tool_names(cs) =~= component_tool_names(cs.drop_last()).push(
            display_name(c.name@, c.version),
        ));
    }
}

/// The two shapes of the tools section reduce to the same display list when
/// they describe the same tools: a flat list of named tools, and a grouped
/// shape whose components carry those names and versions, in the same order.
pub proof fn lemma_tools_union_equivalence(legacy: Vec<Tool>, components: Vec<Component>)
    requires
        legacy@.len() == components@.len(),
        forall|i: int|
            0 <= i < legacy@.len() ==> (#[trigger] legacy@[i]).name is Some && legacy@[i].name->0@
                == components@[i].name@ && same_text(legacy@[i].version, components@[i].version),
    ensures
        tool_names(Tools::Legacy(legacy)) == tool_names(
            Tools::Modern(ModernTools { components: Some(components), services: None }),
        ),
{
    lemma_legacy_matches_components(legacy@, components@);
    assert(component_tool_names(components@) + Seq::<Seq<char>>::empty() =~= component_tool_names(
        components@,
    ));
}

impl ReportConfig {
    /// A configuration with the default titles and both optional sections shown.
    pub fn new() -> (r: ReportConfig)
        ensures
            r.report_title is None,
            r.doc_meta_title is None,
            r.show_empty_vulns_message,
            r.show_components_section,
    {
        ReportConfig {
            report_title: None,
            doc_meta_title: None,
            show_empty_vulns_message: true,
            show_components_section: true,
        }
    }

    /// The title shown on the first page and in the running header.
    pub fn document_title(&self) -> (r: String)
        ensures
            r@ == title_of(*self),
    {
        match &self.report_title {
            Some(t) => t.clone(),
            None => String::from_str("Vulnerability Report Document"),
        }
    }

    /// The title stored in the PDF metadata.
    pub fn pdf_title(&self) -> (r: String)
        ensures
            r@ == meta_title_of(*self),
    {
        match &self.doc_meta_title {
            Some(t) => t.clone(),
            None => String::from_str("VEX Vulnerability Report"),
        }
    }
}

/// Turns VEX documents into report blocks under one configuration.
#[derive(Clone, Debug, PartialEq, Eq)]
pub struct PdfGenerator {
    pub config: ReportConfig,
}

impl PdfGenerator {
    /// A generator with the given titles (defaults where absent) and section
    /// switches.
    pub fn new(
        report_title: Option<String>,
        pdf_meta_name: Option<String>,
        show_novulns_msg: bool,
        show_components: bool,
    ) -> (r: PdfGenerator)
        ensures
            r.config == (ReportConfig {
                report_title: report_title,
                doc_meta_title: pdf_meta_name,
                show_empty_vulns_message: show_novulns_msg,
                show_components_section: show_components,
            }),
    {
        PdfGenerator {
            config: ReportConfig {
                report_title,
                doc_meta_title: pdf_meta_name,
                show_empty_vulns_message: show_novulns_msg,
                show_components_section: show_components,
            },
        }
    }

    /// The default title for the PDF metadata.
    pub fn get_default_pdf_meta_name() -> (r: &'static str)
        ensures
            r@ == default_pdf_meta_name(),
    {
        "VEX Vulnerability Report"
    }

    /// The default title of the report, shown on the first page.
    pub fn get_default_report_title() -> (r: &'static str)
        ensures
            r@ == default_report_title(),
    {
        "Vulnerability Report Document"
    }

    /// The blocks of the report on `vex`.
    pub fn compose(&self, vex: &CycloneDxVex) -> (r: Vec<Block>)
        ensures
            blocks_view(r@) == report_blocks(*vex, self.config),
    {
        compose(vex, &self.config)
    }
}

impl Default for PdfGenerator {
    /// A generator with the default titles that shows both optional sections.
    fn default() -> (r: PdfGenerator)
        ensures
            title_of(r.config) == default_report_title(),
            meta_title_of(r.config) == default_pdf_meta_name(),
            r.config.show_empty_vulns_message,
            r.config.show_components_section,
    {
        PdfGenerator::new(None, None, true, true)
    }
}

} // verus!
