//! The order in which glyph sources are tried.
//!
//! Glyph data bundled with the program comes first. Then a directory named
//! by the `VEX2PDF_FONTS_PATH` setting (kept for older set-ups), then a
//! directory relative to the project, one under the user's home directory,
//! and a system-wide one. The first source that is available wins; a
//! directory is judged by its existence alone before the font loader is given
//! it.
use vstd::prelude::*;
use vstd::string::*;

verus! {

/// A place glyph data can come from.
#[derive(Clone, Debug, PartialEq, Eq)]
pub enum FontSource {
    /// Glyph data bundled with the program.
    Embedded,
    /// The directory named by the font path setting.
    Configured(String),
    /// The directory relative to the project.
    Project(String),
    /// The directory under the user's home directory.
    User(String),
    /// The system-wide directory.
    System(String),
}

/// A glyph source and whether it is available.
#[derive(Clone, Debug, PartialEq, Eq)]
pub struct FontCandidate {
    pub source: FontSource,
    pub present: bool,
}

/// The precedence of a kind of source: lower is tried first.
pub open spec fn rank(s: FontSource) -> nat {
    match s {
        FontSource::Embedded => 0,
        FontSource::Configured(_) => 1,
        FontSource::Project(_) => 2,
        FontSource::User(_) => 3,
        FontSource::System(_) => 4,
    }
}

pub open spec fn project_font_dir() -> Seq<char> {
    "fonts/liberation-fonts"@
}

pub open spec fn user_font_dir(home: Seq<char>) -> Seq<char> {
    home + "/.fonts/liberation-fonts"@
}

pub open spec fn system_font_dir() -> Seq<char> {
    "/usr/share/fonts/truetype/liberation"@
}

/// The value of a source, with the directory as plain text.
pub open spec fn source_view(s: FontSource) -> (nat, Seq<char>) {
    match s {
        FontSource::Embedded => (0, Seq::empty()),
        FontSource::Configured(d) => (1, d@),
        FontSource::Project(d) => (2, d@),
        FontSource::User(d) => (3, d@),
        FontSource::System(d) => (4, d@),
    }
}

/// The sources to try, in order, given the configured font directory and
/// the user's home directory, when they are known.
pub open spec fn source_order(configured: Option<String>, home: Option<String>) -> Seq<
    (nat, Seq<char>),
> {
    seq![(0nat, Seq::<char>::empty())] + match configured {
        Some(d) => seq![(1nat, d@)],
        None => Seq::empty(),
    } + seq![(2nat, project_font_dir())] + match home {
        Some(h) => seq![(3nat, user_font_dir(h@))],
        None => Seq::empty(),
    } + seq![(4nat, system_font_dir())]
}

pub open spec fn sources_view(ss: Seq<FontSource>) -> Seq<(nat, Seq<char>)> {
    ss.map_values(|s: FontSource| source_view(s))
}

/// The glyph sources to try, in order of precedence.
pub fn font_sources(configured: Option<String>, home: Option<String>) -> (r: Vec<FontSource>)
    ensures
        sources_view(r@) == source_order(configured, home),
{
    let ghost c = configured;
    let ghost h = home;
    let mut r: Vec<FontSource> = Vec::new();
    r.push(FontSource::Embedded);
    if let Some(d) = configured {
        r.push(FontSource::Configured(d));
    }
    r.push(FontSource::Project(String::from_str("fonts/liberation-fonts")));
    if let Some(home) = home {
        let mut d = home;
        d.append("/.fonts/liberation-fonts");
        r.push(FontSource::User(d));
    }
    r.push(FontSource::System(String::from_str("/usr/share/fonts/truetype/liberation")));
    assert(sources_view(r@) =~= source_order(c, h));
    r
}

/// The first available candidate at or after position `i`.
pub open spec fn first_present(cs: Seq<FontCandidate>, i: int) -> Option<int>
    decreases cs.len() - i,
{
    if i < 0 || i >= cs.len() {
        None
    } else if cs[i].present {
        Some(i)
    } else {
        first_present(cs, i + 1)
    }
}

/// The position of the first available candidate; `None` when none is, in
/// which case no glyphs can be had.
pub fn choose_font_source(candidates: &Vec<FontCandidate>) -> (r: Option<usize>)
    ensures
        match r {
            Some(i) => first_present(candidates@, 0) == Some(i as int),
            None => first_present(candidates@, 0) is None,
        },
{
    let mut i: usize = 0;
    while i < candidates.len()
        invariant
            i <= candidates.len(),
            first_present(candidates@, 0) == first_present(candidates@, i as int),
        decreases candidates.len() - i,
    {
        if candidates[i].present {
            return Some(i);
        }
        i = i + 1;
    }
    None
}

/// How a glyph source is described in diagnostics: its directory, or a
/// note that the bundled glyphs are used.
pub open spec fn description(s: FontSource) -> Seq<char> {
    match s {
        FontSource::Embedded => "<embedded liberationSans fonts>"@,
        FontSource::Configured(d) => d@,
        FontSource::Project(d) => d@,
        FontSource::User(d) => d@,
        FontSource::System(d) => d@,
    }
}

/// Describes the glyph source in use.
pub fn active_source_description(s: &FontSource) -> (r: String)
    ensures
        r@ == description(*s),
{
    match s {
        FontSource::Embedded => String::from_str("<embedded liberationSans fonts>"),
        FontSource::Configured(d) => d.clone(),
        FontSource::Project(d) => d.clone(),
        FontSource::User(d) => d.clone(),
        FontSource::System(d) => d.clone(),
    }
}

proof fn lemma_first_present_bounds(cs: Seq<FontCandidate>, i: int)
    requires
        0 <= i,
    ensures
        match first_present(cs, i) {
            Some(k) => i <= k < cs.len() && cs[k].present && forall|j: int|
                i <= j < k ==> !#[trigger] cs[j].present,
            None => forall|j: int| i <= j < cs.len() ==> !#[trigger] cs[j].present,
        },
    decreases cs.len() - i,
{
    if i < cs.len() && !cs[i].present {
        lemma_first_present_bounds(cs, i + 1);
    }
}

proof fn lemma_order_monotone(configured: Option<String>, home: Option<String>, i: int, j: int)
    requires
        0 <= i <= j < source_order(configured, home).len(),
    ensures
        source_order(configured, home)[i].0 <= source_order(configured, home)[j].0,
{
    let o = source_order(configured, home);
    let p = project_font_dir();
    let z = Seq::<char>::empty();
    let s = system_font_dir();
    match (configured, home) {
        (Some(d), Some(h)) => {
            assert(o =~= seq![(0nat, z), (1nat, d@), (2nat, p), (3nat, user_font_dir(h@)), (4nat, s)]);
        },
        (Some(d), None) => {
            assert(o =~= seq![(0nat, z), (1nat, d@), (2nat, p), (4nat, s)]);
        },
        (None, Some(h)) => {
            assert(o =~= seq![(0nat, z), (2nat, p), (3nat, user_font_dir(h@)), (4nat, s)]);
        },
        (None, None) => {
            assert(o =~= seq![(0nat, z), (2nat, p), (4nat, s)]);
        },
    }
}

/// The first available source in the order of [`font_sources`] is the one
/// of lowest precedence rank among all available ones: bundled glyphs before
/// the configured directory, before the project, user and system directories.
pub proof fn lemma_font_precedence(sources: Seq<FontSource>, present: Seq<bool>, configured: Option<String>, home: Option<String>)
    requires
        sources_view(sources) == source_order(configured, home),
        present.len() == sources.len(),
    ensures
        ({
            let cs = Seq::new(
                sources.len(),
                |i: int| FontCandidate { source: sources[i], present: present[i] },
            );
            match first_present(cs, 0) {
                Some(k) => present[k] && forall|j: int|
                    0 <= j < sources.len() && present[j] ==> rank(sources[k]) <= rank(
                        #[trigger] sources[j],
                    ),
                None => forall|j: int| 0 <= j < sources.len() ==> !present[j],
            }
        }),
{
    let cs = Seq::new(
        sources.len(),
        |i: int| FontCandidate { source: sources[i], present: present[i] },
    );
    lemma_first_present_bounds(cs, 0);
    assert forall|j: int| 0 <= j < sources.len() implies rank(#[trigger] sources[j]) == source_order(
        configured,
        home,
    )[j].0 by {
        assert(sources_view(sources)[j] == source_view(sources[j]));
    }
    if let Some(k) = first_present(cs, 0) {
        assert forall|j: int| 0 <= j < sources.len() && present[j] implies rank(sources[k]) <= rank(
            #[trigger] sources[j],
        ) by {
            if j < k {
                assert(!cs[j].present);
            }
            lemma_order_monotone(configured, home, k, j);
        }
    } else {
        assert forall|j: int| 0 <= j < sources.len() implies !present[j] by {
            assert(!cs[j].present);
        }
    }
}

} // verus!
