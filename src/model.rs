//! The skyset document: typed fields with defaults and a schema version.
use vstd::prelude::*;

verus! {

pub const SCHEMA_VERSION: u32 = 1;

#[derive(Debug, Clone)]
pub struct Skyset {
    pub version: u32,
    pub origin: String,
    pub updated_at: String,
    pub message: String,
    pub submessage: String,
    pub source_will_update: bool,
    pub theme: Theme,
    pub palette: Palette,
    pub gradients: Gradients,
}

#[derive(Debug, Clone)]
pub struct Theme {
    pub mode: ThemeMode,
    pub accent: String,
}

#[derive(Debug, Clone, Copy, PartialEq, Eq, Structural)]
pub enum ThemeMode {
    Dark,
    Light,
    System,
    Unknown,
}

#[derive(Debug, Clone)]
pub struct Palette {
    pub primary: String,
    pub secondary: String,
    pub tertiary: String,
}

#[derive(Debug, Clone)]
pub struct Gradients {
    pub background: Vec<String>,
    pub hero: Vec<String>,
}

/// The document as plain values.
pub struct SkysetView {
    pub version: u32,
    pub origin: Seq<char>,
    pub updated_at: Seq<char>,
    pub message: Seq<char>,
    pub submessage: Seq<char>,
    pub source_will_update: bool,
    pub mode: ThemeMode,
    pub accent: Seq<char>,
    pub primary: Seq<char>,
    pub secondary: Seq<char>,
    pub tertiary: Seq<char>,
    pub background: Seq<Seq<char>>,
    pub hero: Seq<Seq<char>>,
}

/// The characters of each text of a list.
pub open spec fn texts(v: Seq<String>) -> Seq<Seq<char>> {
    v.map_values(|s: String| s@)
}

impl View for Skyset {
    type V = SkysetView;

    open spec fn view(&self) -> SkysetView {
        SkysetView {
            version: self.version,
            origin: self.origin@,
            updated_at: self.updated_at@,
            message: self.message@,
            submessage: self.submessage@,
            source_will_update: self.source_will_update,
            mode: self.theme.mode,
            accent: self.theme.accent@,
            primary: self.palette.primary@,
            secondary: self.palette.secondary@,
            tertiary: self.palette.tertiary@,
            background: texts(self.gradients.background@),
            hero: texts(self.gradients.hero@),
        }
    }
}

/// The all-defaults document.
pub open spec fn default_skyset() -> SkysetView {
    SkysetView {
        version: SCHEMA_VERSION,
        origin: Seq::empty(),
        updated_at: Seq::empty(),
        message: Seq::empty(),
        submessage: Seq::empty(),
        source_will_update: true,
        mode: ThemeMode::Dark,
        accent: "#7C4DFF"@,
        primary: "#0E0E10"@,
        secondary: "#1F1F23"@,
        tertiary: "#2E2E35"@,
        background: seq!["#0B0B12"@, "#141424"@, "#1D1D32"@],
        hero: seq!["#7C4DFF"@, "#5E35B1"@],
    }
}

impl Default for Skyset {
    fn default() -> (r: Skyset)
        ensures
            r@ == default_skyset(),
    {
        let theme = Theme::default();
        let palette = Palette::default();
        let gradients = Gradients::default();
        let r = Skyset {
            version: SCHEMA_VERSION,
            origin: String::new(),
            updated_at: String::new(),
            message: String::new(),
            submessage: String::new(),
            source_will_update: true,
            theme,
            palette,
            gradients,
        };
        assert(r@.background =~= default_skyset().background);
        assert(r@.hero =~= default_skyset().hero);
        r
    }
}

impl Default for Theme {
    fn default() -> (r: Theme)
        ensures
            r.mode == ThemeMode::Dark,
            r.accent@ == "#7C4DFF"@,
    {
        Theme { mode: ThemeMode::Dark, accent: String::from_str("#7C4DFF") }
    }
}

impl Default for ThemeMode {
    fn default() -> (r: ThemeMode)
        ensures
            r == ThemeMode::Dark,
    {
        ThemeMode::Dark
    }
}

impl Default for Palette {
    fn default() -> (r: Palette)
        ensures
            r.primary@ == "#0E0E10"@,
            r.secondary@ == "#1F1F23"@,
            r.tertiary@ == "#2E2E35"@,
    {
        Palette {
            primary: String::from_str("#0E0E10"),
            secondary: String::from_str("#1F1F23"),
            tertiary: String::from_str("#2E2E35"),
        }
    }
}

impl Default for Gradients {
    fn default() -> (r: Gradients)
        ensures
            texts(r.background@) == seq!["#0B0B12"@, "#141424"@, "#1D1D32"@],
            texts(r.hero@) == seq!["#7C4DFF"@, "#5E35B1"@],
    {
        let background = vec![
            String::from_str("#0B0B12"),
            String::from_str("#141424"),
            String::from_str("#1D1D32"),
        ];
        let hero = vec![String::from_str("#7C4DFF"), String::from_str("#5E35B1")];
        assert(texts(background@) =~= seq!["#0B0B12"@, "#141424"@, "#1D1D32"@]);
        assert(texts(hero@) =~= seq!["#7C4DFF"@, "#5E35B1"@]);
        Gradients { background, hero }
    }
}

fn copy_texts(v: &Vec<String>) -> (r: Vec<String>)
    ensures
        texts(r@) == texts(v@),
{
    let mut r: Vec<String> = Vec::new();
    let mut i: usize = 0;
    while i < v.len()
        invariant
            i <= v@.len(),
            texts(r@) =~= texts(v@).subrange(0, i as int),
        decreases v@.len() - i,
    {
        let item = v[i].clone();
        r.push(item);
        assert(texts(v@).subrange(0, i + 1) =~= texts(v@).subrange(0, i as int).push(v@[i as int]@));
        i = i + 1;
    }
    assert(texts(v@).subrange(0, v@.len() as int) =~= texts(v@));
    r
}

impl Skyset {
    /// A copy of the document, field for field.
    pub fn copied(&self) -> (r: Skyset)
        ensures
            r@ == self@,
    {
        Skyset {
            version: self.version,
            origin: self.origin.clone(),
            updated_at: self.updated_at.clone(),
            message: self.message.clone(),
            submessage: self.submessage.clone(),
            source_will_update: self.source_will_update,
            theme: Theme { mode: self.theme.mode, accent: self.theme.accent.clone() },
            palette: Palette {
                primary: self.palette.primary.clone(),
                secondary: self.palette.secondary.clone(),
                tertiary: self.palette.tertiary.clone(),
            },
            gradients: Gradients {
                background: copy_texts(&self.gradients.background),
                hero: copy_texts(&self.gradients.hero),
            },
        }
    }
}

/// Lower-case name of a theme mode.
pub open spec fn mode_label(mode: ThemeMode) -> Seq<char> {
    match mode {
        ThemeMode::Dark => "dark"@,
        ThemeMode::Light => "light"@,
        ThemeMode::System => "system"@,
        ThemeMode::Unknown => "unknown"@,
    }
}

pub fn theme_mode_label(mode: ThemeMode) -> (r: &'static str)
    ensures
        r@ == mode_label(mode),
{
    match mode {
        ThemeMode::Dark => "dark",
        ThemeMode::Light => "light",
        ThemeMode::System => "system",
        ThemeMode::Unknown => "unknown",
    }
}

/// Mode that a toggle moves to: dark, light, system and back to dark; an
/// unrecognised mode goes on as system does.
pub open spec fn next_mode(mode: ThemeMode) -> ThemeMode {
    match mode {
        ThemeMode::Dark => ThemeMode::Light,
        ThemeMode::Light => ThemeMode::System,
        ThemeMode::System | ThemeMode::Unknown => ThemeMode::Dark,
    }
}

/// Toggling the theme mode four times from system, or from an unrecognised mode,
/// ends on dark.
pub proof fn lemma_four_toggles_end_dark(mode: ThemeMode)
    requires
        mode == ThemeMode::System || mode == ThemeMode::Unknown,
    ensures
        next_mode(next_mode(next_mode(next_mode(mode)))) == ThemeMode::Dark,
{
}

/// Toggling the theme mode three times from any recognised mode comes back to it.
pub proof fn lemma_three_toggles_cycle(mode: ThemeMode)
    requires
        mode != ThemeMode::Unknown,
    ensures
        next_mode(next_mode(next_mode(mode))) == mode,
{
}

} // verus!
