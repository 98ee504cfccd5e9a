//! The field registry and the editor state machine.
use vstd::prelude::*;
pub use crate::color::normalize_hex;
use crate::color::canonical_hex;
use crate::model::{mode_label, next_mode, texts, theme_mode_label, Skyset, SkysetView, ThemeMode};
use crate::text::{lower_of, lowercase, pop_char_from, push_char_to, same_text};

verus! {

/// The editable fields, in navigation order.
#[derive(Debug, Clone, Copy, PartialEq, Eq, Structural)]
pub enum FieldId {
    Origin,
    Message,
    Submessage,
    ThemeMode,
    Accent,
    Primary,
    Secondary,
    Tertiary,
    Background1,
    Background2,
    Background3,
    Hero1,
    Hero2,
    SourceWillUpdate,
}

pub const FIELD_COUNT: usize = 14;

/// The field at position `i` of the navigation order.
pub open spec fn field_at(i: int) -> FieldId {
    if i == 0 {
        FieldId::Origin
    } else if i == 1 {
        FieldId::Message
    } else if i == 2 {
        FieldId::Submessage
    } else if i == 3 {
        FieldId::ThemeMode
    } else if i == 4 {
        FieldId::Accent
    } else if i == 5 {
        FieldId::Primary
    } else if i == 6 {
        FieldId::Secondary
    } else if i == 7 {
        FieldId::Tertiary
    } else if i == 8 {
        FieldId::Background1
    } else if i == 9 {
        FieldId::Background2
    } else if i == 10 {
        FieldId::Background3
    } else if i == 11 {
        FieldId::Hero1
    } else if i == 12 {
        FieldId::Hero2
    } else {
        FieldId::SourceWillUpdate
    }
}

/// Position of a field in the navigation order.
pub open spec fn field_index(f: FieldId) -> int {
    match f {
        FieldId::Origin => 0,
        FieldId::Message => 1,
        FieldId::Submessage => 2,
        FieldId::ThemeMode => 3,
        FieldId::Accent => 4,
        FieldId::Primary => 5,
        FieldId::Secondary => 6,
        FieldId::Tertiary => 7,
        FieldId::Background1 => 8,
        FieldId::Background2 => 9,
        FieldId::Background3 => 10,
        FieldId::Hero1 => 11,
        FieldId::Hero2 => 12,
        FieldId::SourceWillUpdate => 13,
    }
}

/// The whole navigation order.
pub open spec fn field_order() -> Seq<FieldId> {
    Seq::new(FIELD_COUNT as nat, |i: int| field_at(i))
}

pub open spec fn is_toggle_field(f: FieldId) -> bool {
    f == FieldId::ThemeMode || f == FieldId::SourceWillUpdate
}

/// A gradient stop as text: empty where the sequence is shorter than the stop.
pub open spec fn stop_text(stops: Seq<Seq<char>>, k: int) -> Seq<char> {
    if 0 <= k < stops.len() {
        stops[k]
    } else {
        Seq::empty()
    }
}

pub open spec fn bool_text(b: bool) -> Seq<char> {
    if b {
        "true"@
    } else {
        "false"@
    }
}

/// The display text of a field of a document.
pub open spec fn field_text(m: SkysetView, f: FieldId) -> Seq<char> {
    match f {
        FieldId::Origin => m.origin,
        FieldId::Message => m.message,
        FieldId::Submessage => m.submessage,
        FieldId::ThemeMode => mode_label(m.mode),
        FieldId::Accent => m.accent,
        FieldId::Primary => m.primary,
        FieldId::Secondary => m.secondary,
        FieldId::Tertiary => m.tertiary,
        FieldId::Background1 => stop_text(m.background, 0),
        FieldId::Background2 => stop_text(m.background, 1),
        FieldId::Background3 => stop_text(m.background, 2),
        FieldId::Hero1 => stop_text(m.hero, 0),
        FieldId::Hero2 => stop_text(m.hero, 1),
        FieldId::SourceWillUpdate => bool_text(m.source_will_update),
    }
}

/// The theme mode that a lower-cased text names.
pub open spec fn mode_from_lower(l: Seq<char>) -> Option<ThemeMode> {
    if l == "dark"@ {
        Some(ThemeMode::Dark)
    } else if l == "light"@ {
        Some(ThemeMode::Light)
    } else if l == "system"@ {
        Some(ThemeMode::System)
    } else {
        None
    }
}

/// The boolean that a lower-cased text is coerced to: only `true`, `1` and `yes`
/// count as true.
pub open spec fn bool_from_lower(l: Seq<char>) -> bool {
    l == "true"@ || l == "1"@ || l == "yes"@
}

/// A stop sequence with stop `k` set to `c`; stops created in between are black.
pub open spec fn set_stop(stops: Seq<Seq<char>>, k: int, c: Seq<char>) -> Seq<Seq<char>> {
    if k < stops.len() {
        stops.update(k, c)
    } else {
        stops + Seq::new((k - stops.len()) as nat, |i: int| "#000000"@) + seq![c]
    }
}

/// The document after assigning `v` to field `f`, or `None` where `v` does not
/// validate for that field.
pub open spec fn assign_field(m: SkysetView, f: FieldId, v: Seq<char>) -> Option<SkysetView> {
    match f {
        FieldId::Origin => Some(SkysetView { origin: v, ..m }),
        FieldId::Message => Some(SkysetView { message: v, ..m }),
        FieldId::Submessage => Some(SkysetView { submessage: v, ..m }),
        FieldId::ThemeMode => match mode_from_lower(lower_of(v)) {
            Some(mode) => Some(SkysetView { mode, ..m }),
            None => None,
        },
        FieldId::SourceWillUpdate => Some(
            SkysetView { source_will_update: bool_from_lower(lower_of(v)), ..m },
        ),
        _ => match canonical_hex(v) {
            Some(c) => Some(
                match f {
                    FieldId::Accent => SkysetView { accent: c, ..m },
                    FieldId::Primary => SkysetView { primary: c, ..m },
                    FieldId::Secondary => SkysetView { secondary: c, ..m },
                    FieldId::Tertiary => SkysetView { tertiary: c, ..m },
                    FieldId::Background1 => SkysetView { background: set_stop(m.background, 0, c), ..m },
                    FieldId::Background2 => SkysetView { background: set_stop(m.background, 1, c), ..m },
                    FieldId::Background3 => SkysetView { background: set_stop(m.background, 2, c), ..m },
                    FieldId::Hero1 => SkysetView { hero: set_stop(m.hero, 0, c), ..m },
                    _ => SkysetView { hero: set_stop(m.hero, 1, c), ..m },
                },
            ),
            None => None,
        },
    }
}

/// The document after a toggle of field `f`; fields that are no toggles stay.
pub open spec fn toggled(m: SkysetView, f: FieldId) -> SkysetView {
    match f {
        FieldId::ThemeMode => SkysetView { mode: next_mode(m.mode), ..m },
        FieldId::SourceWillUpdate => SkysetView { source_will_update: !m.source_will_update, ..m },
        _ => m,
    }
}

/// What a field reads back as after `v` was assigned to it, if `v` validates.
pub open spec fn canonical_value(f: FieldId, v: Seq<char>) -> Option<Seq<char>> {
    match f {
        FieldId::Origin | FieldId::Message | FieldId::Submessage => Some(v),
        FieldId::ThemeMode => match mode_from_lower(lower_of(v)) {
            Some(mode) => Some(mode_label(mode)),
            None => None,
        },
        FieldId::SourceWillUpdate => Some(bool_text(bool_from_lower(lower_of(v)))),
        _ => canonical_hex(v),
    }
}

/// The name under which a field is shown.
pub open spec fn field_label(f: FieldId) -> Seq<char> {
    match f {
        FieldId::Origin => "Origin"@,
        FieldId::Message => "Message"@,
        FieldId::Submessage => "Submessage"@,
        FieldId::ThemeMode => "Theme mode"@,
        FieldId::Accent => "Accent"@,
        FieldId::Primary => "Primary"@,
        FieldId::Secondary => "Secondary"@,
        FieldId::Tertiary => "Tertiary"@,
        FieldId::Background1 => "Background #1"@,
        FieldId::Background2 => "Background #2"@,
        FieldId::Background3 => "Background #3"@,
        FieldId::Hero1 => "Hero #1"@,
        FieldId::Hero2 => "Hero #2"@,
        FieldId::SourceWillUpdate => "Source will update"@,
    }
}

impl FieldId {
    pub fn label(self) -> (r: &'static str)
        ensures
            r@ == field_label(self),
    {
        match self {
            FieldId::Origin => "Origin",
            FieldId::Message => "Message",
            FieldId::Submessage => "Submessage",
            FieldId::ThemeMode => "Theme mode",
            FieldId::Accent => "Accent",
            FieldId::Primary => "Primary",
            FieldId::Secondary => "Secondary",
            FieldId::Tertiary => "Tertiary",
            FieldId::Background1 => "Background #1",
            FieldId::Background2 => "Background #2",
            FieldId::Background3 => "Background #3",
            FieldId::Hero1 => "Hero #1",
            FieldId::Hero2 => "Hero #2",
            FieldId::SourceWillUpdate => "Source will update",
        }
    }

    pub fn is_toggle(self) -> (r: bool)
        ensures
            r == is_toggle_field(self),
    {
        matches!(self, FieldId::ThemeMode | FieldId::SourceWillUpdate)
    }
}

/// The field at position `i` of the navigation order.
pub fn field_at_index(i: usize) -> (r: FieldId)
    requires
        i < FIELD_COUNT,
    ensures
        r == field_at(i as int),
{
    if i == 0 {
        FieldId::Origin
    } else if i == 1 {
        FieldId::Message
    } else if i == 2 {
        FieldId::Submessage
    } else if i == 3 {
        FieldId::ThemeMode
    } else if i == 4 {
        FieldId::Accent
    } else if i == 5 {
        FieldId::Primary
    } else if i == 6 {
        FieldId::Secondary
    } else if i == 7 {
        FieldId::Tertiary
    } else if i == 8 {
        FieldId::Background1
    } else if i == 9 {
        FieldId::Background2
    } else if i == 10 {
        FieldId::Background3
    } else if i == 11 {
        FieldId::Hero1
    } else if i == 12 {
        FieldId::Hero2
    } else {
        FieldId::SourceWillUpdate
    }
}

/// The theme mode named by an already lower-cased text.
pub fn parse_theme_mode(lowered: &str) -> (r: Option<ThemeMode>)
    ensures
        r == mode_from_lower(lowered@),
{
    if same_text(lowered, "dark") {
        Some(ThemeMode::Dark)
    } else if same_text(lowered, "light") {
        Some(ThemeMode::Light)
    } else if same_text(lowered, "system") {
        Some(ThemeMode::System)
    } else {
        None
    }
}

/// The boolean that an already lower-cased text is coerced to.
pub fn parse_flag(lowered: &str) -> (r: bool)
    ensures
        r == bool_from_lower(lowered@),
{
    same_text(lowered, "true") || same_text(lowered, "1") || same_text(lowered, "yes")
}

fn copy_text(s: &String) -> (r: String)
    ensures
        r@ == s@,
{
    s.clone()
}

fn stop_value(stops: &Vec<String>, k: usize) -> (r: String)
    ensures
        r@ == stop_text(texts(stops@), k as int),
{
    if k < stops.len() {
        stops[k].clone()
    } else {
        String::new()
    }
}

fn bool_value(b: bool) -> (r: String)
    ensures
        r@ == bool_text(b),
{
    if b {
        String::from_str("true")
    } else {
        String::from_str("false")
    }
}

/// The current value of a field, as display text.
pub fn field_value(skyset: &Skyset, field: FieldId) -> (r: String)
    ensures
        r@ == field_text(skyset@, field),
{
    match field {
        FieldId::Origin => copy_text(&skyset.origin),
        FieldId::Message => copy_text(&skyset.message),
        FieldId::Submessage => copy_text(&skyset.submessage),
        FieldId::ThemeMode => String::from_str(theme_mode_label(skyset.theme.mode)),
        FieldId::Accent => copy_text(&skyset.theme.accent),
        FieldId::Primary => copy_text(&skyset.palette.primary),
        FieldId::Secondary => copy_text(&skyset.palette.secondary),
        FieldId::Tertiary => copy_text(&skyset.palette.tertiary),
        FieldId::Background1 => stop_value(&skyset.gradients.background, 0),
        FieldId::Background2 => stop_value(&skyset.gradients.background, 1),
        FieldId::Background3 => stop_value(&skyset.gradients.background, 2),
        FieldId::Hero1 => stop_value(&skyset.gradients.hero, 0),
        FieldId::Hero2 => stop_value(&skyset.gradients.hero, 1),
        FieldId::SourceWillUpdate => bool_value(skyset.source_will_update),
    }
}

/// Sets gradient stop `index` to the canonical form of `value`, creating black
/// stops up to it where the sequence is shorter.
fn set_gradient(gradient: &mut Vec<String>, index: usize, value: String) -> (r: Result<(), String>)
    requires
        index < 3,
    ensures
        r is Ok <==> canonical_hex(value@) is Some,
        r is Ok ==> texts(final(gradient)@) == set_stop(
            texts(old(gradient)@),
            index as int,
            canonical_hex(value@)->0,
        ),
        r is Err ==> final(gradient)@ == old(gradient)@,
{
    let normalized = normalize_hex(value.as_str())?;
    let ghost c = normalized@;
    let ghost s0 = texts(gradient@);
    let ghost n0 = gradient@.len();
    if index < gradient.len() {
        gradient[index] = normalized;
        assert(texts(gradient@) =~= s0.update(index as int, c));
        return Ok(());
    }
    while gradient.len() < index
        invariant
            n0 <= gradient@.len() <= index,
            texts(gradient@) =~= s0 + Seq::new((gradient@.len() - n0) as nat, |i: int| "#000000"@),
        decreases index - gradient@.len(),
    {
        let ghost before = texts(gradient@);
        gradient.push(String::from_str("#000000"));
        assert(texts(gradient@) =~= before.push("#000000"@));
    }
    gradient.push(normalized);
    assert(texts(gradient@) =~= set_stop(s0, index as int, c));
    Ok(())
}

/// Assigns a field. Text fields take `value` verbatim, color fields its canonical
/// form, the theme mode a mode name in any letter case, and the update flag the
/// coercion of `value`. Where `value` does not validate, the document is left
/// as it was and an error is returned.
pub fn set_field_value(skyset: &mut Skyset, field: FieldId, value: String) -> (r: Result<(), String>)
    ensures
        r is Ok <==> assign_field(old(skyset)@, field, value@) is Some,
        r is Ok ==> final(skyset)@ == assign_field(old(skyset)@, field, value@)->0,
        r is Err ==> final(skyset)@ == old(skyset)@,
{
    match field {
        FieldId::Origin => {
            skyset.origin = value;
        },
        FieldId::Message => {
            skyset.message = value;
        },
        FieldId::Submessage => {
            skyset.submessage = value;
        },
        FieldId::Accent => {
            skyset.theme.accent = normalize_hex(value.as_str())?;
        },
        FieldId::Primary => {
            skyset.palette.primary = normalize_hex(value.as_str())?;
        },
        FieldId::Secondary => {
            skyset.palette.secondary = normalize_hex(value.as_str())?;
        },
        FieldId::Tertiary => {
            skyset.palette.tertiary = normalize_hex(value.as_str())?;
        },
        FieldId::Background1 => {
            set_gradient(&mut skyset.gradients.background, 0, value)?;
        },
        FieldId::Background2 => {
            set_gradient(&mut skyset.gradients.background, 1, value)?;
        },
        FieldId::Background3 => {
            set_gradient(&mut skyset.gradients.background, 2, value)?;
        },
        FieldId::Hero1 => {
            set_gradient(&mut skyset.gradients.hero, 0, value)?;
        },
        FieldId::Hero2 => {
            set_gradient(&mut skyset.gradients.hero, 1, value)?;
        },
        FieldId::ThemeMode => {
            let lowered = lowercase(value.as_str());
            match parse_theme_mode(lowered.as_str()) {
                Some(mode) => {
                    skyset.theme.mode = mode;
                },
                None => {
                    return Err(String::from_str("Theme mode must be dark, light, or system"));
                },
            }
        },
        FieldId::SourceWillUpdate => {
            let lowered = lowercase(value.as_str());
            skyset.source_will_update = parse_flag(lowered.as_str());
        },
    }
    Ok(())
}

/// Cycles the theme mode or flips the update flag; any other field is left alone.
pub fn toggle_field(skyset: &mut Skyset, field: FieldId)
    ensures
        final(skyset)@ == toggled(old(skyset)@, field),
{
    match field {
        FieldId::ThemeMode => {
            skyset.theme.mode = match skyset.theme.mode {
                ThemeMode::Dark => ThemeMode::Light,
                ThemeMode::Light => ThemeMode::System,
                ThemeMode::System | ThemeMode::Unknown => ThemeMode::Dark,
            };
        },
        FieldId::SourceWillUpdate => {
            skyset.source_will_update = !skyset.source_will_update;
        },
        _ => {},
    }
}

/// Reading a field back after assigning a value that validates gives the value's
/// canonical form; a value validates exactly where it has one. (Where it does not
/// validate, `set_field_value` leaves the document as it was.)
pub proof fn lemma_set_then_get(m: SkysetView, f: FieldId, v: Seq<char>)
    ensures
        assign_field(m, f, v) is Some <==> canonical_value(f, v) is Some,
        assign_field(m, f, v) is Some ==> field_text(assign_field(m, f, v)->0, f)
            == canonical_value(f, v)->0,
{
    if let Some(c) = canonical_hex(v) {
        lemma_set_stop_reads_back(m.background, 0, c);
        lemma_set_stop_reads_back(m.background, 1, c);
        lemma_set_stop_reads_back(m.background, 2, c);
        lemma_set_stop_reads_back(m.hero, 0, c);
        lemma_set_stop_reads_back(m.hero, 1, c);
    }
}

/// A stop that was set reads back as what it was set to, and the stops before
/// it are kept.
pub proof fn lemma_set_stop_reads_back(stops: Seq<Seq<char>>, k: int, c: Seq<char>)
    requires
        0 <= k,
    ensures
        stop_text(set_stop(stops, k, c), k) == c,
        set_stop(stops, k, c).len() == if k < stops.len() {
            stops.len() as int
        } else {
            k + 1
        },
        forall|j: int| 0 <= j < stops.len() && j != k ==> #[trigger] set_stop(stops, k, c)[j] == stops[j],
{
}

/// The editor's selection and its input buffer.
pub struct EditorState {
    selected: usize,
    input: String,
}

/// The editor state as plain values.
pub struct EditorView {
    pub selected: int,
    pub input: Seq<char>,
}

impl View for EditorState {
    type V = EditorView;

    closed spec fn view(&self) -> EditorView {
        EditorView { selected: self.selected as int, input: self.input@ }
    }
}

/// The selection that follows `i` in the circular order.
pub open spec fn next_index(i: int) -> int {
    (i + 1) % (FIELD_COUNT as int)
}

/// The selection that precedes `i` in the circular order.
pub open spec fn previous_index(i: int) -> int {
    (i + FIELD_COUNT - 1) % (FIELD_COUNT as int)
}

/// The selection after `n` moves forward from `i`.
pub open spec fn advance(i: int, n: nat) -> int
    decreases n,
{
    if n == 0 {
        i
    } else {
        advance(next_index(i), (n - 1) as nat)
    }
}

proof fn lemma_advance_is_sum(i: int, n: nat)
    requires
        0 <= i < FIELD_COUNT,
    ensures
        advance(i, n) == (i + n) % (FIELD_COUNT as int),
    decreases n,
{
    if n > 0 {
        lemma_advance_is_sum(next_index(i), (n - 1) as nat);
        assert(((i + 1) % 14 + (n - 1)) % 14 == (i + n) % 14) by (nonlinear_arith)
            requires 0 <= i < 14, n >= 1;
    }
}

/// Moving to the next field as many times as there are fields comes back to the
/// field one started from.
pub proof fn lemma_full_cycle(i: int)
    requires
        0 <= i < FIELD_COUNT,
    ensures
        advance(i, FIELD_COUNT as nat) == i,
{
    lemma_advance_is_sum(i, FIELD_COUNT as nat);
}

/// Moving forward and then back leaves the selection where it was.
pub proof fn lemma_next_then_previous(i: int)
    requires
        0 <= i < FIELD_COUNT,
    ensures
        previous_index(next_index(i)) == i,
        next_index(previous_index(i)) == i,
{
}

impl EditorState {
    #[verifier::type_invariant]
    spec fn inv(&self) -> bool {
        self.selected < FIELD_COUNT
    }

    /// An editor on the first field, its buffer holding that field's value.
    pub fn new(skyset: &Skyset) -> (r: EditorState)
        ensures
            r@.selected == 0,
            r@.input == field_text(skyset@, field_at(0)),
    {
        let selected: usize = 0;
        let input = field_value(skyset, field_at_index(selected));
        EditorState { selected, input }
    }

    pub fn fields(&self) -> (r: Vec<FieldId>)
        ensures
            r@ == field_order(),
    {
        let mut r: Vec<FieldId> = Vec::new();
        let mut i: usize = 0;
        while i < FIELD_COUNT
            invariant
                i <= FIELD_COUNT,
                r@ =~= Seq::new(i as nat, |j: int| field_at(j)),
            decreases FIELD_COUNT - i,
        {
            r.push(field_at_index(i));
            i = i + 1;
        }
        r
    }

    pub fn selected(&self) -> (r: usize)
        ensures
            r as int == self@.selected,
            r < FIELD_COUNT,
    {
        proof {
            use_type_invariant(self);
        }
        self.selected
    }

    pub fn input(&self) -> (r: &str)
        ensures
            r@ == self@.input,
    {
        self.input.as_str()
    }

    pub fn set_input(&mut self, value: String)
        ensures
            final(self)@ == (EditorView { input: value@, ..old(self)@ }),
    {
        proof {
            use_type_invariant(&*self);
        }
        self.input = value;
    }

    /// Appends a character to the buffer; the document is not touched.
    pub fn push_char(&mut self, value: char)
        ensures
            final(self)@ == (EditorView { input: old(self)@.input.push(value), ..old(self)@ }),
    {
        proof {
            use_type_invariant(&*self);
        }
        let mut buffer = self.input.clone();
        push_char_to(&mut buffer, value);
        self.input = buffer;
    }

    /// Removes the last character of the buffer, if any.
    pub fn pop_char(&mut self)
        ensures
            final(self)@.selected == old(self)@.selected,
            old(self)@.input.len() > 0 ==> final(self)@.input == old(self)@.input.drop_last(),
            old(self)@.input.len() == 0 ==> final(self)@.input == old(self)@.input,
    {
        proof {
            use_type_invariant(&*self);
        }
        let mut buffer = self.input.clone();
        pop_char_from(&mut buffer);
        self.input = buffer;
    }

    pub fn current_field(&self) -> (r: FieldId)
        ensures
            r == field_at(self@.selected),
    {
        proof {
            use_type_invariant(self);
        }
        field_at_index(self.selected)
    }

    /// Selects the next field, circularly, and loads its value into the buffer.
    pub fn next(&mut self, skyset: &Skyset)
        ensures
            final(self)@.selected == next_index(old(self)@.selected),
            final(self)@.input == field_text(skyset@, field_at(final(self)@.selected)),
    {
        proof {
            use_type_invariant(&*self);
        }
        self.selected = (self.selected + 1) % FIELD_COUNT;
        self.input = field_value(skyset, field_at_index(self.selected));
    }

    /// Selects the previous field, circularly, and loads its value into the buffer.
    pub fn previous(&mut self, skyset: &Skyset)
        ensures
            final(self)@.selected == previous_index(old(self)@.selected),
            final(self)@.input == field_text(skyset@, field_at(final(self)@.selected)),
    {
        proof {
            use_type_invariant(&*self);
        }
        self.selected = (self.selected + FIELD_COUNT - 1) % FIELD_COUNT;
        self.input = field_value(skyset, field_at_index(self.selected));
    }
}

/// Whether the buffer differs from the committed value of the selected field.
pub fn is_editing(editor: &EditorState, skyset: &Skyset) -> (r: bool)
    ensures
        r == (editor@.input != field_text(skyset@, field_at(editor@.selected))),
{
    let current = field_value(skyset, editor.current_field());
    !same_text(editor.input(), current.as_str())
}

} // verus!
