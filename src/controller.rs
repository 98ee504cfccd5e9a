//! The controller that owns the document, the editor and the raw content last
//! seen in storage, and reconciles them.
use vstd::prelude::*;
use std::path::PathBuf;
use crate::cli::{override_text, CliOverrides};
use crate::editor::{
    assign_field, field_at, field_at_index, field_text, is_editing, is_toggle_field, next_index,
    previous_index, set_field_value, toggle_field, toggled, EditorState, EditorView, FieldId,
    FIELD_COUNT,
};
use crate::io::{is_blank, load_initial_state, outcome_document, outcome_raw, ReadOutcome};
use crate::model::{default_skyset, Skyset, SkysetView, SCHEMA_VERSION};
use crate::text::{trim_text, trimmed};

verus! {

/// std's `PathBuf`: the location of the stored file, carried through unread.
#[verifier::external_type_specification]
#[verifier::external_body]
pub struct ExPathBuf(PathBuf);

/// The last second of the year 9999, in seconds since the Unix epoch.
pub const LAST_FOUR_DIGIT_SECOND: i64 = 253402300799;

/// What chrono writes for the UTC time `secs` seconds after the Unix epoch, in
/// RFC 3339 form to the second with a `Z` designator.
pub uninterp spec fn rfc3339_utc_of(secs: int) -> Seq<char>;

pub open spec fn is_digit(c: char) -> bool {
    '0' <= c && c <= '9'
}

/// `YYYY-MM-DDTHH:MM:SSZ`: a UTC time to the second with a zone designator.
pub open spec fn is_utc_seconds_stamp(t: Seq<char>) -> bool {
    &&& t.len() == 20
    &&& forall|i: int|
        0 <= i < 20 && i != 4 && i != 7 && i != 10 && i != 13 && i != 16 && i != 19 ==> is_digit(
            #[trigger] t[i],
        )
    &&& t[4] == '-' && t[7] == '-' && t[10] == 'T' && t[13] == ':' && t[16] == ':' && t[19] == 'Z'
}

/// What holds of every stamp that chrono writes: at least twenty characters
/// ending in `Z`, and exactly `YYYY-MM-DDTHH:MM:SSZ` for a four-digit year.
pub open spec fn is_save_stamp(t: Seq<char>, secs: int) -> bool {
    &&& t.len() >= 20
    &&& t.last() == 'Z'
    &&& 0 <= secs <= LAST_FOUR_DIGIT_SECOND ==> is_utc_seconds_stamp(t)
}

/// Relies on chrono's `DateTime::<Utc>::from_timestamp(secs, 0)`, which gives
/// `None` only where the day falls outside chrono's date range, and on
/// `DateTime::to_rfc3339_opts(SecondsFormat::Secs, true)`, which writes the year
/// (four digits in 0..=9999, else signed), `-MM-DDTHH:MM:SS` and `Z` for UTC.
#[verifier::external_body]
fn rfc3339_utc(secs: i64) -> (r: Option<String>)
    ensures
        0 <= secs <= LAST_FOUR_DIGIT_SECOND ==> r is Some,
        r is Some ==> r->0@ == rfc3339_utc_of(secs as int) && is_save_stamp(r->0@, secs as int),
{
    match chrono::DateTime::from_timestamp(secs, 0) {
        Some(t) => Some(t.to_rfc3339_opts(chrono::SecondsFormat::Secs, true)),
        None => None,
    }
}

pub struct App {
    path: PathBuf,
    skyset: Skyset,
    editor: EditorState,
    last_raw: String,
}

/// The controller's state as plain values.
pub struct AppView {
    pub document: SkysetView,
    pub editor: EditorView,
    pub last_raw: Seq<char>,
    pub path: PathBuf,
}

impl View for App {
    type V = AppView;

    closed spec fn view(&self) -> AppView {
        AppView {
            document: self.skyset@,
            editor: self.editor@,
            last_raw: self.last_raw@,
            path: self.path,
        }
    }
}

/// The editor with its buffer reloaded from the document's value of the selected field.
pub open spec fn synced(e: EditorView, m: SkysetView) -> EditorView {
    EditorView { input: field_text(m, field_at(e.selected)), ..e }
}

/// An override applied to a document: kept where it validates, dropped where not.
pub open spec fn apply_one(m: SkysetView, f: FieldId, o: Option<Seq<char>>) -> SkysetView {
    match o {
        Some(v) => match assign_field(m, f, v) {
            Some(m2) => m2,
            None => m,
        },
        None => m,
    }
}

/// The document after applying the overrides of the first `n` fields, in field order.
pub open spec fn apply_overrides_upto(m: SkysetView, ov: CliOverrides, n: nat) -> SkysetView
    decreases n,
{
    if n == 0 {
        m
    } else {
        let k = (n - 1) as nat;
        apply_one(apply_overrides_upto(m, ov, k), field_at(k as int), override_text(ov, field_at(k as int)))
    }
}

/// The document as it is written by a save stamped `at`.
pub open spec fn stamped(m: SkysetView, at: Seq<char>) -> SkysetView {
    SkysetView { updated_at: at, version: SCHEMA_VERSION, ..m }
}

/// The document after the editor's buffer is committed to the selected field:
/// a toggle field toggles whatever was typed, any other field is assigned the
/// trimmed buffer, and keeps its value where that does not validate.
pub open spec fn committed(m: SkysetView, e: EditorView) -> SkysetView {
    let f = field_at(e.selected);
    if is_toggle_field(f) {
        toggled(m, f)
    } else {
        apply_one(m, f, Some(trimmed(e.input)))
    }
}

/// The controller after taking a read of document `doc` from raw text `raw`:
/// unchanged where `raw` is the content last seen, else on the new document with
/// the buffer reloaded from it.
pub open spec fn reconciled(a: AppView, doc: SkysetView, raw: Seq<char>) -> AppView {
    if raw == a.last_raw {
        a
    } else {
        AppView { document: doc, editor: synced(a.editor, doc), last_raw: raw, ..a }
    }
}

/// The controller after a save stamped `at` that wrote `raw`.
pub open spec fn after_save(a: AppView, at: Seq<char>, raw: Seq<char>) -> AppView {
    AppView { document: stamped(a.document, at), last_raw: raw, ..a }
}

/// The copy that a save writes differs from the committed document only in its
/// time stamp and schema version: every editable field reads the same.
pub proof fn lemma_stamp_keeps_fields(m: SkysetView, at: Seq<char>)
    ensures
        forall|f: FieldId| #[trigger] field_text(stamped(m, at), f) == field_text(m, f),
        stamped(m, at).version == SCHEMA_VERSION,
        stamped(m, at).updated_at == at,
{
}

/// Save, then load: where the text that a save wrote parses back to the copy it
/// was written from, loading that text adopts the copy, whose editable fields
/// all read as the saved document's; only the time stamp and the schema version
/// differ. The controller that made the save takes the read for no outside change.
pub proof fn lemma_save_then_load(a: AppView, at: Seq<char>, raw: Seq<char>)
    requires
        !is_blank(raw),
    ensures
        outcome_document(raw, Some(stamped(a.document, at))) == (SkysetView {
            updated_at: at,
            version: SCHEMA_VERSION,
            ..a.document
        }),
        forall|f: FieldId| #[trigger] field_text(outcome_document(raw, Some(stamped(a.document, at))), f)
            == field_text(a.document, f),
        outcome_raw(raw) == raw,
        reconciled(after_save(a, at, raw), stamped(a.document, at), outcome_raw(raw)) == after_save(
            a,
            at,
            raw,
        ),
{
}

/// Taking the same read twice is taking it once.
pub proof fn lemma_reconcile_idempotent(a: AppView, doc: SkysetView, raw: Seq<char>)
    ensures
        reconciled(reconciled(a, doc, raw), doc, raw) == reconciled(a, doc, raw),
{
}

/// A read of the very text that the last save wrote is not taken for an outside
/// change: the document and the buffer stay as they are.
pub proof fn lemma_reload_after_save(a: AppView, at: Seq<char>, raw: Seq<char>, doc: SkysetView)
    ensures
        reconciled(after_save(a, at, raw), doc, raw) == after_save(a, at, raw),
{
}

/// A read whose raw text differs from the content last seen replaces the
/// committed document and reloads the buffer from it.
pub proof fn lemma_changed_read_replaces(a: AppView, doc: SkysetView, raw: Seq<char>)
    requires
        raw != a.last_raw,
    ensures
        reconciled(a, doc, raw).document == doc,
        reconciled(a, doc, raw).last_raw == raw,
        reconciled(a, doc, raw).editor.input == field_text(doc, field_at(a.editor.selected)),
{
}

/// Whether committing the buffer fails validation: the selected field is no
/// toggle and the trimmed buffer is not a valid value for it.
pub open spec fn input_rejected(m: SkysetView, e: EditorView) -> bool {
    let f = field_at(e.selected);
    !is_toggle_field(f) && assign_field(m, f, trimmed(e.input)) is None
}

impl App {
    /// A controller on the document that was read, or on the defaults where the
    /// read failed; the editor starts on the first field.
    pub fn new(path: PathBuf, read: Option<ReadOutcome>) -> (r: App)
        ensures
            read is Some ==> r@.document == read->0.skyset@ && r@.last_raw == read->0.raw@,
            read is None ==> r@.document == default_skyset() && r@.last_raw == Seq::<char>::empty(),
            r@.editor.selected == 0,
            r@.editor.input == field_text(r@.document, field_at(0)),
            r@.path == path,
    {
        let outcome = load_initial_state(read);
        let editor = EditorState::new(&outcome.skyset);
        App { path, skyset: outcome.skyset, editor, last_raw: outcome.raw }
    }

    pub fn path(&self) -> (r: &PathBuf)
        ensures
            *r == self@.path,
    {
        &self.path
    }

    pub fn skyset(&self) -> (r: &Skyset)
        ensures
            r@ == self@.document,
    {
        &self.skyset
    }

    pub fn editor(&self) -> (r: &EditorState)
        ensures
            r@ == self@.editor,
    {
        &self.editor
    }

    /// The raw content last seen in storage.
    pub fn last_raw(&self) -> (r: &str)
        ensures
            r@ == self@.last_raw,
    {
        self.last_raw.as_str()
    }

    fn sync_editor_input(&mut self)
        ensures
            final(self)@ == (AppView { editor: synced(old(self)@.editor, old(self)@.document), ..old(self)@ }),
    {
        let value = crate::editor::field_value(&self.skyset, self.editor.current_field());
        self.editor.set_input(value);
    }

    /// Takes a fresh read: where its raw content is what was last seen nothing
    /// changes, not even the editor's buffer; otherwise its document replaces the
    /// committed one and the buffer is reloaded from it.
    pub fn apply_outcome(&mut self, outcome: ReadOutcome)
        ensures
            final(self)@ == reconciled(old(self)@, outcome.skyset@, outcome.raw@),
    {
        if outcome.raw != self.last_raw {
            self.skyset = outcome.skyset;
            self.sync_editor_input();
            self.last_raw = outcome.raw;
        }
    }

    /// Takes the result of re-reading storage: a read as `apply_outcome` does;
    /// a failed read resets to the defaults and forgets the raw content.
    pub fn reload_from_disk(&mut self, read: Option<ReadOutcome>)
        ensures
            read is Some ==> final(self)@ == reconciled(old(self)@, read->0.skyset@, read->0.raw@),
            read is None ==> final(self)@ == (AppView {
                document: default_skyset(),
                last_raw: Seq::<char>::empty(),
                ..old(self)@
            }),
    {
        match read {
            Some(outcome) => self.apply_outcome(outcome),
            None => {
                self.skyset = Skyset::default();
                self.last_raw = String::new();
            },
        }
    }

    pub fn editor_next(&mut self)
        ensures
            final(self)@.document == old(self)@.document,
            final(self)@.last_raw == old(self)@.last_raw,
            final(self)@.path == old(self)@.path,
            final(self)@.editor.selected == next_index(old(self)@.editor.selected),
            final(self)@.editor == synced(final(self)@.editor, final(self)@.document),
    {
        self.editor.next(&self.skyset);
    }

    pub fn editor_previous(&mut self)
        ensures
            final(self)@.document == old(self)@.document,
            final(self)@.last_raw == old(self)@.last_raw,
            final(self)@.path == old(self)@.path,
            final(self)@.editor.selected == previous_index(old(self)@.editor.selected),
            final(self)@.editor == synced(final(self)@.editor, final(self)@.document),
    {
        self.editor.previous(&self.skyset);
    }

    /// Types a character into the buffer; the document is not touched.
    pub fn push_char(&mut self, value: char)
        ensures
            final(self)@ == (AppView {
                editor: EditorView { input: old(self)@.editor.input.push(value), ..old(self)@.editor },
                ..old(self)@
            }),
    {
        self.editor.push_char(value);
    }

    /// Removes the last character of the buffer; the document is not touched.
    pub fn pop_char(&mut self)
        ensures
            final(self)@.document == old(self)@.document,
            final(self)@.last_raw == old(self)@.last_raw,
            final(self)@.path == old(self)@.path,
            final(self)@.editor.selected == old(self)@.editor.selected,
            old(self)@.editor.input.len() > 0 ==> final(self)@.editor.input
                == old(self)@.editor.input.drop_last(),
            old(self)@.editor.input.len() == 0 ==> final(self)@.editor.input
                == old(self)@.editor.input,
    {
        self.editor.pop_char();
    }

    pub fn is_editing(&self) -> (r: bool)
        ensures
            r == (self@.editor.input != field_text(self@.document, field_at(self@.editor.selected))),
    {
        is_editing(&self.editor, &self.skyset)
    }

    /// Commits the buffer to the selected field, then reloads the buffer from the
    /// document. Where the trimmed buffer does not validate, the document and the
    /// buffer stay as they were.
    pub fn apply_editor_input(&mut self)
        ensures
            final(self)@.last_raw == old(self)@.last_raw,
            final(self)@.path == old(self)@.path,
            final(self)@.document == committed(old(self)@.document, old(self)@.editor),
            final(self)@.editor == if input_rejected(old(self)@.document, old(self)@.editor) {
                old(self)@.editor
            } else {
                synced(old(self)@.editor, final(self)@.document)
            },
    {
        let field = self.editor.current_field();
        if field.is_toggle() {
            toggle_field(&mut self.skyset, field);
            self.sync_editor_input();
            return;
        }
        let value = String::from_str(trim_text(self.editor.input()));
        match set_field_value(&mut self.skyset, field, value) {
            Ok(()) => self.sync_editor_input(),
            Err(_) => {},
        }
    }

    /// Replaces the document with the defaults and reloads the buffer; storage is
    /// not touched.
    pub fn reset(&mut self)
        ensures
            final(self)@ == (AppView {
                document: default_skyset(),
                editor: synced(old(self)@.editor, default_skyset()),
                ..old(self)@
            }),
    {
        self.skyset = Skyset::default();
        self.sync_editor_input();
    }

    /// Applies each given override through the field setters, in field order;
    /// values that do not validate are dropped without stopping the rest.
    pub fn apply_overrides(&mut self, overrides: &CliOverrides)
        ensures
            final(self)@.document == apply_overrides_upto(old(self)@.document, *overrides, FIELD_COUNT as nat),
            final(self)@.editor == synced(old(self)@.editor, final(self)@.document),
            final(self)@.last_raw == old(self)@.last_raw,
            final(self)@.path == old(self)@.path,
    {
        let mut i: usize = 0;
        while i < FIELD_COUNT
            invariant
                i <= FIELD_COUNT,
                self@.document == apply_overrides_upto(old(self)@.document, *overrides, i as nat),
                self@.editor == old(self)@.editor,
                self@.last_raw == old(self)@.last_raw,
                self@.path == old(self)@.path,
            decreases FIELD_COUNT - i,
        {
            let field = field_at_index(i);
            apply_override(&mut self.skyset, field, &overrides.value_for(field));
            i = i + 1;
        }
        self.sync_editor_input();
    }

    /// A copy of the document as a save writes it: stamped `at` and with the
    /// current schema version. The controller itself is not changed.
    pub fn stamped_copy(&self, at: String) -> (r: Skyset)
        ensures
            r@ == stamped(self@.document, at@),
    {
        let mut saved = self.skyset.copied();
        saved.updated_at = at;
        saved.version = SCHEMA_VERSION;
        saved
    }

    /// The copy that a save at `unix_secs` seconds after the Unix epoch writes:
    /// stamped with that UTC time to the second, with a `Z` designator. `None`
    /// only where chrono cannot represent that time; the controller is not changed.
    pub fn prepare_save(&self, unix_secs: i64) -> (r: Option<Skyset>)
        ensures
            0 <= unix_secs <= LAST_FOUR_DIGIT_SECOND ==> r is Some,
            r is Some ==> r->0@ == stamped(self@.document, rfc3339_utc_of(unix_secs as int)),
            r is Some ==> is_save_stamp(r->0@.updated_at, unix_secs as int),
    {
        match rfc3339_utc(unix_secs) {
            Some(at) => Some(self.stamped_copy(at)),
            None => None,
        }
    }

    /// Records a save that went through: the document takes the stamp of the copy
    /// that was written, and `raw`, the text written, becomes the content last seen.
    pub fn finish_save(&mut self, saved: &Skyset, raw: String)
        ensures
            final(self)@ == after_save(old(self)@, saved@.updated_at, raw@),
    {
        self.skyset.updated_at = saved.updated_at.clone();
        self.skyset.version = SCHEMA_VERSION;
        self.last_raw = raw;
    }
}

fn apply_override(skyset: &mut Skyset, field: FieldId, value: &Option<String>)
    ensures
        final(skyset)@ == apply_one(old(skyset)@, field, crate::cli::text_of(*value)),
{
    if let Some(value) = value {
        let _ = set_field_value(skyset, field, value.clone());
    }
}

} // verus!
