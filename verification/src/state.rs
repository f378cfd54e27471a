use vstd::prelude::*;

use crate::fields::{all_fields, field_label, FieldId, FIELD_COUNT};
use crate::numeric::{MAX_STEPS, MIN_STEPS};
use crate::text::{concat2, concat3, pop_char, push_char};

verus! {

/// Status line after a successful recomputation.
pub const STATUS_RECOMPUTED: &'static str = "Recomputed. (h) heatmap, (e) export CSV, (m) export Markdown, (q) quit";

/// Prefix of the status line after a failed recomputation.
pub const STATUS_INPUT_ERROR: &'static str = "Input error: ";

/// Status line while a field is being edited.
pub const STATUS_EDITING: &'static str = "Editing: type, Backspace; Enter commit; Esc cancel";

/// Status line after an edit was abandoned.
pub const STATUS_CANCELLED: &'static str = "Edit cancelled.";

/// Status line after the heatmap was switched on.
pub const STATUS_HEATMAP_ON: &'static str = "Heatmap ON. Press h to return.";

/// Status line after the heatmap was switched off.
pub const STATUS_HEATMAP_OFF: &'static str = "Heatmap OFF. Showing results.";

/// The number of sweep steps before any input has been accepted.
pub const DEFAULT_STEPS: usize = 25;

/// The two kinds of report that can be exported.
#[derive(Clone, Copy, Debug, PartialEq, Eq, Structural)]
pub enum ExportKind {
    Csv,
    Markdown,
}

/// Common prefix of the names of exported files.
pub const EXPORT_FILE_PREFIX: &'static str = "buckboost_vin_vout_map_";

/// File extension of an export.
pub open spec fn export_extension(kind: ExportKind) -> Seq<char> {
    match kind {
        ExportKind::Csv => ".csv"@,
        ExportKind::Markdown => ".md"@,
    }
}

/// Status prefix after a successful export.
pub open spec fn export_ok_prefix(kind: ExportKind) -> Seq<char> {
    match kind {
        ExportKind::Csv => "Exported CSV: "@,
        ExportKind::Markdown => "Exported Markdown: "@,
    }
}

/// Status prefix after a failed export.
pub open spec fn export_err_prefix(kind: ExportKind) -> Seq<char> {
    match kind {
        ExportKind::Csv => "CSV export failed: "@,
        ExportKind::Markdown => "Markdown export failed: "@,
    }
}

/// The raw text of each field when the application starts, in field order.
pub open spec fn default_values() -> Seq<Seq<char>> {
    seq![
        "18.0"@,
        "32.0"@,
        "3.0"@,
        "28.0"@,
        "0.8"@,
        "450.0"@,
        "20.0"@,
        "0.1"@,
        "0.1"@,
        "15.0"@,
        "8.0"@,
        "12.0"@,
        "20.0"@,
        "20.0"@,
        "50.0"@,
        "0.5"@,
        "25"@,
    ]
}

/// Characters that the field editor accepts: digits, the decimal point, signs and exponent
/// markers.
pub open spec fn is_numeric_input(c: char) -> bool {
    ||| ('0' <= c && c <= '9')
    ||| c == '.'
    ||| c == '-'
    ||| c == '+'
    ||| c == 'e'
    ||| c == 'E'
}

/// The abstract state of the editor: what is selected, what is being typed, what is shown,
/// and the raw text of every field.
#[verifier::ext_equal]
pub struct AppView {
    pub selected: usize,
    pub editing: bool,
    pub edit_buf: Seq<char>,
    pub status: Seq<char>,
    pub show_heatmap: bool,
    pub values: Seq<Seq<char>>,
    pub steps: usize,
}

impl AppView {
    /// One value per field, the selection on a field, and an accepted number of sweep steps.
    pub open spec fn wf(self) -> bool {
        &&& self.indexable()
        &&& MIN_STEPS <= self.steps <= MAX_STEPS
    }

    /// One value per field and the selection on a field: what editing needs.
    pub open spec fn indexable(self) -> bool {
        &&& self.values.len() == FIELD_COUNT
        &&& self.selected < FIELD_COUNT
    }

    /// The state right after start-up. The default texts are always accepted, so the editor
    /// starts as after a successful recomputation of them, with the default sweep steps.
    pub open spec fn initial() -> AppView {
        AppView {
            selected: 0,
            editing: false,
            edit_buf: Seq::empty(),
            status: STATUS_RECOMPUTED@,
            show_heatmap: false,
            values: default_values(),
            steps: DEFAULT_STEPS,
        }
    }

    /// What field `idx` shows: the edit buffer for the field being edited, else its value.
    pub open spec fn display(self, idx: int) -> Seq<char> {
        if self.editing && idx == self.selected {
            self.edit_buf
        } else {
            self.values[idx]
        }
    }

    /// Start editing the selected field with its current text in the buffer.
    pub open spec fn begin_edit(self) -> AppView {
        AppView {
            editing: true,
            edit_buf: self.values[self.selected as int],
            status: STATUS_EDITING@,
            ..self
        }
    }

    /// Store the buffer as the selected field's value and leave edit mode.
    pub open spec fn commit_edit(self) -> AppView {
        AppView {
            values: self.values.update(self.selected as int, self.edit_buf),
            editing: false,
            edit_buf: Seq::empty(),
            ..self
        }
    }

    /// Leave edit mode without storing anything.
    pub open spec fn cancel_edit(self) -> AppView {
        AppView {
            editing: false,
            edit_buf: Seq::empty(),
            status: STATUS_CANCELLED@,
            ..self
        }
    }

    /// Append a typed character to the buffer if it is numeric input; ignore it otherwise.
    pub open spec fn type_char(self, c: char) -> AppView {
        if is_numeric_input(c) {
            AppView { edit_buf: self.edit_buf.push(c), ..self }
        } else {
            self
        }
    }

    /// Remove the last character of the buffer, if any.
    pub open spec fn backspace(self) -> AppView {
        if self.edit_buf.len() > 0 {
            AppView { edit_buf: self.edit_buf.drop_last(), ..self }
        } else {
            self
        }
    }

    /// Select the previous field, if there is one.
    pub open spec fn move_up(self) -> AppView {
        if self.selected > 0 {
            AppView { selected: (self.selected - 1) as usize, ..self }
        } else {
            self
        }
    }

    /// Select the next field, if there is one.
    pub open spec fn move_down(self) -> AppView {
        if self.selected + 1 < FIELD_COUNT {
            AppView { selected: (self.selected + 1) as usize, ..self }
        } else {
            self
        }
    }

    /// Switch between the results and the heatmap.
    pub open spec fn toggle_heatmap(self) -> AppView {
        AppView {
            show_heatmap: !self.show_heatmap,
            status: if !self.show_heatmap { STATUS_HEATMAP_ON@ } else { STATUS_HEATMAP_OFF@ },
            ..self
        }
    }

    /// Record the outcome of a recomputation: the accepted number of sweep steps, or the
    /// reason the inputs were refused.
    pub open spec fn recompute(self, outcome: Result<usize, Seq<char>>) -> AppView {
        match outcome {
            Ok(steps) => AppView { steps, status: STATUS_RECOMPUTED@, ..self },
            Err(e) => AppView { status: STATUS_INPUT_ERROR@ + e, ..self },
        }
    }

    /// Record the outcome of an export to `filename`.
    pub open spec fn finish_export(
        self,
        kind: ExportKind,
        filename: Seq<char>,
        outcome: Result<(), Seq<char>>,
    ) -> AppView {
        match outcome {
            Ok(()) => AppView { status: export_ok_prefix(kind) + filename, ..self },
            Err(e) => AppView { status: export_err_prefix(kind) + e, ..self },
        }
    }
}

/// The width of the label column in the field list.
pub const LABEL_WIDTH: usize = 18;

/// `s` followed by spaces up to `width` characters; `s` itself when it is that long already.
pub open spec fn pad_right(s: Seq<char>, width: nat) -> Seq<char> {
    if s.len() >= width {
        s
    } else {
        s + Seq::new((width - s.len()) as nat, |i: int| ' ')
    }
}

/// The marker in front of a field's label: an arrow for the selected field.
pub open spec fn field_marker(selected: bool) -> Seq<char> {
    if selected {
        "> "@
    } else {
        "  "@
    }
}

/// What the field list shows for one field.
pub struct FieldLine {
    /// The marker and the label, padded to `LABEL_WIDTH` characters.
    pub label: String,
    /// The field's text (the edit buffer while it is being edited).
    pub value: String,
    /// Whether the field is selected.
    pub selected: bool,
}

/// The editor state of the calculator: the selected field, the edit buffer, the status
/// line, whether the heatmap is shown, the raw text of every field and the accepted
/// number of sweep steps.
pub struct AppState {
    pub selected: usize,
    pub editing: bool,
    pub edit_buf: String,
    pub status: String,
    pub show_heatmap: bool,
    values: Vec<String>,
    pub steps: usize,
}

impl View for AppState {
    type V = AppView;

    closed spec fn view(&self) -> AppView {
        AppView {
            selected: self.selected,
            editing: self.editing,
            edit_buf: self.edit_buf@,
            status: self.status@,
            show_heatmap: self.show_heatmap,
            values: self.values@.map_values(|s: String| s@),
            steps: self.steps,
        }
    }
}

/// The name of an export file made at the time written as `stamp`.
pub fn export_filename(kind: ExportKind, stamp: &str) -> (r: String)
    ensures
        r@ == EXPORT_FILE_PREFIX@ + stamp@ + export_extension(kind),
{
    match kind {
        ExportKind::Csv => concat3(EXPORT_FILE_PREFIX, stamp, ".csv"),
        ExportKind::Markdown => concat3(EXPORT_FILE_PREFIX, stamp, ".md"),
    }
}

impl AppState {
    /// The editor with every field at its default text and the first field selected. The
    /// defaults are always accepted, so the status is that of a successful recomputation and
    /// the sweep steps are the default ones; the caller computes the sweep of the defaults.
    pub fn new() -> (s: Self)
        ensures
            s@ == AppView::initial(),
            s@.wf(),
    {
        let mut values: Vec<String> = Vec::new();
        values.push("18.0".to_owned());
        values.push("32.0".to_owned());
        values.push("3.0".to_owned());
        values.push("28.0".to_owned());
        values.push("0.8".to_owned());
        values.push("450.0".to_owned());
        values.push("20.0".to_owned());
        values.push("0.1".to_owned());
        values.push("0.1".to_owned());
        values.push("15.0".to_owned());
        values.push("8.0".to_owned());
        values.push("12.0".to_owned());
        values.push("20.0".to_owned());
        values.push("20.0".to_owned());
        values.push("50.0".to_owned());
        values.push("0.5".to_owned());
        values.push("25".to_owned());
        let s = AppState {
            selected: 0,
            editing: false,
            edit_buf: String::new(),
            status: STATUS_RECOMPUTED.to_owned(),
            show_heatmap: false,
            values,
            steps: DEFAULT_STEPS,
        };
        assert(s@.values =~= default_values());
        s
    }

    /// The number of input fields.
    pub fn field_count(&self) -> (n: usize)
        ensures
            n == FIELD_COUNT,
    {
        FieldId::all().len()
    }

    /// The stored text of field `idx`.
    pub fn value(&self, idx: usize) -> (r: &String)
        requires
            idx < self@.values.len(),
        ensures
            r@ == self@.values[idx as int],
    {
        &self.values[idx]
    }

    /// Record the outcome of a recomputation: on success the accepted number of sweep
    /// steps, on failure the message that says why the inputs were refused.
    pub fn recompute(&mut self, outcome: Result<usize, String>)
        requires
            match outcome {
                Ok(n) => MIN_STEPS <= n <= MAX_STEPS,
                Err(_) => true,
            },
        ensures
            final(self)@ == old(self)@.recompute(
                match outcome {
                    Ok(n) => Ok(n),
                    Err(e) => Err(e@),
                },
            ),
            match outcome {
                Ok(n) => final(self)@.steps == n && final(self)@.status == STATUS_RECOMPUTED@,
                Err(e) => final(self)@.steps == old(self)@.steps && final(self)@.status
                    == STATUS_INPUT_ERROR@ + e@,
            },
            final(self)@.values == old(self)@.values,
            final(self)@.selected == old(self)@.selected,
            final(self)@.editing == old(self)@.editing,
    {
        match outcome {
            Ok(steps) => {
                self.steps = steps;
                self.status = STATUS_RECOMPUTED.to_owned();
            },
            Err(e) => {
                self.status = concat2(STATUS_INPUT_ERROR, e.as_str());
            },
        }
    }

    /// Start editing the selected field.
    pub fn begin_edit(&mut self)
        requires
            old(self)@.indexable(),
        ensures
            final(self)@ == old(self)@.begin_edit(),
    {
        self.editing = true;
        self.edit_buf = self.values[self.selected].clone();
        self.status = STATUS_EDITING.to_owned();
    }

    /// Store the edit buffer as the selected field's text and leave edit mode.
    ///
    /// The status is left as it was: the caller must then recompute the design from the
    /// fields and record the outcome with `AppState::recompute`, which sets the status.
    pub fn commit_edit(&mut self)
        requires
            old(self)@.indexable(),
        ensures
            final(self)@ == old(self)@.commit_edit(),
    {
        let ghost before = self@;
        let buf = self.edit_buf.clone();
        let idx = self.selected;
        self.values.set(idx, buf);
        self.editing = false;
        self.edit_buf = String::new();
        assert(self@.values =~= before.values.update(idx as int, before.edit_buf));
    }

    /// Leave edit mode, keeping every field as it was.
    pub fn cancel_edit(&mut self)
        ensures
            final(self)@ == old(self)@.cancel_edit(),
            final(self)@.values == old(self)@.values,
            final(self)@.selected == old(self)@.selected,
            !final(self)@.editing,
            final(self)@.edit_buf == Seq::<char>::empty(),
            final(self)@.status == STATUS_CANCELLED@,
    {
        self.editing = false;
        self.edit_buf = String::new();
        self.status = STATUS_CANCELLED.to_owned();
    }

    /// The text shown for field `idx`: the edit buffer while that field is being edited,
    /// else its stored text.
    pub fn selected_value_display(&self, idx: usize) -> (r: String)
        requires
            idx < self@.values.len() || (self@.editing && idx == self@.selected),
        ensures
            r@ == self@.display(idx as int),
            self@.editing && idx == self@.selected ==> r@ == self@.edit_buf,
            !(self@.editing && idx == self@.selected) ==> r@ == self@.values[idx as int],
    {
        if self.editing && idx == self.selected {
            self.edit_buf.clone()
        } else {
            self.values[idx].clone()
        }
    }

    /// The parts of the line that shows field `idx`: its label behind a selection marker,
    /// padded to the label column, the text it shows, and whether it is selected.
    pub fn field_line(&self, idx: usize) -> (r: FieldLine)
        requires
            idx < FIELD_COUNT,
            idx < self@.values.len(),
        ensures
            r.selected == (idx == self@.selected),
            r.label@ == pad_right(
                field_marker(r.selected) + field_label(all_fields()[idx as int]),
                LABEL_WIDTH as nat,
            ),
            r.value@ == self@.display(idx as int),
    {
        let selected = idx == self.selected;
        let marker = if selected { "> " } else { "  " };
        let mut label = concat2(marker, FieldId::all()[idx].label());
        let ghost unpadded = label@;
        let len = label.as_str().unicode_len();
        let mut k: usize = len;
        while k < LABEL_WIDTH
            invariant
                len == unpadded.len(),
                k == len || k <= LABEL_WIDTH,
                label@ == unpadded + Seq::new((k - len) as nat, |i: int| ' '),
                len <= k,
            decreases LABEL_WIDTH - k,
        {
            push_char(&mut label, ' ');
            k = k + 1;
            assert(label@ =~= unpadded + Seq::new((k - len) as nat, |i: int| ' '));
        }
        proof {
            if len >= LABEL_WIDTH {
                assert(label@ =~= unpadded);
            } else {
                assert(k == LABEL_WIDTH);
            }
        }
        FieldLine { label, value: self.selected_value_display(idx), selected }
    }

    /// Record the outcome of an export to `filename`.
    pub fn finish_export(&mut self, kind: ExportKind, filename: &str, outcome: Result<(), String>)
        ensures
            final(self)@ == old(self)@.finish_export(
                kind,
                filename@,
                match outcome {
                    Ok(()) => Ok(()),
                    Err(e) => Err(e@),
                },
            ),
    {
        let status = match (kind, outcome) {
            (ExportKind::Csv, Ok(())) => concat2("Exported CSV: ", filename),
            (ExportKind::Markdown, Ok(())) => concat2("Exported Markdown: ", filename),
            (ExportKind::Csv, Err(e)) => concat2("CSV export failed: ", e.as_str()),
            (ExportKind::Markdown, Err(e)) => concat2("Markdown export failed: ", e.as_str()),
        };
        self.status = status;
    }
}


/// The keys that the editor tells apart.
#[derive(Clone, Copy, Debug, PartialEq, Eq, Structural)]
pub enum KeyCode {
    Up,
    Down,
    Enter,
    Esc,
    Backspace,
    Char(char),
    /// Any other key.
    Other,
}

/// A key press: the key and whether Control was held.
#[derive(Clone, Copy, Debug, PartialEq, Eq, Structural)]
pub struct KeyPress {
    pub code: KeyCode,
    pub ctrl: bool,
}

/// What the caller has to do after a key press.
#[derive(Clone, Copy, Debug, PartialEq, Eq, Structural)]
pub enum KeyAction {
    /// Nothing; keep going.
    Continue,
    /// Leave the application.
    Quit,
    /// Recompute the design from the field values, then record the outcome with
    /// `AppState::recompute`.
    Recompute,
    /// Export a report, then record the outcome with `AppState::finish_export`.
    Export(ExportKind),
}

/// Whether the editor accepts `c` as typed input.
pub fn accepts_input_char(c: char) -> (r: bool)
    ensures
        r == is_numeric_input(c),
{
    ('0' <= c && c <= '9') || c == '.' || c == '-' || c == '+' || c == 'e' || c == 'E'
}

impl AppView {
    /// The effect of one key press: the next state and what the caller has to do.
    pub open spec fn step(self, key: KeyPress) -> (AppView, KeyAction) {
        if self.editing {
            match key.code {
                KeyCode::Esc => (self.cancel_edit(), KeyAction::Continue),
                KeyCode::Enter => (self.commit_edit(), KeyAction::Recompute),
                KeyCode::Backspace => (self.backspace(), KeyAction::Continue),
                KeyCode::Char(c) => (self.type_char(c), KeyAction::Continue),
                _ => (self, KeyAction::Continue),
            }
        } else {
            match key.code {
                KeyCode::Char(c) => {
                    if c == 'q' {
                        (self, KeyAction::Quit)
                    } else if c == 'h' {
                        (self.toggle_heatmap(), KeyAction::Continue)
                    } else if c == 'e' {
                        (self, KeyAction::Export(ExportKind::Csv))
                    } else if c == 'm' {
                        (self, KeyAction::Export(ExportKind::Markdown))
                    } else if c == 'c' && key.ctrl {
                        (self, KeyAction::Quit)
                    } else {
                        (self, KeyAction::Continue)
                    }
                },
                KeyCode::Up => (self.move_up(), KeyAction::Continue),
                KeyCode::Down => (self.move_down(), KeyAction::Continue),
                KeyCode::Enter => (self.begin_edit(), KeyAction::Continue),
                _ => (self, KeyAction::Continue),
            }
        }
    }
}

/// Apply one key press to the editor and say what the caller has to do next.
pub fn handle_key(app: &mut AppState, key: KeyPress) -> (action: KeyAction)
    requires
        old(app)@.indexable(),
    ensures
        (final(app)@, action) == old(app)@.step(key),
        !old(app)@.editing && key.code == KeyCode::Down ==> final(app)@.selected == if old(
            app,
        )@.selected + 1 < FIELD_COUNT {
            old(app)@.selected + 1
        } else {
            old(app)@.selected as int
        },
        !old(app)@.editing && key.code == KeyCode::Up ==> final(app)@.selected == if old(
            app,
        )@.selected > 0 {
            old(app)@.selected - 1
        } else {
            old(app)@.selected as int
        },
        key.code == KeyCode::Up || key.code == KeyCode::Down ==> final(app)@.values == old(
            app,
        )@.values,
        old(app)@.editing && key.code == KeyCode::Esc ==> final(app)@.values == old(app)@.values
            && !final(app)@.editing,
{
    if app.editing {
        match key.code {
            KeyCode::Esc => app.cancel_edit(),
            KeyCode::Enter => {
                app.commit_edit();
                return KeyAction::Recompute;
            },
            KeyCode::Backspace => {
                let ghost before = app@;
                let _ = pop_char(&mut app.edit_buf);
                assert(app@ =~= before.backspace());
            },
            KeyCode::Char(c) => {
                let ghost before = app@;
                if accepts_input_char(c) {
                    push_char(&mut app.edit_buf, c);
                }
                assert(app@ =~= before.type_char(c));
            },
            _ => {},
        }
        return KeyAction::Continue;
    }
    match key.code {
        KeyCode::Char('q') => {
            return KeyAction::Quit;
        },
        KeyCode::Char('h') => {
            app.show_heatmap = !app.show_heatmap;
            app.status = if app.show_heatmap {
                STATUS_HEATMAP_ON.to_owned()
            } else {
                STATUS_HEATMAP_OFF.to_owned()
            };
        },
        KeyCode::Char('e') => {
            return KeyAction::Export(ExportKind::Csv);
        },
        KeyCode::Char('m') => {
            return KeyAction::Export(ExportKind::Markdown);
        },
        KeyCode::Up => {
            if app.selected > 0 {
                app.selected = app.selected - 1;
            }
        },
        KeyCode::Down => {
            if app.selected + 1 < app.field_count() {
                app.selected = app.selected + 1;
            }
        },
        KeyCode::Enter => {
            app.begin_edit();
        },
        _ => {
            if key.code == KeyCode::Char('c') && key.ctrl {
                return KeyAction::Quit;
            }
        },
    }
    KeyAction::Continue
}


/// Text made only of characters that the field editor accepts.
pub open spec fn is_numeric_text(t: Seq<char>) -> bool {
    forall|i: int| 0 <= i < t.len() ==> is_numeric_input(#[trigger] t[i])
}

impl AppView {
    /// Every stored value and the edit buffer are numeric text.
    pub open spec fn holds_numeric_text(self) -> bool {
        &&& is_numeric_text(self.edit_buf)
        &&& forall|i: int| 0 <= i < self.values.len() ==> is_numeric_text(#[trigger] self.values[i])
    }
}

/// Every key press keeps one value per field and the selection on a field.
pub proof fn lemma_step_keeps_wf(s: AppView, key: KeyPress)
    requires
        s.wf(),
    ensures
        s.step(key).0.wf(),
{
}

/// Recording a recomputation or an export changes neither the values nor the selection.
pub proof fn lemma_outcomes_keep_fields(
    s: AppView,
    outcome: Result<usize, Seq<char>>,
    kind: ExportKind,
    filename: Seq<char>,
    export: Result<(), Seq<char>>,
)
    ensures
        s.recompute(outcome).values == s.values,
        s.recompute(outcome).selected == s.selected,
        s.recompute(outcome).editing == s.editing,
        s.finish_export(kind, filename, export).values == s.values,
        s.finish_export(kind, filename, export).selected == s.selected,
        s.finish_export(kind, filename, export).editing == s.editing,
{
}

/// Every key press keeps one value per field and the selection on a field, whatever the
/// sweep steps are.
pub proof fn lemma_step_keeps_indexable(s: AppView, key: KeyPress)
    requires
        s.indexable(),
    ensures
        s.step(key).0.indexable(),
{
}

/// Recording the outcome of a recomputation (with an accepted number of sweep steps) or of
/// an export keeps the state well formed.
pub proof fn lemma_outcomes_keep_wf(
    s: AppView,
    outcome: Result<usize, Seq<char>>,
    kind: ExportKind,
    filename: Seq<char>,
    export: Result<(), Seq<char>>,
)
    requires
        s.wf(),
        match outcome {
            Ok(n) => MIN_STEPS <= n <= MAX_STEPS,
            Err(_) => true,
        },
    ensures
        s.recompute(outcome).wf(),
        s.finish_export(kind, filename, export).wf(),
{
}

/// Starting an edit and cancelling it leaves every value as it was and ends edit mode with
/// an empty buffer.
pub proof fn lemma_cancel_undoes_begin(s: AppView)
    requires
        s.wf(),
    ensures
        s.begin_edit().cancel_edit().values == s.values,
        s.begin_edit().cancel_edit().selected == s.selected,
        !s.begin_edit().cancel_edit().editing,
        s.begin_edit().cancel_edit().edit_buf == Seq::<char>::empty(),
{
}

/// Starting an edit and committing it without typing leaves every value as it was.
pub proof fn lemma_commit_without_typing_keeps_values(s: AppView)
    requires
        s.wf(),
    ensures
        s.begin_edit().commit_edit().values == s.values,
        !s.begin_edit().commit_edit().editing,
{
    assert(s.begin_edit().commit_edit().values =~= s.values);
}

/// Committing stores the buffer as the selected field's value and changes no other field.
pub proof fn lemma_commit_stores_buffer(s: AppView)
    requires
        s.wf(),
    ensures
        s.commit_edit().values[s.selected as int] == s.edit_buf,
        forall|i: int|
            0 <= i < s.values.len() && i != s.selected ==> s.commit_edit().values[i] == s.values[i],
        s.commit_edit().values.len() == s.values.len(),
{
}

/// Starting an edit changes nothing that the fields show.
pub proof fn lemma_begin_edit_shows_same_text(s: AppView, idx: int)
    requires
        s.wf(),
        !s.editing,
        0 <= idx < s.values.len(),
    ensures
        s.begin_edit().display(idx) == s.display(idx),
{
}

/// Backspace removes a character that was just typed.
pub proof fn lemma_backspace_undoes_typing(s: AppView, c: char)
    requires
        is_numeric_input(c),
    ensures
        s.type_char(c).backspace() == s,
{
    assert(s.edit_buf.push(c).drop_last() =~= s.edit_buf);
}

/// Switching the heatmap twice shows what was shown before and changes nothing else but the
/// status line.
pub proof fn lemma_heatmap_toggle_twice(s: AppView)
    ensures
        s.toggle_heatmap().toggle_heatmap() == (AppView {
            status: s.toggle_heatmap().toggle_heatmap().status,
            ..s
        }),
        s.toggle_heatmap().show_heatmap != s.show_heatmap,
{
}

/// Moving down then up, or up then down, returns to the same field when the first move
/// was possible.
pub proof fn lemma_moves_undo_each_other(s: AppView)
    requires
        s.wf(),
    ensures
        s.selected + 1 < FIELD_COUNT ==> s.move_down().move_up() == s,
        s.selected > 0 ==> s.move_up().move_down() == s,
{
}

/// In edit mode the arrow keys do nothing, and no key quits or exports.
pub proof fn lemma_edit_mode_keys(s: AppView, key: KeyPress)
    requires
        s.editing,
    ensures
        key.code == KeyCode::Up || key.code == KeyCode::Down ==> s.step(key) == (
            s,
            KeyAction::Continue,
        ),
        s.step(key).1 == KeyAction::Continue || s.step(key).1 == KeyAction::Recompute,
{
}

/// Outside edit mode only `q` and Control-C quit, and a key that asks for an export or a
/// quit leaves the state unchanged.
pub proof fn lemma_browse_mode_quit(s: AppView, key: KeyPress)
    requires
        !s.editing,
    ensures
        s.step(key).1 == KeyAction::Quit <==> (key.code == KeyCode::Char('q') || (key.code
            == KeyCode::Char('c') && key.ctrl)),
        s.step(key).1 == KeyAction::Quit ==> s.step(key).0 == s,
        (s.step(key).1 is Export) ==> s.step(key).0 == s,
        s.step(key).1 != KeyAction::Recompute,
{
}

/// The start-up texts are numeric text.
pub proof fn lemma_initial_numeric()
    ensures
        AppView::initial().holds_numeric_text(),
{
    reveal_strlit("18.0");
    reveal_strlit("32.0");
    reveal_strlit("3.0");
    reveal_strlit("28.0");
    reveal_strlit("0.8");
    reveal_strlit("450.0");
    reveal_strlit("20.0");
    reveal_strlit("0.1");
    reveal_strlit("15.0");
    reveal_strlit("8.0");
    reveal_strlit("12.0");
    reveal_strlit("50.0");
    reveal_strlit("0.5");
    reveal_strlit("25");
    let v = default_values();
    assert forall|i: int| 0 <= i < v.len() implies is_numeric_text(#[trigger] v[i]) by {
        let t = v[i];
        assert forall|j: int| 0 <= j < t.len() implies is_numeric_input(#[trigger] t[j]) by {}
    }
}

/// Every key press keeps the stored values and the edit buffer numeric text: the editor
/// lets nothing else in.
pub proof fn lemma_step_keeps_numeric_text(s: AppView, key: KeyPress)
    requires
        s.wf(),
        s.holds_numeric_text(),
    ensures
        s.step(key).0.holds_numeric_text(),
{
    let t = s.step(key).0;
    if s.editing {
        match key.code {
            KeyCode::Enter => {
                assert forall|i: int| 0 <= i < t.values.len() implies is_numeric_text(
                    #[trigger] t.values[i],
                ) by {
                    if i == s.selected {
                    } else {
                        assert(t.values[i] == s.values[i]);
                    }
                }
            },
            KeyCode::Backspace => {
                assert forall|j: int| 0 <= j < t.edit_buf.len() implies is_numeric_input(
                    #[trigger] t.edit_buf[j],
                ) by {
                    assert(t.edit_buf[j] == s.edit_buf[j]);
                }
            },
            KeyCode::Char(c) => {
                assert forall|j: int| 0 <= j < t.edit_buf.len() implies is_numeric_input(
                    #[trigger] t.edit_buf[j],
                ) by {
                    if j < s.edit_buf.len() {
                        assert(t.edit_buf[j] == s.edit_buf[j]);
                    }
                }
            },
            _ => {},
        }
    } else {
        match key.code {
            KeyCode::Enter => {
                assert(is_numeric_text(s.values[s.selected as int]));
            },
            _ => {},
        }
    }
}


/// A successful recomputation with `n` steps leaves exactly `n` steps and the success
/// status; a failed one keeps the steps and shows the error after the input-error prefix.
/// Neither touches the values, the selection or edit mode.
pub proof fn lemma_recompute_records_outcome(s: AppView, n: usize, e: Seq<char>)
    ensures
        s.recompute(Ok(n)).steps == n,
        s.recompute(Ok(n)).status == STATUS_RECOMPUTED@,
        s.recompute(Err(e)).steps == s.steps,
        s.recompute(Err(e)).status == STATUS_INPUT_ERROR@ + e,
        s.recompute(Ok(n)).values == s.values,
        s.recompute(Err(e)).values == s.values,
        s.recompute(Ok(n)).selected == s.selected,
        s.recompute(Ok(n)).editing == s.editing,
{
}

/// Cancelling, from any state and whatever was typed, keeps every value and the selection,
/// leaves edit mode with an empty buffer and says that the edit was cancelled.
pub proof fn lemma_cancel_keeps_values(s: AppView)
    ensures
        s.cancel_edit().values == s.values,
        s.cancel_edit().selected == s.selected,
        !s.cancel_edit().editing,
        s.cancel_edit().edit_buf == Seq::<char>::empty(),
        s.cancel_edit().status == STATUS_CANCELLED@,
{
}

/// Esc in edit mode keeps every value, whatever was typed.
pub proof fn lemma_escape_keeps_values(s: AppView, ctrl: bool)
    requires
        s.editing,
    ensures
        s.step(KeyPress { code: KeyCode::Esc, ctrl }).0.values == s.values,
        !s.step(KeyPress { code: KeyCode::Esc, ctrl }).0.editing,
        s.step(KeyPress { code: KeyCode::Esc, ctrl }).1 == KeyAction::Continue,
{
}

/// Outside edit mode, Down selects the next field and Up the previous one, staying on the
/// last and the first field; neither changes a value.
pub proof fn lemma_arrow_keys_move_by_one(s: AppView, ctrl: bool)
    requires
        !s.editing,
    ensures
        s.step(KeyPress { code: KeyCode::Down, ctrl }).0.selected == if s.selected + 1
            < FIELD_COUNT {
            s.selected + 1
        } else {
            s.selected as int
        },
        s.step(KeyPress { code: KeyCode::Up, ctrl }).0.selected == if s.selected > 0 {
            s.selected - 1
        } else {
            s.selected as int
        },
        s.step(KeyPress { code: KeyCode::Down, ctrl }).0.values == s.values,
        s.step(KeyPress { code: KeyCode::Up, ctrl }).0.values == s.values,
        s.step(KeyPress { code: KeyCode::Down, ctrl }).0.editing == s.editing,
        s.step(KeyPress { code: KeyCode::Up, ctrl }).0.editing == s.editing,
{
}

/// The field being edited shows exactly the edit buffer, even when it is empty; every other
/// field, and every field outside edit mode, shows its stored value.
pub proof fn lemma_display_shows_buffer_of_edited_field(s: AppView, idx: int)
    ensures
        s.editing && idx == s.selected ==> s.display(idx) == s.edit_buf,
        !(s.editing && idx == s.selected) ==> s.display(idx) == s.values[idx],
{
}


/// Starting an edit puts the selected field's stored text in the buffer, enters edit mode,
/// keeps every value and the selection, and shows the editing help.
pub proof fn lemma_begin_edit_loads_value(s: AppView)
    ensures
        s.begin_edit().edit_buf == s.values[s.selected as int],
        s.begin_edit().editing,
        s.begin_edit().values == s.values,
        s.begin_edit().selected == s.selected,
        s.begin_edit().status == STATUS_EDITING@,
{
}

/// The editor accepts exactly ASCII digits and the characters of ".-+eE".
pub proof fn lemma_numeric_input_chars(c: char)
    ensures
        is_numeric_input(c) <==> ((c as u32) >= 48 && (c as u32) <= 57) || ".-+eE"@.contains(c),
{
    reveal_strlit(".-+eE");
    if ".-+eE"@.contains(c) {
        let i = choose|i: int| 0 <= i < ".-+eE"@.len() && ".-+eE"@[i] == c;
        assert(i == 0 || i == 1 || i == 2 || i == 3 || i == 4);
    }
    if c == '.' {
        assert(".-+eE"@[0] == c);
    } else if c == '-' {
        assert(".-+eE"@[1] == c);
    } else if c == '+' {
        assert(".-+eE"@[2] == c);
    } else if c == 'e' {
        assert(".-+eE"@[3] == c);
    } else if c == 'E' {
        assert(".-+eE"@[4] == c);
    }
}

/// Typing appends an accepted character to the buffer and ignores any other; Backspace
/// drops the last character of a non-empty buffer and does nothing to an empty one.
/// Neither changes a value, the selection or edit mode.
pub proof fn lemma_typing_and_backspace(s: AppView, c: char)
    ensures
        is_numeric_input(c) ==> s.type_char(c).edit_buf == s.edit_buf.push(c),
        !is_numeric_input(c) ==> s.type_char(c) == s,
        s.edit_buf.len() > 0 ==> s.backspace().edit_buf == s.edit_buf.subrange(
            0,
            s.edit_buf.len() - 1,
        ),
        s.edit_buf.len() == 0 ==> s.backspace() == s,
        s.type_char(c).values == s.values && s.backspace().values == s.values,
        s.type_char(c).selected == s.selected && s.backspace().selected == s.selected,
        s.type_char(c).editing == s.editing && s.backspace().editing == s.editing,
{
}

/// Switching the heatmap flips whether it is shown and says which way it went, changing no
/// value, the selection or edit mode.
pub proof fn lemma_toggle_heatmap_reports(s: AppView)
    ensures
        s.toggle_heatmap().show_heatmap == !s.show_heatmap,
        s.toggle_heatmap().show_heatmap ==> s.toggle_heatmap().status == STATUS_HEATMAP_ON@,
        !s.toggle_heatmap().show_heatmap ==> s.toggle_heatmap().status == STATUS_HEATMAP_OFF@,
        s.toggle_heatmap().values == s.values,
        s.toggle_heatmap().selected == s.selected,
{
}

/// An export's status names the file on success and gives the error on failure, after a
/// prefix that names the kind of report.
pub proof fn lemma_export_status(s: AppView, filename: Seq<char>, e: Seq<char>)
    ensures
        s.finish_export(ExportKind::Csv, filename, Ok(())).status == "Exported CSV: "@ + filename,
        s.finish_export(ExportKind::Markdown, filename, Ok(())).status == "Exported Markdown: "@
            + filename,
        s.finish_export(ExportKind::Csv, filename, Err(e)).status == "CSV export failed: "@ + e,
        s.finish_export(ExportKind::Markdown, filename, Err(e)).status
            == "Markdown export failed: "@ + e,
{
}


/// Exported files are named after the time stamp with a ".csv" or ".md" extension.
pub proof fn lemma_export_names(stamp: Seq<char>)
    ensures
        EXPORT_FILE_PREFIX@ + stamp + export_extension(ExportKind::Csv)
            == "buckboost_vin_vout_map_"@ + stamp + ".csv"@,
        EXPORT_FILE_PREFIX@ + stamp + export_extension(ExportKind::Markdown)
            == "buckboost_vin_vout_map_"@ + stamp + ".md"@,
{
}

/// At start-up the fields hold, in display order, 18 V and 32 V input, 3 V and 28 V output,
/// 0.8 A load, 450 kHz, a 20 % ripple ratio, 0.1 V input and output ripple, 15 and 8 mOhm
/// on-resistances, 12 mOhm inductor resistance, 20 ns rise and fall times, a 50 us load
/// transient, 0.5 V droop and 25 sweep steps; nothing is selected but the first field,
/// nothing is being edited and the heatmap is hidden.
pub proof fn lemma_start_up_values()
    ensures
        AppView::initial().values.len() == FIELD_COUNT,
        AppView::initial().values[0] == "18.0"@,
        AppView::initial().values[1] == "32.0"@,
        AppView::initial().values[2] == "3.0"@,
        AppView::initial().values[3] == "28.0"@,
        AppView::initial().values[4] == "0.8"@,
        AppView::initial().values[5] == "450.0"@,
        AppView::initial().values[6] == "20.0"@,
        AppView::initial().values[7] == "0.1"@,
        AppView::initial().values[8] == "0.1"@,
        AppView::initial().values[9] == "15.0"@,
        AppView::initial().values[10] == "8.0"@,
        AppView::initial().values[11] == "12.0"@,
        AppView::initial().values[12] == "20.0"@,
        AppView::initial().values[13] == "20.0"@,
        AppView::initial().values[14] == "50.0"@,
        AppView::initial().values[15] == "0.5"@,
        AppView::initial().values[16] == "25"@,
        AppView::initial().selected == 0,
        !AppView::initial().editing,
        !AppView::initial().show_heatmap,
        AppView::initial().steps == 25,
{
}

} // verus!
