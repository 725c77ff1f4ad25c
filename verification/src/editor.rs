//! The widgets of the edit view: a form, and an area for the notes.
use ftui_core::event::KeyCode::{
    BackTab, Backspace, Char, Delete, Down, End, Enter, Escape, Home, Left, Null, PageDown, PageUp,
    Right, Tab, Up,
};
use ftui_core::event::{Event, KeyEvent, Modifiers};
use ftui_extras::forms::{Form, FormField as Field, FormState, FormValue as Value};
use ftui_widgets::textarea::TextArea;
use vstd::prelude::*;
use crate::edit::{field_values, same_shape, DataModel, FormData, FormField, FormValue, ValueModel};
use crate::input::Key;
use crate::text::pieces;

verus! {

// ---------------------------------------------------------------------------
// The form
// ---------------------------------------------------------------------------
/// `ftui_extras::forms::Form`, whose fields are named by `form_values`.
#[verifier::external_type_specification]
#[verifier::external_body]
pub struct ExForm(Form);

/// The labels and values of the fields that a form holds.
pub uninterp spec fn form_values(form: Form) -> Seq<(Seq<char>, ValueModel)>;

/// Where a form is: the focused field, the cursor in its text, and whether the form was submitted
/// or cancelled.
pub type FormPlace = (usize, usize, bool, bool);

/// The values and the place of a form after a key: what `FormState::handle_event` makes of a form
/// that was made of text fields and checkboxes.
pub uninterp spec fn form_after(
    values: Seq<(Seq<char>, ValueModel)>,
    place: (usize, usize, bool, bool),
    key: Key,
    modifiers: u8,
) -> (Seq<(Seq<char>, ValueModel)>, (usize, usize, bool, bool));

/// Calls `Form::new` of `ftui_extras` on text fields and checkboxes: the form holds those fields
/// with their labels and values, in their order.
#[verifier::external_body]
fn build_form(fields: Vec<FormField>) -> (r: Form)
    ensures
        form_values(r) == field_values(fields@),
{
    let widgets = fields.into_iter().map(|field| match field {
        FormField::Text { label, value } => Field::text_with_value(label, value),
        FormField::Checkbox { label, checked } => Field::checkbox(label, checked),
    });
    Form::new(widgets.collect())
}

/// Calls `Form::data` of `ftui_extras`: the labels and values of the fields, in their order.
#[verifier::external_body]
fn read_form(form: &Form) -> (r: FormData)
    ensures
        r@ == form_values(*form),
{
    let values = form.data().values.into_iter().map(|(label, value)| match value {
        Value::Text(text) => (label, FormValue::Text(text)),
        Value::Bool(flag) => (label, FormValue::Bool(flag)),
        Value::Choice { index, label: choice } => (label, FormValue::Choice { index, label: choice }),
        Value::Number(number) => (label, FormValue::Number(number)),
    });
    FormData { values: values.collect() }
}

/// A form of text fields and checkboxes, and its place.
pub struct EditForm {
    form: Form,
    place: FormPlace,
}

/// What a form holds, and its place.
pub struct FormModel {
    pub values: DataModel,
    pub place: FormPlace,
}

impl View for EditForm {
    type V = FormModel;

    closed spec fn view(&self) -> FormModel {
        FormModel { values: form_values(self.form), place: self.place }
    }
}

impl FormModel {
    /// A form that nobody has touched: the first field has the focus, with the cursor at its start.
    pub open spec fn fresh(values: DataModel) -> FormModel {
        FormModel { values, place: (0usize, 0usize, false, false) }
    }

    /// The form after a key.
    pub open spec fn after_key(self, key: Key, modifiers: u8) -> FormModel {
        let after = form_after(self.values, self.place, key, modifiers);
        FormModel { values: after.0, place: after.1 }
    }
}

impl EditForm {
    /// A form that nobody has touched.
    pub fn new(fields: Vec<FormField>) -> (r: EditForm)
        ensures
            r@ == FormModel::fresh(field_values(fields@)),
    {
        EditForm { form: build_form(fields), place: (0, 0, false, false) }
    }

    /// The labels and values of the fields.
    pub fn data(&self) -> (r: FormData)
        ensures
            r@ == self@.values,
    {
        read_form(&self.form)
    }

    /// Where the form is.
    pub fn place(&self) -> (r: FormPlace)
        ensures
            r == self@.place,
    {
        self.place
    }

    /// Calls `FormState::handle_event` of `ftui_extras` on the press of a key, with the modifier
    /// keys that are held as bits. What it does to the values is left to the name of the result,
    /// but for this: fields neither come nor go, and keep their labels and kinds.
    #[verifier::external_body]
    pub(crate) fn press(&mut self, key: Key, modifiers: u8)
        requires
            key != Key::Tab,
            key != Key::Escape,
        ensures
            (final(self)@.values, final(self)@.place) == form_after(
                old(self)@.values,
                old(self)@.place,
                key,
                modifiers,
            ),
            same_shape(final(self)@.values, old(self)@.values),
    {
        let code = match key {
            Key::Char(c) => Char(c), Key::Enter => Enter, Key::Backspace => Backspace,
            Key::Delete => Delete, Key::BackTab => BackTab, Key::Home => Home, Key::End => End,
            Key::Up => Up, Key::Down => Down, Key::Left => Left, Key::Right => Right, _ => Null,
        };
        let event = KeyEvent::new(code).with_modifiers(Modifiers::from_bits_truncate(modifiers));
        let mut state = FormState::default();
        (state.focused, state.text_cursor, state.submitted, state.cancelled) = self.place;
        state.handle_event(&mut self.form, &Event::Key(event));
        self.place = (state.focused, state.text_cursor, state.submitted, state.cancelled);
    }
}

// ---------------------------------------------------------------------------
// The notes
// ---------------------------------------------------------------------------
/// `ftui_widgets::textarea::TextArea`, whose contents are named by `area_state`.
#[verifier::external_type_specification]
#[verifier::external_body]
pub struct ExTextArea(TextArea);

/// A place in a text: a line, and how many of its characters, as a reader counts them, come before.
pub type Place = (nat, nat);

/// An edit: whether it put a text in or took it out, at which byte, the text, and the place of the
/// cursor at the time.
pub type Step = (bool, nat, Seq<char>, Place);

/// What an area holds.
#[verifier::ext_equal]
pub struct AreaModel {
    pub text: Seq<char>,
    pub cursor: Place,
    /// The places from which and to which text is selected.
    pub selection: Option<(Place, Place)>,
    /// The edits that can be undone.
    pub undo: Seq<Step>,
    /// The edits that can be made again.
    pub redo: Seq<Step>,
}

/// The text, the cursor, the selection and the history of an area.
pub uninterp spec fn area_state(area: TextArea) -> AreaModel;

/// What `TextArea::insert_text` makes of a new area.
pub uninterp spec fn area_with(text: Seq<char>) -> AreaModel;

/// What `TextArea::handle_event` makes of an area that was never drawn on the press of a key, where
/// letters of ambiguous width are wide or not.
pub uninterp spec fn area_after(
    before: AreaModel,
    key: Key,
    shift: bool,
    ctrl: bool,
    wide: bool,
) -> AreaModel;

/// Whether a character is a control character.
pub open spec fn control(c: char) -> bool {
    c <= '\u{1f}' || '\u{7f}' <= c <= '\u{9f}'
}

/// A text without control characters, except line feeds and tabs.
pub open spec fn printable(s: Seq<char>) -> Seq<char> {
    s.filter(|c: char| !control(c) || c == '\n' || c == '\t')
}

/// Calls `TextArea::insert_text` of `ftui_widgets` on a new area: it then holds the text, but for
/// control characters other than line feeds and tabs, which are left out. Nothing is selected, and
/// there is nothing to redo. Where the cursor is and what can be undone is left to the name.
#[verifier::external_body]
fn build_area(text: &str) -> (r: TextArea)
    ensures
        area_state(r) == area_with(text@),
        area_state(r).text == printable(text@),
        area_state(r).selection is None,
        area_state(r).redo == Seq::<Step>::empty(),
{
    let mut area = TextArea::new();
    area.insert_text(text);
    area
}

/// Calls `TextArea::text` of `ftui_widgets`: the text that the area holds.
#[verifier::external_body]
fn read_area(area: &TextArea) -> (r: String)
    ensures
        r@ == area_state(*area).text,
{
    area.text()
}

/// Calls `TextArea::clone` of `ftui_widgets`: the copy holds the same.
#[verifier::external_body]
fn copy_area(area: &TextArea) -> (r: TextArea)
    ensures
        area_state(r) == area_state(*area),
{
    area.clone()
}

/// Whether a text is another one without one stretch of it, which may be empty.
pub open spec fn cut_from(before: Seq<char>, after: Seq<char>) -> bool {
    exists|i: int, j: int|
        0 <= i <= j <= before.len() && after == #[trigger] before.take(i) + #[trigger] before.skip(j)
}

/// Whether a text is another one with a character put in, after a stretch, which may be empty, was
/// taken out.
pub open spec fn typed_into(before: Seq<char>, after: Seq<char>, c: char) -> bool {
    exists|rest: Seq<char>, i: int|
        0 <= i <= rest.len() && #[trigger] cut_from(before, rest) && after == #[trigger] rest.insert(
            i,
            c,
        )
}

/// What a key may make of the text in an area. A character, or the line feed of Enter, is put in,
/// in place of what is selected; control characters other than line feeds and tabs are not. Keys
/// that delete, Ctrl+K among them, take a stretch out; Ctrl+Z and Ctrl+Y take one out or put one
/// in. No other key changes the text.
pub open spec fn area_edited(before: Seq<char>, after: Seq<char>, key: Key, ctrl: bool) -> bool {
    match key {
        Key::Char(c) => if !ctrl {
            if !control(c) || c == '\n' || c == '\t' {
                typed_into(before, after, c)
            } else {
                after == before
            }
        } else if c == 'k' {
            cut_from(before, after)
        } else if c == 'z' || c == 'y' {
            cut_from(before, after) || cut_from(after, before)
        } else {
            after == before
        },
        Key::Enter => typed_into(before, after, '\n'),
        Key::Backspace | Key::Delete => cut_from(before, after),
        _ => after == before,
    }
}

/// Whether a key goes up or down by lines.
pub open spec fn by_lines(key: Key) -> bool {
    key == Key::Up || key == Key::Down || key == Key::PageUp || key == Key::PageDown
}

/// Whether a character ends a line, of the characters that an area takes.
pub open spec fn ends_line(c: char) -> bool {
    c == '\n' || c == '\u{2028}' || c == '\u{2029}'
}

/// The number of the last line of a text.
pub open spec fn last_line(text: Seq<char>) -> nat {
    text.filter(|c: char| ends_line(c)).len()
}

/// Whether every character of a line is one column wide in any case.
pub open spec fn plain_line(line: Seq<char>) -> bool {
    forall|i: int| 0 <= i < line.len() ==> ' ' <= #[trigger] line[i] <= '~' || line[i] == '\t'
}

/// Whether a key that goes by lines selects on its way.
pub open spec fn selecting(key: Key, shift: bool) -> bool {
    shift && (key == Key::Up || key == Key::Down)
}

impl AreaModel {
    /// An area that nobody has touched since the text was put in.
    pub open spec fn fresh(text: Seq<char>) -> AreaModel {
        AreaModel {
            text: printable(text),
            selection: None,
            redo: Seq::empty(),
            ..area_with(text)
        }
    }

    /// The area with the cursor at another place. What is selected then reaches from where the
    /// selection began to the cursor, or nothing is selected.
    pub open spec fn moved(self, place: Place, selecting: bool) -> AreaModel {
        let from = match self.selection {
            Some(selection) => selection.0,
            None => self.cursor,
        };
        AreaModel {
            cursor: place,
            selection: if selecting {
                Some((from, place))
            } else {
                None
            },
            ..self
        }
    }

    /// The lines between line feeds.
    pub open spec fn lines(self) -> Seq<Seq<char>> {
        pieces(self.text, '\n')
    }

    /// Whether lines end in line feeds only.
    pub open spec fn ends_in_feeds(self) -> bool {
        !self.text.contains('\u{2028}') && !self.text.contains('\u{2029}')
    }

    /// The line that a key goes to: the one above or below, where there is one.
    pub open spec fn goal_line(self, key: Key) -> nat {
        let line = self.cursor.0;
        if key == Key::Up || key == Key::PageUp {
            if line > 0 {
                (line - 1) as nat
            } else {
                0
            }
        } else if line < last_line(self.text) {
            line + 1
        } else {
            line
        }
    }

    /// The place that a key goes to: the same column of another line, or the end of that line where
    /// it is shorter.
    pub open spec fn goal(self, key: Key) -> Place {
        let line = self.goal_line(key);
        let end = self.lines()[line as int].len();
        if line == self.cursor.0 || self.cursor.1 < end {
            (line, self.cursor.1)
        } else {
            (line, end)
        }
    }

    /// Whether the place that a key goes to does not depend on how wide letters are: the cursor
    /// stays, or both lines hold plain characters only.
    pub open spec fn goal_is_plain(self, key: Key) -> bool {
        let line = self.goal_line(key);
        line == self.cursor.0 || self.ends_in_feeds() && plain_line(
            self.lines()[self.cursor.0 as int],
        ) && plain_line(self.lines()[line as int])
    }

    /// Whether a key that goes by lines may lead to a place.
    pub open spec fn reaches(self, key: Key, place: Place) -> bool {
        &&& place.0 == self.goal_line(key)
        &&& self.goal_is_plain(key) ==> place == self.goal(key)
        &&& self.ends_in_feeds() ==> place.1 <= self.lines()[place.0 as int].len()
    }

    /// What is known of an area after the press of a key. The text changes as `area_edited` says. A
    /// key that goes by lines only moves the cursor, and selects up to it where Shift is held with
    /// an arrow.
    pub open spec fn took(self, key: Key, shift: bool, ctrl: bool, after: AreaModel) -> bool {
        &&& area_edited(self.text, after.text, key, ctrl)
        &&& by_lines(key) ==> after == self.moved(after.cursor, selecting(key, shift))
        &&& by_lines(key) ==> self.reaches(key, after.cursor)
    }
}

/// Calls `cjk_width_enabled` of `ftui_core`: whether letters of ambiguous width are wide. That comes
/// from the environment, is read once, and stays the same while the program runs.
#[verifier::external_body]
fn wide_letters() -> (r: bool) {
    ftui_core::text_width::cjk_width_enabled()
}

/// An area for notes, and whether letters of ambiguous width are wide in it. The area is never drawn
/// itself: only copies of it are handed out.
pub struct NotesArea {
    area: TextArea,
    wide: bool,
}

/// What an area for notes holds, and whether letters of ambiguous width are wide in it.
pub struct NotesModel {
    pub area: AreaModel,
    pub wide: bool,
}

impl NotesModel {
    /// The area with another text that nobody has touched.
    pub open spec fn refilled(self, text: Seq<char>) -> NotesModel {
        NotesModel { area: AreaModel::fresh(text), ..self }
    }

    /// The area after a key.
    pub open spec fn after_key(self, key: Key, shift: bool, ctrl: bool) -> NotesModel {
        NotesModel { area: area_after(self.area, key, shift, ctrl, self.wide), ..self }
    }
}

impl View for NotesArea {
    type V = NotesModel;

    closed spec fn view(&self) -> NotesModel {
        NotesModel { area: area_state(self.area), wide: self.wide }
    }
}

impl NotesArea {
    /// An area without text.
    pub fn new() -> (r: NotesArea)
        ensures
            r@.area == AreaModel::fresh(Seq::empty()),
    {
        proof {
            reveal_strlit("");
            assert(""@ =~= Seq::<char>::empty());
        }
        NotesArea { area: build_area(""), wide: wide_letters() }
    }

    /// Puts another text in, which nobody has touched.
    pub fn refill(&mut self, text: &str)
        ensures
            final(self)@ == old(self)@.refilled(text@),
    {
        self.area = build_area(text);
    }

    /// The text that the area holds.
    pub fn text(&self) -> (r: String)
        ensures
            r@ == self@.area.text,
    {
        read_area(&self.area)
    }

    /// A copy of the area to be drawn.
    pub fn widget(&self) -> (r: TextArea)
        ensures
            area_state(r) == self@.area,
    {
        copy_area(&self.area)
    }

    /// Calls `TextArea::handle_event` of `ftui_widgets` on the press of a key, with the modifier
    /// keys that are held. What it does is left to the name of the result, but for what `took`
    /// says. Keys for pages go one line, as arrows do: a page is as high as the area was last
    /// drawn, at least one line, and this area is not drawn. To which column a key that goes by
    /// lines leads is said of plain lines only; in others it depends on how wide the letters are.
    #[verifier::external_body]
    pub(crate) fn press(&mut self, key: Key, shift: bool, ctrl: bool)
        ensures
            final(self)@.area == area_after(old(self)@.area, key, shift, ctrl, old(self)@.wide),
            final(self)@.wide == old(self)@.wide,
            old(self)@.area.took(key, shift, ctrl, final(self)@.area),
    {
        let code = match key {
            Key::Char(c) => Char(c), Key::Enter => Enter, Key::Escape => Escape, Key::Tab => Tab,
            Key::Backspace => Backspace, Key::Delete => Delete, Key::BackTab => BackTab,
            Key::Home => Home, Key::End => End, Key::PageUp => PageUp, Key::PageDown => PageDown,
            Key::Up => Up, Key::Down => Down, Key::Left => Left, Key::Right => Right,
            Key::Other => Null,
        };
        let mut held = Modifiers::NONE;
        held.set(Modifiers::SHIFT, shift);
        held.set(Modifiers::CTRL, ctrl);
        self.area.handle_event(&Event::Key(KeyEvent::new(code).with_modifiers(held)));
    }
}

} // verus!
