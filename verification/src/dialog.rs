//! The dialog that asks before an item is deleted.
use ftui_core::event::{Event, KeyCode, KeyEvent, Modifiers};
use ftui_widgets::modal::{Dialog, DialogResult as Answer, DialogState as WidgetState};
use vstd::prelude::*;

verus! {

/// The state of a dialog with the two buttons OK and Cancel.
#[derive(Debug, Clone, Copy)]
pub struct DialogState {
    pub focused_button: Option<usize>,
    pub open: bool,
}

/// The keys that a dialog listens to.
#[derive(Debug, Clone, Copy, PartialEq, Eq, Structural)]
pub enum DialogKey {
    Escape,
    Tab,
    Enter,
    Left,
    Right,
}

/// How a dialog was answered.
#[derive(Debug, Clone, Copy, PartialEq, Eq, Structural)]
pub enum DialogResult {
    Dismissed,
    Confirmed,
    Cancelled,
    Other,
}

impl DialogState {
    /// The focus is on one of the two buttons, if on any.
    pub open spec fn wf(self) -> bool {
        self.focused_button matches Some(i) ==> i < 2
    }

    /// The button that Enter presses: OK where none has the focus.
    pub open spec fn current(self) -> int {
        match self.focused_button {
            Some(i) => i as int,
            None => 0,
        }
    }

    /// The state after a key.
    pub open spec fn after_key(self, key: DialogKey) -> DialogState {
        if !self.open {
            self
        } else {
            match key {
                DialogKey::Escape => DialogState { open: false, ..self },
                DialogKey::Enter => DialogState { open: false, ..self },
                _ => DialogState { focused_button: Some((1 - self.current()) as usize), ..self },
            }
        }
    }

    /// How a key answers the dialog, if it does.
    pub open spec fn answer(self, key: DialogKey) -> Option<DialogResult> {
        if !self.open {
            None
        } else {
            match key {
                DialogKey::Escape => Some(DialogResult::Dismissed),
                DialogKey::Enter => if self.current() == 0 {
                    Some(DialogResult::Confirmed)
                } else {
                    Some(DialogResult::Cancelled)
                },
                _ => None,
            }
        }
    }

    /// The state of a dialog that was never opened.
    pub fn closed() -> (r: DialogState)
        ensures
            r == (DialogState { focused_button: None, open: false }),
    {
        DialogState { focused_button: None, open: false }
    }

    /// The state of a dialog that has just been opened.
    pub fn new() -> (r: DialogState)
        ensures
            r == (DialogState { focused_button: None, open: true }),
    {
        DialogState { focused_button: None, open: true }
    }

    /// Calls `Dialog::handle_event` of `ftui_widgets` on a confirm dialog and the press of a key.
    /// Escape dismisses an open dialog, Enter presses the focused button, which is OK where none
    /// has the focus, and the other keys move the focus to the other one of the two buttons. A
    /// closed dialog does nothing. Neither the texts of the dialog nor the modifier keys that are
    /// held, given as bits, make a difference.
    #[verifier::external_body]
    pub(crate) fn press(
        &mut self,
        title: &str,
        message: &str,
        key: DialogKey,
        modifiers: u8,
    ) -> (r: Option<DialogResult>)
        requires
            old(self).wf(),
        ensures
            *final(self) == old(self).after_key(key),
            r == old(self).answer(key),
    {
        let code = match key {
            DialogKey::Escape => KeyCode::Escape,
            DialogKey::Tab => KeyCode::Tab,
            DialogKey::Enter => KeyCode::Enter,
            DialogKey::Left => KeyCode::Left,
            DialogKey::Right => KeyCode::Right,
        };
        let event = KeyEvent::new(code).with_modifiers(Modifiers::from_bits_truncate(modifiers));
        let mut state = WidgetState { focused_button: self.focused_button, open: self.open, ..Default::default() };
        let result = Dialog::confirm(title, message).handle_event(&Event::Key(event), &mut state, None);
        (self.focused_button, self.open) = (state.focused_button, state.open);
        result.map(|r| match r { Answer::Dismissed => DialogResult::Dismissed, Answer::Ok => DialogResult::Confirmed, Answer::Cancel => DialogResult::Cancelled, _ => DialogResult::Other })
    }
}

} // verus!
