//! Navigation patterns shared by the list screens and forms: which key
//! moves a selection, types into a field, or moves between fields.
//!
//! Each helper first decides, from the key alone, what the key means (a
//! verified function with an exact contract), then hands that to the
//! screen through the trait it implements.

use crate::app::keys::{no_mods, only_shift, KeyCode, KeyEvent};
use crate::app::panel::ListPanel;
use vstd::prelude::*;

verus! {

/// A list with a selection that can move.
pub trait ListSelectable: Sized {
    /// `after` is this list with its selection moved by `m`, and nothing
    /// else changed.
    spec fn moved_by(&self, m: ListMove, after: Self) -> bool;

    /// Moves the selection to the previous item.
    fn select_prev(&mut self)
        ensures
            old(self).moved_by(ListMove::Prev, *final(self)),
    ;

    /// Moves the selection to the next item.
    fn select_next(&mut self)
        ensures
            old(self).moved_by(ListMove::Next, *final(self)),
    ;

    /// Moves the selection to the first item.
    fn select_first(&mut self)
        ensures
            old(self).moved_by(ListMove::First, *final(self)),
    ;

    /// Moves the selection to the last item.
    fn select_last(&mut self)
        ensures
            old(self).moved_by(ListMove::Last, *final(self)),
    ;
}

/// Where a list's selection lands after a move, in a list of `len` rows:
/// up and down stop at the ends, first is row 0, last is the last row (or
/// 0 with no rows).
pub open spec fn moved_selection(m: ListMove, selected: int, len: int) -> int {
    match m {
        ListMove::Prev => if selected > 0 {
            selected - 1
        } else {
            0
        },
        ListMove::Next => if selected + 1 < len {
            selected + 1
        } else {
            selected
        },
        ListMove::First => 0,
        ListMove::Last => if len == 0 {
            0
        } else {
            len - 1
        },
    }
}

/// A text field being typed into.
pub trait TextInputField: Sized {
    /// `after` is this field with the edit `e` made to its current field,
    /// and nothing else changed.
    spec fn edited_by(&self, e: TextEdit, after: Self) -> bool;

    /// Inserts a character into the current field.
    fn field_insert(&mut self, c: char)
        ensures
            old(self).edited_by(TextEdit::Insert(c), *final(self)),
    ;

    /// Removes the last character of the current field.
    fn field_backspace(&mut self)
        ensures
            old(self).edited_by(TextEdit::Backspace, *final(self)),
    ;
}

/// A form with several fields.
pub trait FormNavigable: Sized {
    /// `after` is this form with the current field moved by `m`, and
    /// nothing else changed.
    spec fn field_moved_by(&self, m: FieldMove, after: Self) -> bool;

    /// Moves to the next field.
    fn next_field(&mut self)
        ensures
            old(self).field_moved_by(FieldMove::Next, *final(self)),
    ;

    /// Moves to the previous field.
    fn prev_field(&mut self)
        ensures
            old(self).field_moved_by(FieldMove::Prev, *final(self)),
    ;
}

/// A move of a list's selection.
#[derive(Debug, Clone, Copy, PartialEq, Eq, Structural)]
pub enum ListMove {
    /// To the previous item.
    Prev,
    /// To the next item.
    Next,
    /// To the first item.
    First,
    /// To the last item.
    Last,
}

/// An edit of a text field.
#[derive(Debug, Clone, Copy, PartialEq, Eq, Structural)]
pub enum TextEdit {
    /// Insert this character.
    Insert(char),
    /// Delete the last character.
    Backspace,
}

/// A move between a form's fields.
#[derive(Debug, Clone, Copy, PartialEq, Eq, Structural)]
pub enum FieldMove {
    /// To the next field.
    Next,
    /// To the previous field.
    Prev,
}

/// Vim keys and arrows, with no modifier: `j`/Down is next, `k`/Up is
/// previous.
pub open spec fn vim_move(key: KeyEvent) -> Option<ListMove> {
    if !no_mods(key.modifiers) {
        None
    } else {
        match key.code {
            KeyCode::Down | KeyCode::Char('j') => Some(ListMove::Next),
            KeyCode::Up | KeyCode::Char('k') => Some(ListMove::Prev),
            _ => None,
        }
    }
}

/// Home and End, with no modifier: first and last.
pub open spec fn home_end_move(key: KeyEvent) -> Option<ListMove> {
    if !no_mods(key.modifiers) {
        None
    } else {
        match key.code {
            KeyCode::Home => Some(ListMove::First),
            KeyCode::End => Some(ListMove::Last),
            _ => None,
        }
    }
}

/// The vim keys first, then Home and End.
pub open spec fn full_list_move(key: KeyEvent) -> Option<ListMove> {
    match vim_move(key) {
        Some(m) => Some(m),
        None => home_end_move(key),
    }
}

/// Backspace with no modifier deletes; a character with no modifier or
/// Shift alone is typed.
pub open spec fn text_edit(key: KeyEvent) -> Option<TextEdit> {
    match key.code {
        KeyCode::Backspace => if no_mods(key.modifiers) {
            Some(TextEdit::Backspace)
        } else {
            None
        },
        KeyCode::Char(c) => if no_mods(key.modifiers) || only_shift(key.modifiers) {
            Some(TextEdit::Insert(c))
        } else {
            None
        },
        _ => None,
    }
}

/// Tab with no modifier goes to the next field; Shift+Tab, and BackTab
/// with no modifier or Shift alone, to the previous one.
pub open spec fn field_move(key: KeyEvent) -> Option<FieldMove> {
    match key.code {
        KeyCode::Tab => if no_mods(key.modifiers) {
            Some(FieldMove::Next)
        } else if only_shift(key.modifiers) {
            Some(FieldMove::Prev)
        } else {
            None
        },
        KeyCode::BackTab => if no_mods(key.modifiers) || only_shift(key.modifiers) {
            Some(FieldMove::Prev)
        } else {
            None
        },
        _ => None,
    }
}

/// What a vim key or arrow does to a list.
pub fn vim_navigation_move(key: &KeyEvent) -> (r: Option<ListMove>)
    ensures
        r == vim_move(*key),
{
    if !key.modifiers.is_empty() {
        return None;
    }
    match key.code {
        KeyCode::Down => Some(ListMove::Next),
        KeyCode::Up => Some(ListMove::Prev),
        KeyCode::Char(c) => {
            if c == 'j' {
                Some(ListMove::Next)
            } else if c == 'k' {
                Some(ListMove::Prev)
            } else {
                None
            }
        },
        _ => None,
    }
}

/// What Home or End does to a list.
pub fn home_end_selection_move(key: &KeyEvent) -> (r: Option<ListMove>)
    ensures
        r == home_end_move(*key),
{
    if !key.modifiers.is_empty() {
        return None;
    }
    match key.code {
        KeyCode::Home => Some(ListMove::First),
        KeyCode::End => Some(ListMove::Last),
        _ => None,
    }
}

/// What a key does to a list, vim keys first.
pub fn full_list_navigation_move(key: &KeyEvent) -> (r: Option<ListMove>)
    ensures
        r == full_list_move(*key),
{
    match vim_navigation_move(key) {
        Some(m) => Some(m),
        None => home_end_selection_move(key),
    }
}

/// What a key does to a text field.
pub fn text_input_edit(key: &KeyEvent) -> (r: Option<TextEdit>)
    ensures
        r == text_edit(*key),
{
    match key.code {
        KeyCode::Backspace => {
            if key.modifiers.is_empty() {
                Some(TextEdit::Backspace)
            } else {
                None
            }
        },
        KeyCode::Char(c) => {
            if key.modifiers.is_empty() || key.modifiers.is_only_shift() {
                Some(TextEdit::Insert(c))
            } else {
                None
            }
        },
        _ => None,
    }
}

/// What a key does to a form's focus.
pub fn form_navigation_move(key: &KeyEvent) -> (r: Option<FieldMove>)
    ensures
        r == field_move(*key),
{
    match key.code {
        KeyCode::Tab => {
            if key.modifiers.is_empty() {
                Some(FieldMove::Next)
            } else if key.modifiers.is_only_shift() {
                Some(FieldMove::Prev)
            } else {
                None
            }
        },
        KeyCode::BackTab => {
            if key.modifiers.is_empty() || key.modifiers.is_only_shift() {
                Some(FieldMove::Prev)
            } else {
                None
            }
        },
        _ => None,
    }
}

/// Applies a move to a list.
pub fn apply_list_move<T: ListSelectable>(selectable: &mut T, m: ListMove)
    ensures
        old(selectable).moved_by(m, *final(selectable)),
{
    match m {
        ListMove::Prev => selectable.select_prev(),
        ListMove::Next => selectable.select_next(),
        ListMove::First => selectable.select_first(),
        ListMove::Last => selectable.select_last(),
    }
}

/// Handles `j`/`k` and the arrows for a list; returns whether the key was
/// one of them.
pub fn handle_vim_navigation<T: ListSelectable>(selectable: &mut T, key: &KeyEvent) -> (r: bool)
    ensures
        r == vim_move(*key) is Some,
        vim_move(*key) matches Some(m) ==> old(selectable).moved_by(m, *final(selectable)),
        vim_move(*key) is None ==> *final(selectable) == *old(selectable),
{
    match vim_navigation_move(key) {
        Some(m) => {
            apply_list_move(selectable, m);
            true
        },
        None => false,
    }
}

/// Handles Home and End for a list; returns whether the key was one of
/// them.
pub fn handle_home_end_selection<T: ListSelectable>(selectable: &mut T, key: &KeyEvent) -> (r:
    bool)
    ensures
        r == home_end_move(*key) is Some,
        home_end_move(*key) matches Some(m) ==> old(selectable).moved_by(m, *final(selectable)),
        home_end_move(*key) is None ==> *final(selectable) == *old(selectable),
{
    match home_end_selection_move(key) {
        Some(m) => {
            apply_list_move(selectable, m);
            true
        },
        None => false,
    }
}

/// Handles every list navigation key; returns whether the key was one.
pub fn handle_full_list_navigation<T: ListSelectable>(selectable: &mut T, key: &KeyEvent) -> (r:
    bool)
    ensures
        r == full_list_move(*key) is Some,
        full_list_move(*key) matches Some(m) ==> old(selectable).moved_by(m, *final(selectable)),
        full_list_move(*key) is None ==> *final(selectable) == *old(selectable),
{
    match full_list_navigation_move(key) {
        Some(m) => {
            apply_list_move(selectable, m);
            true
        },
        None => false,
    }
}

/// Handles typing and Backspace in a field; returns whether the key was
/// one of them.
pub fn handle_text_input<T: TextInputField>(field: &mut T, key: &KeyEvent) -> (r: bool)
    ensures
        r == text_edit(*key) is Some,
        text_edit(*key) matches Some(e) ==> old(field).edited_by(e, *final(field)),
        text_edit(*key) is None ==> *final(field) == *old(field),
{
    match text_input_edit(key) {
        Some(TextEdit::Insert(c)) => {
            field.field_insert(c);
            true
        },
        Some(TextEdit::Backspace) => {
            field.field_backspace();
            true
        },
        None => false,
    }
}

/// Handles Tab and Shift+Tab in a form; returns whether the key was one of
/// them.
pub fn handle_form_navigation<T: FormNavigable>(form: &mut T, key: &KeyEvent) -> (r: bool)
    ensures
        r == field_move(*key) is Some,
        field_move(*key) matches Some(m) ==> old(form).field_moved_by(m, *final(form)),
        field_move(*key) is None ==> *final(form) == *old(form),
{
    match form_navigation_move(key) {
        Some(FieldMove::Next) => {
            form.next_field();
            true
        },
        Some(FieldMove::Prev) => {
            form.prev_field();
            true
        },
        None => false,
    }
}

impl<T> ListSelectable for ListPanel<T> {
    open spec fn moved_by(&self, m: ListMove, after: Self) -> bool {
        &&& after.items_view() == self.items_view()
        &&& after.open_view() == self.open_view()
        &&& after.selected_view() == moved_selection(
            m,
            self.selected_view(),
            self.items_view().len() as int,
        )
    }

    fn select_prev(&mut self) {
        self.up();
    }

    fn select_next(&mut self) {
        self.down();
    }

    fn select_first(&mut self) {
        self.select(0);
    }

    fn select_last(&mut self) {
        let n = self.len();
        if n > 0 {
            self.select(n - 1);
        } else {
            self.select(0);
        }
    }
}

} // verus!
