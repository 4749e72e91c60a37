use ratterm_core::app::dashboard_nav::{apply_dashboard_navigation, NavResult};
use ratterm_core::app::input_editor::{
    emacs_key, search_key, vim_key, EmacsKey, NavKey, SearchKey, VimKey,
};
use ratterm_core::app::input_traits::{
    handle_form_navigation, handle_full_list_navigation, handle_home_end_selection,
    handle_text_input, handle_vim_navigation, FieldMove, FormNavigable, ListMove,
    ListSelectable, TextEdit, TextInputField,
};
use ratterm_core::app::key_filter::{normalize, KeyDecision, KeyEventFilter, PRESSED_SLOTS};
use ratterm_core::app::keymap::{encode_utf8, key_to_bytes};
use ratterm_core::app::keys::{KeyCode, KeyEvent, KeyEventKind, KeyModifiers};
use ratterm_core::app::panel::ListPanel;

fn key(code: KeyCode, mods: KeyModifiers, kind: KeyEventKind) -> KeyEvent {
    KeyEvent::with_kind(code, mods, kind)
}

fn press(code: KeyCode, mods: KeyModifiers) -> KeyEvent {
    key(code, mods, KeyEventKind::Press)
}

fn release(code: KeyCode, mods: KeyModifiers) -> KeyEvent {
    key(code, mods, KeyEventKind::Release)
}

fn key_event(modifiers: KeyModifiers, code: KeyCode) -> KeyEvent {
    KeyEvent::new(code, modifiers)
}

struct MockList {
    prev_calls: usize,
    next_calls: usize,
    first_calls: usize,
    last_calls: usize,
}

impl MockList {
    fn new() -> Self {
        Self {
            prev_calls: 0,
            next_calls: 0,
            first_calls: 0,
            last_calls: 0,
        }
    }
}

impl ListSelectable for MockList {
    fn moved_by(&self, m: ListMove, after: Self) -> bool {
        let step = |n: usize, which: ListMove| if m == which { n + 1 } else { n };
        after.prev_calls == step(self.prev_calls, ListMove::Prev)
            && after.next_calls == step(self.next_calls, ListMove::Next)
            && after.first_calls == step(self.first_calls, ListMove::First)
            && after.last_calls == step(self.last_calls, ListMove::Last)
    }

    fn select_prev(&mut self) {
        self.prev_calls += 1;
    }

    fn select_next(&mut self) {
        self.next_calls += 1;
    }

    fn select_first(&mut self) {
        self.first_calls += 1;
    }

    fn select_last(&mut self) {
        self.last_calls += 1;
    }
}

struct MockTextField {
    content: String,
    insert_calls: usize,
    backspace_calls: usize,
}

impl MockTextField {
    fn new() -> Self {
        Self {
            content: String::new(),
            insert_calls: 0,
            backspace_calls: 0,
        }
    }
}

impl TextInputField for MockTextField {
    fn edited_by(&self, e: TextEdit, after: Self) -> bool {
        match e {
            TextEdit::Insert(c) => {
                after.content == format!("{}{}", self.content, c)
                    && after.insert_calls == self.insert_calls + 1
                    && after.backspace_calls == self.backspace_calls
            }
            TextEdit::Backspace => {
                let mut shorter = self.content.clone();
                shorter.pop();
                after.content == shorter
                    && after.insert_calls == self.insert_calls
                    && after.backspace_calls == self.backspace_calls + 1
            }
        }
    }

    fn field_insert(&mut self, c: char) {
        self.content.push(c);
        self.insert_calls += 1;
    }

    fn field_backspace(&mut self) {
        self.content.pop();
        self.backspace_calls += 1;
    }
}

struct MockForm {
    field_index: usize,
    next_calls: usize,
    prev_calls: usize,
}

impl MockForm {
    fn new() -> Self {
        Self {
            field_index: 0,
            next_calls: 0,
            prev_calls: 0,
        }
    }
}

impl FormNavigable for MockForm {
    fn field_moved_by(&self, m: FieldMove, after: Self) -> bool {
        match m {
            FieldMove::Next => {
                after.field_index == (self.field_index + 1).min(3)
                    && after.next_calls == self.next_calls + 1
                    && after.prev_calls == self.prev_calls
            }
            FieldMove::Prev => {
                after.field_index == self.field_index.saturating_sub(1)
                    && after.next_calls == self.next_calls
                    && after.prev_calls == self.prev_calls + 1
            }
        }
    }

    fn next_field(&mut self) {
        self.field_index = (self.field_index + 1).min(3);
        self.next_calls += 1;
    }

    fn prev_field(&mut self) {
        self.field_index = self.field_index.saturating_sub(1);
        self.prev_calls += 1;
    }
}

// ---------------------------------------------------------------- key filter

#[test]
fn test_press_plain_char_dispatched() {
    let mut f = KeyEventFilter::new();
    let ev = press(KeyCode::Char('a'), KeyModifiers::none());
    assert_eq!(f.decide(&ev), KeyDecision::Dispatch);
}

#[test]
fn test_press_shifted_char_dispatched() {
    let mut f = KeyEventFilter::new();
    let ev = press(KeyCode::Char('A'), KeyModifiers::shift());
    assert_eq!(f.decide(&ev), KeyDecision::Dispatch);
}

#[test]
fn test_press_ctrl_char_dispatched() {
    let mut f = KeyEventFilter::new();
    let ev = press(KeyCode::Char('c'), KeyModifiers::control());
    assert_eq!(f.decide(&ev), KeyDecision::Dispatch);
}

#[test]
fn test_press_esc_dispatched() {
    let mut f = KeyEventFilter::new();
    let ev = press(KeyCode::Esc, KeyModifiers::none());
    assert_eq!(f.decide(&ev), KeyDecision::Dispatch);
}

#[test]
fn test_ctrl_char_press_then_release_dispatches_once() {
    let mut f = KeyEventFilter::new();
    let mods = KeyModifiers::control();
    assert_eq!(
        f.decide(&press(KeyCode::Char('q'), mods)),
        KeyDecision::Dispatch
    );
    assert_eq!(
        f.decide(&release(KeyCode::Char('q'), mods)),
        KeyDecision::Drop,
        "Release paired with a dispatched Press must not fire the hotkey twice"
    );
}

#[test]
fn test_ctrl_shift_char_press_then_release_dispatches_once() {
    let mut f = KeyEventFilter::new();
    let mods = KeyModifiers::control().union(KeyModifiers::shift());
    assert_eq!(
        f.decide(&press(KeyCode::Char('P'), mods)),
        KeyDecision::Dispatch
    );
    assert_eq!(
        f.decide(&release(KeyCode::Char('P'), mods)),
        KeyDecision::Drop
    );
}

#[test]
fn test_esc_press_then_release_dispatches_once() {
    let mut f = KeyEventFilter::new();
    assert_eq!(
        f.decide(&press(KeyCode::Esc, KeyModifiers::none())),
        KeyDecision::Dispatch
    );
    assert_eq!(
        f.decide(&release(KeyCode::Esc, KeyModifiers::none())),
        KeyDecision::Drop
    );
}

#[test]
fn test_alt_char_press_then_release_dispatches_once() {
    let mut f = KeyEventFilter::new();
    assert_eq!(
        f.decide(&press(KeyCode::Char('x'), KeyModifiers::alt())),
        KeyDecision::Dispatch
    );
    assert_eq!(
        f.decide(&release(KeyCode::Char('x'), KeyModifiers::alt())),
        KeyDecision::Drop
    );
}

#[test]
fn test_shift_tab_press_then_release_dispatches_once() {
    let mut f = KeyEventFilter::new();
    assert_eq!(
        f.decide(&press(KeyCode::BackTab, KeyModifiers::shift())),
        KeyDecision::Dispatch
    );
    assert_eq!(
        f.decide(&release(KeyCode::BackTab, KeyModifiers::shift())),
        KeyDecision::Drop
    );
}

#[test]
fn test_release_case_differs_from_press_still_pairs() {
    // Press reports the shifted glyph, release reports the unshifted one.
    let mut f = KeyEventFilter::new();
    let mods = KeyModifiers::control().union(KeyModifiers::shift());
    assert_eq!(
        f.decide(&press(KeyCode::Char('P'), mods)),
        KeyDecision::Dispatch
    );
    assert_eq!(
        f.decide(&release(KeyCode::Char('p'), mods)),
        KeyDecision::Drop
    );
}

#[test]
fn test_release_after_modifier_lifted_still_pairs() {
    // User lifts Ctrl before the letter, so the release carries no modifier.
    let mut f = KeyEventFilter::new();
    assert_eq!(
        f.decide(&press(KeyCode::Char('g'), KeyModifiers::control())),
        KeyDecision::Dispatch
    );
    assert_eq!(
        f.decide(&release(KeyCode::Char('g'), KeyModifiers::none())),
        KeyDecision::Drop
    );
}

#[test]
fn test_repeated_hotkey_dispatches_once_each_time() {
    let mut f = KeyEventFilter::new();
    let mods = KeyModifiers::control();
    for _ in 0..5 {
        assert_eq!(
            f.decide(&press(KeyCode::Char('t'), mods)),
            KeyDecision::Dispatch
        );
        assert_eq!(
            f.decide(&release(KeyCode::Char('t'), mods)),
            KeyDecision::Drop
        );
    }
}

#[test]
fn test_interleaved_hotkeys_each_dispatch_once() {
    let mut f = KeyEventFilter::new();
    let mods = KeyModifiers::control();
    assert_eq!(
        f.decide(&press(KeyCode::Char('a'), mods)),
        KeyDecision::Dispatch
    );
    assert_eq!(
        f.decide(&press(KeyCode::Char('b'), mods)),
        KeyDecision::Dispatch
    );
    assert_eq!(
        f.decide(&release(KeyCode::Char('a'), mods)),
        KeyDecision::Drop
    );
    assert_eq!(
        f.decide(&release(KeyCode::Char('b'), mods)),
        KeyDecision::Drop
    );
}

#[test]
fn test_duplicate_press_without_release_still_pairs_once() {
    // Some consoles emit repeated Press events while a key is held.
    let mut f = KeyEventFilter::new();
    let mods = KeyModifiers::control();
    assert_eq!(
        f.decide(&press(KeyCode::Char('s'), mods)),
        KeyDecision::Dispatch
    );
    assert_eq!(
        f.decide(&press(KeyCode::Char('s'), mods)),
        KeyDecision::Dispatch
    );
    assert_eq!(
        f.decide(&release(KeyCode::Char('s'), mods)),
        KeyDecision::Drop
    );
    // The slot is now free, so a genuine orphan release is recoverable.
    assert_eq!(
        f.decide(&release(KeyCode::Char('s'), mods)),
        KeyDecision::Dispatch
    );
}

#[test]
fn test_orphan_release_esc_dispatched() {
    let mut f = KeyEventFilter::new();
    assert_eq!(
        f.decide(&release(KeyCode::Esc, KeyModifiers::none())),
        KeyDecision::Dispatch,
        "Release of Esc with no preceding Press keeps the plink workaround"
    );
}

#[test]
fn test_orphan_release_ctrl_char_dispatched() {
    let mut f = KeyEventFilter::new();
    assert_eq!(
        f.decide(&release(KeyCode::Char('c'), KeyModifiers::control())),
        KeyDecision::Dispatch
    );
}

#[test]
fn test_orphan_release_alt_char_dispatched() {
    let mut f = KeyEventFilter::new();
    assert_eq!(
        f.decide(&release(KeyCode::Char('x'), KeyModifiers::alt())),
        KeyDecision::Dispatch
    );
}

#[test]
fn test_orphan_release_shift_tab_dispatched() {
    let mut f = KeyEventFilter::new();
    assert_eq!(
        f.decide(&release(KeyCode::Tab, KeyModifiers::shift())),
        KeyDecision::Dispatch
    );
    assert_eq!(
        f.decide(&release(KeyCode::BackTab, KeyModifiers::shift())),
        KeyDecision::Dispatch
    );
}

#[test]
fn test_orphan_release_plain_char_dropped() {
    let mut f = KeyEventFilter::new();
    assert_eq!(
        f.decide(&release(KeyCode::Char('a'), KeyModifiers::none())),
        KeyDecision::Drop
    );
}

#[test]
fn test_orphan_release_shifted_char_dropped() {
    let mut f = KeyEventFilter::new();
    assert_eq!(
        f.decide(&release(KeyCode::Char('A'), KeyModifiers::shift())),
        KeyDecision::Drop,
        "Release of Shift+Char must be filtered to prevent double input"
    );
}

#[test]
fn test_repeat_plain_char_dropped() {
    let mut f = KeyEventFilter::new();
    let ev = key(KeyCode::Char('a'), KeyModifiers::none(), KeyEventKind::Repeat);
    assert_eq!(f.decide(&ev), KeyDecision::Drop);
}

#[test]
fn test_repeat_shifted_char_dropped() {
    let mut f = KeyEventFilter::new();
    let ev = key(
        KeyCode::Char('A'),
        KeyModifiers::shift(),
        KeyEventKind::Repeat,
    );
    assert_eq!(f.decide(&ev), KeyDecision::Drop);
}

#[test]
fn test_press_ring_evicts_oldest_when_full() {
    let mut f = KeyEventFilter::new();
    let mods = KeyModifiers::control();
    // Fill every slot plus one, without any releases.
    for byte in (b'a'..=b'z').take(PRESSED_SLOTS + 1) {
        let c = char::from(byte);
        assert_eq!(
            f.decide(&press(KeyCode::Char(c), mods)),
            KeyDecision::Dispatch
        );
    }
    // 'a' was evicted, so its release now looks like an orphan.
    assert_eq!(
        f.decide(&release(KeyCode::Char('a'), mods)),
        KeyDecision::Dispatch
    );
    // 'b' is still tracked, so its release is a duplicate.
    assert_eq!(
        f.decide(&release(KeyCode::Char('b'), mods)),
        KeyDecision::Drop
    );
}

#[test]
fn test_default_matches_new() {
    let mut a = KeyEventFilter::default();
    let mut b = KeyEventFilter::new();
    let ev = release(KeyCode::Esc, KeyModifiers::none());
    assert_eq!(a.decide(&ev), b.decide(&ev));
}

#[test]
fn test_normalize_lowercases_chars_only() {
    assert_eq!(normalize(KeyCode::Char('Z')), KeyCode::Char('z'));
    assert_eq!(normalize(KeyCode::Char('z')), KeyCode::Char('z'));
    assert_eq!(normalize(KeyCode::F(5)), KeyCode::F(5));
    assert_eq!(normalize(KeyCode::Esc), KeyCode::Esc);
}

#[test]
fn a_non_ascii_letter_is_matched_as_it_is() {
    assert_eq!(normalize(KeyCode::Char('É')), KeyCode::Char('É'));
    let mut f = KeyEventFilter::new();
    let mods = KeyModifiers::alt();
    assert_eq!(f.decide(&press(KeyCode::Char('é'), mods)), KeyDecision::Dispatch);
    assert_eq!(f.decide(&release(KeyCode::Char('é'), mods)), KeyDecision::Drop);
}

// ---------------------------------------------------------------- list and form helpers

#[test]
fn test_vim_navigation_j_moves_next() {
    let mut list = MockList::new();
    let key = key_event(KeyModifiers::none(), KeyCode::Char('j'));

    let handled = handle_vim_navigation(&mut list, &key);

    assert!(handled, "j key should be handled");
    assert_eq!(list.next_calls, 1, "select_next should be called once");
    assert_eq!(list.prev_calls, 0, "select_prev should not be called");
}

#[test]
fn test_vim_navigation_k_moves_prev() {
    let mut list = MockList::new();
    let key = key_event(KeyModifiers::none(), KeyCode::Char('k'));

    let handled = handle_vim_navigation(&mut list, &key);

    assert!(handled, "k key should be handled");
    assert_eq!(list.prev_calls, 1, "select_prev should be called once");
    assert_eq!(list.next_calls, 0, "select_next should not be called");
}

#[test]
fn test_vim_navigation_down_arrow_moves_next() {
    let mut list = MockList::new();
    let key = key_event(KeyModifiers::none(), KeyCode::Down);

    let handled = handle_vim_navigation(&mut list, &key);

    assert!(handled, "Down arrow should be handled");
    assert_eq!(list.next_calls, 1, "select_next should be called once");
}

#[test]
fn test_vim_navigation_up_arrow_moves_prev() {
    let mut list = MockList::new();
    let key = key_event(KeyModifiers::none(), KeyCode::Up);

    let handled = handle_vim_navigation(&mut list, &key);

    assert!(handled, "Up arrow should be handled");
    assert_eq!(list.prev_calls, 1, "select_prev should be called once");
}

#[test]
fn test_vim_navigation_unhandled_key_returns_false() {
    let mut list = MockList::new();
    let key = key_event(KeyModifiers::none(), KeyCode::Char('x'));

    let handled = handle_vim_navigation(&mut list, &key);

    assert!(!handled, "x key should not be handled");
    assert_eq!(list.next_calls, 0);
    assert_eq!(list.prev_calls, 0);
}

#[test]
fn test_vim_navigation_ignores_modifiers() {
    let mut list = MockList::new();
    let key = key_event(KeyModifiers::control(), KeyCode::Char('j'));

    let handled = handle_vim_navigation(&mut list, &key);

    assert!(!handled, "Ctrl+j should not be handled as vim navigation");
    assert_eq!(list.next_calls, 0);
}

#[test]
fn test_home_end_selection_home_moves_first() {
    let mut list = MockList::new();
    let key = key_event(KeyModifiers::none(), KeyCode::Home);

    let handled = handle_home_end_selection(&mut list, &key);

    assert!(handled, "Home key should be handled");
    assert_eq!(list.first_calls, 1, "select_first should be called once");
    assert_eq!(list.last_calls, 0, "select_last should not be called");
}

#[test]
fn test_home_end_selection_end_moves_last() {
    let mut list = MockList::new();
    let key = key_event(KeyModifiers::none(), KeyCode::End);

    let handled = handle_home_end_selection(&mut list, &key);

    assert!(handled, "End key should be handled");
    assert_eq!(list.last_calls, 1, "select_last should be called once");
    assert_eq!(list.first_calls, 0, "select_first should not be called");
}

#[test]
fn test_home_end_ignores_modifiers() {
    let mut list = MockList::new();
    let key = key_event(KeyModifiers::shift(), KeyCode::Home);

    let handled = handle_home_end_selection(&mut list, &key);

    assert!(!handled, "Shift+Home should not be handled");
    assert_eq!(list.first_calls, 0);
}

#[test]
fn test_full_list_navigation_combines_handlers() {
    let mut list = MockList::new();

    // Test vim navigation
    let key_j = key_event(KeyModifiers::none(), KeyCode::Char('j'));
    assert!(handle_full_list_navigation(&mut list, &key_j));
    assert_eq!(list.next_calls, 1);

    // Test home/end navigation
    let key_home = key_event(KeyModifiers::none(), KeyCode::Home);
    assert!(handle_full_list_navigation(&mut list, &key_home));
    assert_eq!(list.first_calls, 1);

    // Test unhandled key
    let key_x = key_event(KeyModifiers::none(), KeyCode::Char('x'));
    assert!(!handle_full_list_navigation(&mut list, &key_x));
}

#[test]
fn test_text_input_char_inserts() {
    let mut field = MockTextField::new();
    let key = key_event(KeyModifiers::none(), KeyCode::Char('a'));

    let handled = handle_text_input(&mut field, &key);

    assert!(handled, "Char key should be handled");
    assert_eq!(field.content, "a");
    assert_eq!(field.insert_calls, 1);
}

#[test]
fn test_text_input_shift_char_inserts() {
    let mut field = MockTextField::new();
    let key = key_event(KeyModifiers::shift(), KeyCode::Char('A'));

    let handled = handle_text_input(&mut field, &key);

    assert!(handled, "Shift+Char should be handled");
    assert_eq!(field.content, "A");
    assert_eq!(field.insert_calls, 1);
}

#[test]
fn test_text_input_backspace_removes() {
    let mut field = MockTextField::new();
    field.content = "abc".to_string();
    let key = key_event(KeyModifiers::none(), KeyCode::Backspace);

    let handled = handle_text_input(&mut field, &key);

    assert!(handled, "Backspace should be handled");
    assert_eq!(field.content, "ab");
    assert_eq!(field.backspace_calls, 1);
}

#[test]
fn test_text_input_ignores_ctrl_char() {
    let mut field = MockTextField::new();
    let key = key_event(KeyModifiers::control(), KeyCode::Char('c'));

    let handled = handle_text_input(&mut field, &key);

    assert!(!handled, "Ctrl+c should not be handled as text input");
    assert_eq!(field.insert_calls, 0);
}

#[test]
fn test_form_navigation_tab_next() {
    let mut form = MockForm::new();
    let key = key_event(KeyModifiers::none(), KeyCode::Tab);

    let handled = handle_form_navigation(&mut form, &key);

    assert!(handled, "Tab should be handled");
    assert_eq!(form.next_calls, 1, "next_field should be called once");
    assert_eq!(form.prev_calls, 0, "prev_field should not be called");
}

#[test]
fn test_form_navigation_shift_tab_prev() {
    let mut form = MockForm::new();
    form.field_index = 2;
    let key = key_event(KeyModifiers::shift(), KeyCode::Tab);

    let handled = handle_form_navigation(&mut form, &key);

    assert!(handled, "Shift+Tab should be handled");
    assert_eq!(form.prev_calls, 1, "prev_field should be called once");
    assert_eq!(form.next_calls, 0, "next_field should not be called");
}

#[test]
fn test_form_navigation_shift_backtab_prev() {
    let mut form = MockForm::new();
    form.field_index = 2;
    let key = key_event(KeyModifiers::shift(), KeyCode::BackTab);

    let handled = handle_form_navigation(&mut form, &key);

    assert!(handled, "Shift+BackTab should be handled");
    assert_eq!(form.prev_calls, 1);
}

#[test]
fn test_form_navigation_backtab_alone_prev() {
    let mut form = MockForm::new();
    form.field_index = 2;
    let key = key_event(KeyModifiers::none(), KeyCode::BackTab);

    let handled = handle_form_navigation(&mut form, &key);

    assert!(handled, "BackTab alone should be handled");
    assert_eq!(form.prev_calls, 1);
}

#[test]
fn test_multiple_sequential_operations() {
    let mut list = MockList::new();

    // Simulate a user navigating through a list
    handle_full_list_navigation(
        &mut list,
        &key_event(KeyModifiers::none(), KeyCode::Char('j')),
    );
    handle_full_list_navigation(
        &mut list,
        &key_event(KeyModifiers::none(), KeyCode::Char('j')),
    );
    handle_full_list_navigation(&mut list, &key_event(KeyModifiers::none(), KeyCode::Char('k')));
    handle_full_list_navigation(&mut list, &key_event(KeyModifiers::none(), KeyCode::Home));
    handle_full_list_navigation(&mut list, &key_event(KeyModifiers::none(), KeyCode::End));

    assert_eq!(list.next_calls, 2);
    assert_eq!(list.prev_calls, 1);
    assert_eq!(list.first_calls, 1);
    assert_eq!(list.last_calls, 1);
}

#[test]
fn test_typing_workflow() {
    let mut field = MockTextField::new();

    // Type "hello"
    for c in "hello".chars() {
        handle_text_input(&mut field, &key_event(KeyModifiers::none(), KeyCode::Char(c)));
    }
    assert_eq!(field.content, "hello");
    assert_eq!(field.insert_calls, 5);

    // Backspace twice
    handle_text_input(&mut field, &key_event(KeyModifiers::none(), KeyCode::Backspace));
    handle_text_input(&mut field, &key_event(KeyModifiers::none(), KeyCode::Backspace));
    assert_eq!(field.content, "hel");
    assert_eq!(field.backspace_calls, 2);
}

#[test]
fn a_list_panel_follows_the_navigation_keys() {
    let mut panel: ListPanel<&str> = ListPanel::new();
    panel.open(vec!["a", "b", "c", "d"]);
    handle_full_list_navigation(&mut panel, &key_event(KeyModifiers::none(), KeyCode::End));
    assert_eq!(panel.selected(), 3);
    handle_full_list_navigation(&mut panel, &key_event(KeyModifiers::none(), KeyCode::Char('k')));
    assert_eq!(panel.selected(), 2);
    handle_full_list_navigation(&mut panel, &key_event(KeyModifiers::none(), KeyCode::Home));
    assert_eq!(panel.selected(), 0);
    handle_full_list_navigation(&mut panel, &key_event(KeyModifiers::none(), KeyCode::Up));
    assert_eq!(panel.selected(), 0);
}

// ---------------------------------------------------------------- dashboard navigation

fn nav_key(code: KeyCode) -> KeyEvent {
    KeyEvent::new(code, KeyModifiers::none())
}

#[test]
fn test_arrow_down_navigates() {
    let mut list = MockList::new();
    let result = apply_dashboard_navigation(&mut list, &nav_key(KeyCode::Down));
    assert_eq!(result, NavResult::Handled);
    assert_eq!(list.next_calls, 1);
    assert_eq!(list.prev_calls, 0);
}

#[test]
fn test_arrow_up_navigates() {
    let mut list = MockList::new();
    let result = apply_dashboard_navigation(&mut list, &nav_key(KeyCode::Up));
    assert_eq!(result, NavResult::Handled);
    assert_eq!(list.prev_calls, 1);
    assert_eq!(list.next_calls, 0);
}

#[test]
fn test_j_navigates_down() {
    let mut list = MockList::new();
    let result = apply_dashboard_navigation(&mut list, &nav_key(KeyCode::Char('j')));
    assert_eq!(result, NavResult::Handled);
    assert_eq!(list.next_calls, 1);
}

#[test]
fn test_k_navigates_up() {
    let mut list = MockList::new();
    let result = apply_dashboard_navigation(&mut list, &nav_key(KeyCode::Char('k')));
    assert_eq!(result, NavResult::Handled);
    assert_eq!(list.prev_calls, 1);
}

#[test]
fn test_home_navigates_first() {
    let mut list = MockList::new();
    let result = apply_dashboard_navigation(&mut list, &nav_key(KeyCode::Home));
    assert_eq!(result, NavResult::Handled);
    assert_eq!(list.first_calls, 1);
}

#[test]
fn test_end_navigates_last() {
    let mut list = MockList::new();
    let result = apply_dashboard_navigation(&mut list, &nav_key(KeyCode::End));
    assert_eq!(result, NavResult::Handled);
    assert_eq!(list.last_calls, 1);
}

#[test]
fn test_question_mark_shows_help() {
    let mut list = MockList::new();
    let result = apply_dashboard_navigation(&mut list, &nav_key(KeyCode::Char('?')));
    assert_eq!(result, NavResult::ShowHelp);
    // Navigation methods should NOT be called
    assert_eq!(list.next_calls, 0);
    assert_eq!(list.prev_calls, 0);
}

#[test]
fn test_escape_closes() {
    let mut list = MockList::new();
    let result = apply_dashboard_navigation(&mut list, &nav_key(KeyCode::Esc));
    assert_eq!(result, NavResult::Close);
}

#[test]
fn test_enter_activates() {
    let mut list = MockList::new();
    let result = apply_dashboard_navigation(&mut list, &nav_key(KeyCode::Enter));
    assert_eq!(result, NavResult::Activate);
}

#[test]
fn test_unrecognized_key_unhandled() {
    let mut list = MockList::new();
    let result = apply_dashboard_navigation(&mut list, &nav_key(KeyCode::Char('x')));
    assert_eq!(result, NavResult::Unhandled);
    assert_eq!(list.next_calls, 0);
    assert_eq!(list.prev_calls, 0);
}

#[test]
fn test_ctrl_modified_keys_unhandled() {
    let mut list = MockList::new();
    let result = apply_dashboard_navigation(
        &mut list,
        &KeyEvent::new(KeyCode::Char('j'), KeyModifiers::control()),
    );
    assert_eq!(result, NavResult::Unhandled);
    assert_eq!(list.next_calls, 0);
}

#[test]
fn test_navigation_does_not_consume_close() {
    let mut list = MockList::new();
    let result = apply_dashboard_navigation(&mut list, &nav_key(KeyCode::Esc));
    assert_eq!(result, NavResult::Close);
    // Esc should NOT trigger any list navigation
    assert_eq!(list.prev_calls, 0);
    assert_eq!(list.next_calls, 0);
    assert_eq!(list.first_calls, 0);
    assert_eq!(list.last_calls, 0);
}

#[test]
fn test_sequential_navigation() {
    let mut list = MockList::new();
    // j, j, k
    apply_dashboard_navigation(&mut list, &nav_key(KeyCode::Char('j')));
    apply_dashboard_navigation(&mut list, &nav_key(KeyCode::Char('j')));
    apply_dashboard_navigation(&mut list, &nav_key(KeyCode::Char('k')));
    assert_eq!(list.next_calls, 2);
    assert_eq!(list.prev_calls, 1);
}

// ---------------------------------------------------------------- editor key parsers

fn ed_press(code: KeyCode, modifiers: KeyModifiers) -> KeyEvent {
    KeyEvent::new(code, modifiers)
}

#[test]
fn vim_keys_carry_control_chords_and_arrows() {
    assert_eq!(
        vim_key(ed_press(KeyCode::Char('r'), KeyModifiers::control())),
        Some(VimKey::Ctrl('r'))
    );
    assert_eq!(
        vim_key(ed_press(KeyCode::Char('d'), KeyModifiers::none())),
        Some(VimKey::Char('d'))
    );
    assert_eq!(
        vim_key(ed_press(KeyCode::Down, KeyModifiers::none())),
        Some(VimKey::Char('j'))
    );
    assert_eq!(
        vim_key(ed_press(KeyCode::Esc, KeyModifiers::none())),
        Some(VimKey::Escape)
    );
    assert_eq!(vim_key(ed_press(KeyCode::F(5), KeyModifiers::none())), None);
}

#[test]
fn emacs_keys_distinguish_control_alt_and_plain() {
    assert_eq!(
        emacs_key(ed_press(KeyCode::Char('k'), KeyModifiers::control())),
        Some(EmacsKey::Ctrl('k'))
    );
    assert_eq!(
        emacs_key(ed_press(KeyCode::Char('f'), KeyModifiers::alt())),
        Some(EmacsKey::Alt('f'))
    );
    assert_eq!(
        emacs_key(ed_press(
            KeyCode::Char('x'),
            KeyModifiers::control().union(KeyModifiers::alt())
        )),
        Some(EmacsKey::CtrlAlt('x'))
    );
    assert_eq!(
        emacs_key(ed_press(KeyCode::Backspace, KeyModifiers::alt())),
        Some(EmacsKey::AltBackspace)
    );
    assert_eq!(
        emacs_key(ed_press(KeyCode::Char('z'), KeyModifiers::none())),
        Some(EmacsKey::Char('z'))
    );
    assert_eq!(emacs_key(ed_press(KeyCode::F(1), KeyModifiers::none())), None);
    assert_eq!(
        emacs_key(ed_press(KeyCode::PageDown, KeyModifiers::none())),
        Some(EmacsKey::Nav(NavKey::PageDown))
    );
}

#[test]
fn search_keys_cover_the_whole_bar() {
    assert_eq!(
        search_key(ed_press(KeyCode::Enter, KeyModifiers::none())),
        Some(SearchKey::Enter)
    );
    assert_eq!(
        search_key(ed_press(KeyCode::Enter, KeyModifiers::shift())),
        Some(SearchKey::ShiftEnter)
    );
    assert_eq!(
        search_key(ed_press(KeyCode::Enter, KeyModifiers::control())),
        Some(SearchKey::Replace)
    );
    assert_eq!(
        search_key(ed_press(KeyCode::Enter, KeyModifiers::alt())),
        Some(SearchKey::ReplaceAll)
    );
    assert_eq!(
        search_key(ed_press(KeyCode::Tab, KeyModifiers::none())),
        Some(SearchKey::Tab)
    );
    assert_eq!(
        search_key(ed_press(KeyCode::Esc, KeyModifiers::none())),
        Some(SearchKey::Escape)
    );
    assert_eq!(
        search_key(ed_press(KeyCode::Char('a'), KeyModifiers::none())),
        Some(SearchKey::Char('a'))
    );
    // Control chords are not text for the bar.
    assert_eq!(
        search_key(ed_press(KeyCode::Char('a'), KeyModifiers::control())),
        None
    );
}

// ---------------------------------------------------------------- terminal bytes

#[test]
fn keys_become_the_bytes_a_terminal_expects() {
    let none = KeyModifiers::none();
    assert_eq!(key_to_bytes(KeyEvent::new(KeyCode::Char('a'), none)), b"a".to_vec());
    assert_eq!(
        key_to_bytes(KeyEvent::new(KeyCode::Char('A'), KeyModifiers::shift())),
        b"A".to_vec()
    );
    assert_eq!(
        key_to_bytes(KeyEvent::new(KeyCode::Char('c'), KeyModifiers::control())),
        vec![3u8]
    );
    assert_eq!(
        key_to_bytes(KeyEvent::new(KeyCode::Char('C'), KeyModifiers::control())),
        vec![3u8]
    );
    assert_eq!(key_to_bytes(KeyEvent::new(KeyCode::Enter, none)), vec![b'\r']);
    assert_eq!(key_to_bytes(KeyEvent::new(KeyCode::Backspace, none)), vec![0x7f]);
    assert_eq!(key_to_bytes(KeyEvent::new(KeyCode::Esc, none)), vec![0x1b]);
    assert_eq!(key_to_bytes(KeyEvent::new(KeyCode::Up, none)), b"\x1b[A".to_vec());
    assert_eq!(key_to_bytes(KeyEvent::new(KeyCode::Delete, none)), b"\x1b[3~".to_vec());
    assert_eq!(key_to_bytes(KeyEvent::new(KeyCode::F(1), none)), b"\x1bOP".to_vec());
    assert_eq!(key_to_bytes(KeyEvent::new(KeyCode::F(12), none)), b"\x1b[24~".to_vec());
    assert!(key_to_bytes(KeyEvent::new(KeyCode::F(13), none)).is_empty());
    assert!(key_to_bytes(KeyEvent::new(KeyCode::Up, KeyModifiers::alt())).is_empty());
    assert!(key_to_bytes(KeyEvent::new(KeyCode::Char('x'), KeyModifiers::alt())).is_empty());
}

#[test]
fn characters_are_sent_as_utf8() {
    for c in ['a', 'é', '€', '𝄞', '\u{7f}', '\u{80}', '\u{7ff}', '\u{800}', '\u{ffff}', '\u{10000}'] {
        let mut buf = [0u8; 4];
        assert_eq!(encode_utf8(c), c.encode_utf8(&mut buf).as_bytes().to_vec());
        assert_eq!(
            key_to_bytes(KeyEvent::new(KeyCode::Char(c), KeyModifiers::none())),
            c.to_string().into_bytes()
        );
    }
}
