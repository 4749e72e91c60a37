use ratterm_core::app::docker_logs_keys::{
    docker_logs_step, saved_search_deleted_status, LogAction, LogStep, LogViewMode,
};
use ratterm_core::app::docker_keys::{
    credentials_key_action, docker_list_key_action, host_selection_key_action, CredentialsAction,
    DockerListAction, DockerSection, HostSelectionAction,
};
use ratterm_core::app::input_traits::ListMove;
use ratterm_core::app::keys::{KeyCode, KeyEvent, KeyModifiers};

fn plain(code: KeyCode) -> KeyEvent {
    KeyEvent::new(code, KeyModifiers::none())
}

fn shift(code: KeyCode) -> KeyEvent {
    KeyEvent::new(code, KeyModifiers::shift())
}

#[test]
fn without_docker_only_the_recovery_keys_work() {
    assert_eq!(docker_list_key_action(plain(KeyCode::Esc), false, false), Some(DockerListAction::Close));
    assert_eq!(
        docker_list_key_action(plain(KeyCode::Char('r')), false, false),
        Some(DockerListAction::CheckAvailability)
    );
    assert_eq!(
        docker_list_key_action(plain(KeyCode::Char('h')), false, false),
        Some(DockerListAction::HostSelection)
    );
    assert_eq!(docker_list_key_action(plain(KeyCode::Enter), false, true), Some(DockerListAction::StartDocker));
    assert_eq!(docker_list_key_action(plain(KeyCode::Enter), false, false), None);
    assert_eq!(docker_list_key_action(plain(KeyCode::Char('j')), false, true), None);
    assert_eq!(docker_list_key_action(plain(KeyCode::Char('d')), false, true), None);
}

#[test]
fn navigation_comes_first_on_the_lists() {
    assert_eq!(
        docker_list_key_action(plain(KeyCode::Char('j')), true, false),
        Some(DockerListAction::Move(ListMove::Next))
    );
    assert_eq!(
        docker_list_key_action(plain(KeyCode::Up), true, false),
        Some(DockerListAction::Move(ListMove::Prev))
    );
    assert_eq!(
        docker_list_key_action(plain(KeyCode::End), true, false),
        Some(DockerListAction::Move(ListMove::Last))
    );
    assert_eq!(docker_list_key_action(plain(KeyCode::Char('?')), true, false), Some(DockerListAction::ToggleHelp));
    assert_eq!(docker_list_key_action(plain(KeyCode::Esc), true, false), Some(DockerListAction::Close));
    assert_eq!(docker_list_key_action(plain(KeyCode::Enter), true, false), Some(DockerListAction::SelectItem));
}

#[test]
fn docker_keys_on_the_lists() {
    assert_eq!(docker_list_key_action(plain(KeyCode::Char('g')), true, false), Some(DockerListAction::First));
    assert_eq!(docker_list_key_action(shift(KeyCode::Char('G')), true, false), Some(DockerListAction::Last));
    assert_eq!(docker_list_key_action(plain(KeyCode::Tab), true, false), Some(DockerListAction::NextSection));
    assert_eq!(docker_list_key_action(shift(KeyCode::BackTab), true, false), Some(DockerListAction::PrevSection));
    assert_eq!(docker_list_key_action(plain(KeyCode::Char('r')), true, false), Some(DockerListAction::Refresh));
    assert_eq!(
        docker_list_key_action(shift(KeyCode::Char('R')), true, false),
        Some(DockerListAction::Section(DockerSection::RunningContainers))
    );
    assert_eq!(
        docker_list_key_action(shift(KeyCode::Char('S')), true, false),
        Some(DockerListAction::Section(DockerSection::StoppedContainers))
    );
    assert_eq!(
        docker_list_key_action(shift(KeyCode::Char('I')), true, false),
        Some(DockerListAction::Section(DockerSection::Images))
    );
    assert_eq!(
        docker_list_key_action(KeyEvent::new(KeyCode::Char('o'), KeyModifiers::control()), true, false),
        Some(DockerListAction::RunOptions)
    );
    assert_eq!(docker_list_key_action(plain(KeyCode::Char('1')), true, false), Some(DockerListAction::QuickConnect(0)));
    assert_eq!(docker_list_key_action(plain(KeyCode::Char('9')), true, false), Some(DockerListAction::QuickConnect(8)));
    assert_eq!(docker_list_key_action(plain(KeyCode::Char('0')), true, false), None);
    assert_eq!(docker_list_key_action(plain(KeyCode::Char('d')), true, false), Some(DockerListAction::Remove));
    assert_eq!(docker_list_key_action(plain(KeyCode::Delete), true, false), Some(DockerListAction::Remove));
    assert_eq!(docker_list_key_action(plain(KeyCode::Char('h')), true, false), Some(DockerListAction::HostSelection));
    assert_eq!(docker_list_key_action(plain(KeyCode::Char('c')), true, false), Some(DockerListAction::CreateContainer));
    assert_eq!(docker_list_key_action(shift(KeyCode::Char('D')), true, false), Some(DockerListAction::HostDebug));
    assert_eq!(docker_list_key_action(plain(KeyCode::Char('x')), true, false), None);
}

#[test]
fn host_selection_keys() {
    assert_eq!(host_selection_key_action(plain(KeyCode::Down)), Some(HostSelectionAction::Next));
    assert_eq!(host_selection_key_action(plain(KeyCode::Char('j'))), Some(HostSelectionAction::Next));
    assert_eq!(host_selection_key_action(plain(KeyCode::Char('k'))), Some(HostSelectionAction::Previous));
    assert_eq!(host_selection_key_action(plain(KeyCode::Esc)), Some(HostSelectionAction::Cancel));
    assert_eq!(host_selection_key_action(plain(KeyCode::Char('l'))), Some(HostSelectionAction::SelectLocal));
    assert_eq!(host_selection_key_action(plain(KeyCode::Enter)), Some(HostSelectionAction::Confirm));
    assert_eq!(host_selection_key_action(shift(KeyCode::Down)), None);
}

#[test]
fn credential_keys() {
    assert_eq!(credentials_key_action(plain(KeyCode::Esc)), Some(CredentialsAction::Cancel));
    assert_eq!(credentials_key_action(plain(KeyCode::Tab)), Some(CredentialsAction::NextField));
    assert_eq!(credentials_key_action(shift(KeyCode::BackTab)), Some(CredentialsAction::PrevField));
    assert_eq!(credentials_key_action(plain(KeyCode::Enter)), Some(CredentialsAction::Submit));
    assert_eq!(credentials_key_action(plain(KeyCode::Backspace)), Some(CredentialsAction::Backspace));
    assert_eq!(credentials_key_action(plain(KeyCode::Char(' '))), Some(CredentialsAction::ToggleSave));
    assert_eq!(credentials_key_action(shift(KeyCode::Char(' '))), Some(CredentialsAction::Insert(' ')));
    assert_eq!(credentials_key_action(plain(KeyCode::Char('a'))), Some(CredentialsAction::Insert('a')));
    assert_eq!(credentials_key_action(shift(KeyCode::Char('A'))), Some(CredentialsAction::Insert('A')));
    assert_eq!(
        credentials_key_action(KeyEvent::new(KeyCode::Char('a'), KeyModifiers::control())),
        None
    );
}

#[test]
fn docker_log_actions_by_mode() {
    use_list_move_check();
    assert_eq!(
        docker_logs_step(LogAction::PageUp, LogViewMode::Streaming, ""),
        (LogStep::ScrollUp { pause: true }, None)
    );
    assert_eq!(
        docker_logs_step(LogAction::PageUp, LogViewMode::Paused, ""),
        (LogStep::ScrollUp { pause: false }, None)
    );
    assert_eq!(
        docker_logs_step(LogAction::PageDown, LogViewMode::Paused, ""),
        (LogStep::ScrollDown { resume_at_bottom: true }, None)
    );
    assert_eq!(
        docker_logs_step(LogAction::Activate, LogViewMode::ContainerList, ""),
        (LogStep::StreamSelected, None)
    );
    assert_eq!(docker_logs_step(LogAction::Activate, LogViewMode::Streaming, ""), (LogStep::Nothing, None));
    assert_eq!(docker_logs_step(LogAction::Close, LogViewMode::Searching, ""), (LogStep::BackToList, None));
    assert_eq!(
        docker_logs_step(LogAction::Close, LogViewMode::SavedSearches, ""),
        (LogStep::CloseViewer, None)
    );
    assert_eq!(
        docker_logs_step(LogAction::ClearLogs, LogViewMode::Paused, ""),
        (LogStep::ClearBuffer, Some("Logs cleared".to_string()))
    );
    assert_eq!(
        docker_logs_step(LogAction::ToggleTimestamps, LogViewMode::Paused, ""),
        (LogStep::Nothing, Some("Timestamps toggled".to_string()))
    );
    assert_eq!(docker_logs_step(LogAction::SaveSearch, LogViewMode::Searching, ""), (LogStep::Nothing, None));
    assert_eq!(
        docker_logs_step(LogAction::SaveSearch, LogViewMode::Searching, "error"),
        (LogStep::SaveSearch("error".to_string()), Some("Search saved: error".to_string()))
    );
    assert_eq!(saved_search_deleted_status(true), Some("Saved search deleted".to_string()));
    assert_eq!(saved_search_deleted_status(false), None);
}

fn use_list_move_check() {
    assert_eq!(
        docker_logs_step(LogAction::NavigateLast, LogViewMode::ContainerList, ""),
        (LogStep::Select(ListMove::Last), None)
    );
}
