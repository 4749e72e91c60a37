//! What an action of the Docker log viewer does: which change of the
//! viewer's state it asks for, given the viewer's mode and the search text
//! typed so far, and what the status line then says. Reading keys into
//! actions, the log buffer, the stream and the saved searches belong to the
//! viewer itself; this is the decision between them.

use crate::app::input_traits::ListMove;
use crate::text::concat2;
use vstd::prelude::*;

verus! {

/// What the log viewer shows.
#[derive(Debug, Clone, Copy, PartialEq, Eq, Structural)]
pub enum LogViewMode {
    /// The containers to pick from.
    ContainerList,
    /// A container's log, following new lines.
    Streaming,
    /// A container's log, not following.
    Paused,
    /// A search text is typed.
    Searching,
    /// The saved searches.
    SavedSearches,
}

/// An action the viewer reads from a key.
#[derive(Debug, Clone, Copy, PartialEq, Eq, Structural)]
pub enum LogAction {
    /// Nothing.
    NoAction,
    /// The previous row.
    NavigateUp,
    /// The next row.
    NavigateDown,
    /// The first row.
    NavigateFirst,
    /// The last row.
    NavigateLast,
    /// A page up.
    PageUp,
    /// A page down.
    PageDown,
    /// Open the selected row.
    Activate,
    /// Close or go back.
    Close,
    /// Pause or resume following.
    TogglePause,
    /// Start typing a search.
    StartSearch,
    /// Use the typed search.
    ApplySearch,
    /// Drop the typed search.
    CancelSearch,
    /// Type a character into the search.
    InsertChar(char),
    /// Delete the search's last character.
    SearchBackspace,
    /// Empty the log buffer.
    ClearLogs,
    /// Show or hide timestamps.
    ToggleTimestamps,
    /// Show the saved searches.
    ShowSavedSearches,
    /// Save the typed search.
    SaveSearch,
    /// Delete the selected saved search.
    DeleteSavedSearch,
    /// Use the selected saved search.
    ApplySavedSearch,
    /// Show or hide the hotkey overlay.
    ShowHelp,
}

/// Lines a page moves the log by.
pub const LOG_PAGE_LINES: usize = 20;

/// A change of the viewer's state.
#[derive(Debug, Clone, PartialEq, Eq)]
pub enum LogStep {
    /// Nothing changes.
    Nothing,
    /// Move the selection.
    Select(ListMove),
    /// Scroll the log up by `LOG_PAGE_LINES`, pausing it when `pause`.
    ScrollUp {
        /// Stop following (the log was streaming).
        pause: bool,
    },
    /// Scroll the log down by `LOG_PAGE_LINES`, then follow again when
    /// `resume_at_bottom` and the bottom was reached.
    ScrollDown {
        /// Resume following at the bottom (the log was paused).
        resume_at_bottom: bool,
    },
    /// Stream the selected container's log, if one is selected.
    StreamSelected,
    /// Stop the stream and go back to the container list.
    BackToList,
    /// Close the log viewer, back to the Docker manager's lists.
    CloseViewer,
    /// Pause or resume following.
    TogglePause,
    /// Start typing a search.
    EnterSearch,
    /// Leave the search, keeping its text as the filter.
    ExitSearch,
    /// Leave the search, dropping its text.
    CancelSearch,
    /// Type into the search.
    SearchInsert(char),
    /// Delete the search's last character.
    SearchBackspace,
    /// Empty the log buffer.
    ClearBuffer,
    /// Show the saved searches.
    EnterSavedSearches,
    /// Save this search and write the saved searches out.
    SaveSearch(String),
    /// Delete the selected saved search and write them out.
    DeleteSavedSearch,
    /// Filter by the selected saved search and leave the list.
    ApplySavedSearch,
    /// Show or hide the hotkey overlay.
    ToggleHelp,
}

/// What an action does in `mode` with `search` typed so far, and the status
/// line it sets, if any. Opening a row streams a container only from the
/// container list; closing goes back to that list from a log or a search,
/// and closes the viewer from the list or the saved searches; a search is
/// saved only when some text was typed.
pub open spec fn log_step_matches(
    action: LogAction,
    mode: LogViewMode,
    search: Seq<char>,
    r: (LogStep, Option<String>),
) -> bool {
    let (step, status) = r;
    match action {
        LogAction::NoAction => step == LogStep::Nothing && status is None,
        LogAction::NavigateUp => step == LogStep::Select(ListMove::Prev) && status is None,
        LogAction::NavigateDown => step == LogStep::Select(ListMove::Next) && status is None,
        LogAction::NavigateFirst => step == LogStep::Select(ListMove::First) && status is None,
        LogAction::NavigateLast => step == LogStep::Select(ListMove::Last) && status is None,
        LogAction::PageUp => step == (LogStep::ScrollUp { pause: mode == LogViewMode::Streaming })
            && status is None,
        LogAction::PageDown => step == (LogStep::ScrollDown {
            resume_at_bottom: mode == LogViewMode::Paused,
        }) && status is None,
        LogAction::Activate => step == (if mode == LogViewMode::ContainerList {
            LogStep::StreamSelected
        } else {
            LogStep::Nothing
        }) && status is None,
        LogAction::Close => step == (if mode == LogViewMode::Streaming || mode
            == LogViewMode::Paused || mode == LogViewMode::Searching {
            LogStep::BackToList
        } else {
            LogStep::CloseViewer
        }) && status is None,
        LogAction::TogglePause => step == LogStep::TogglePause && status is None,
        LogAction::StartSearch => step == LogStep::EnterSearch && status is None,
        LogAction::ApplySearch => step == LogStep::ExitSearch && status is None,
        LogAction::CancelSearch => step == LogStep::CancelSearch && status is None,
        LogAction::InsertChar(c) => step == LogStep::SearchInsert(c) && status is None,
        LogAction::SearchBackspace => step == LogStep::SearchBackspace && status is None,
        LogAction::ClearLogs => step == LogStep::ClearBuffer && (status matches Some(s) && s@
            == "Logs cleared"@),
        LogAction::ToggleTimestamps => step == LogStep::Nothing && (status matches Some(s) && s@
            == "Timestamps toggled"@),
        LogAction::ShowSavedSearches => step == LogStep::EnterSavedSearches && status is None,
        LogAction::SaveSearch => if search.len() == 0 {
            step == LogStep::Nothing && status is None
        } else {
            (step matches LogStep::SaveSearch(q) && q@ == search) && (status matches Some(s)
                && s@ == "Search saved: "@ + search)
        },
        LogAction::DeleteSavedSearch => step == LogStep::DeleteSavedSearch && status is None,
        LogAction::ApplySavedSearch => step == LogStep::ApplySavedSearch && status is None,
        LogAction::ShowHelp => step == LogStep::ToggleHelp && status is None,
    }
}

/// What an action does in `mode` with `search` typed so far, and the
/// status line it sets.
pub fn docker_logs_step(action: LogAction, mode: LogViewMode, search: &str) -> (r: (
    LogStep,
    Option<String>,
))
    ensures
        log_step_matches(action, mode, search@, r),
{
    match action {
        LogAction::NoAction => (LogStep::Nothing, None),
        LogAction::NavigateUp => (LogStep::Select(ListMove::Prev), None),
        LogAction::NavigateDown => (LogStep::Select(ListMove::Next), None),
        LogAction::NavigateFirst => (LogStep::Select(ListMove::First), None),
        LogAction::NavigateLast => (LogStep::Select(ListMove::Last), None),
        LogAction::PageUp => (LogStep::ScrollUp { pause: mode == LogViewMode::Streaming }, None),
        LogAction::PageDown => (
            LogStep::ScrollDown { resume_at_bottom: mode == LogViewMode::Paused },
            None,
        ),
        LogAction::Activate => {
            if mode == LogViewMode::ContainerList {
                (LogStep::StreamSelected, None)
            } else {
                (LogStep::Nothing, None)
            }
        },
        LogAction::Close => {
            if mode == LogViewMode::Streaming || mode == LogViewMode::Paused || mode
                == LogViewMode::Searching {
                (LogStep::BackToList, None)
            } else {
                (LogStep::CloseViewer, None)
            }
        },
        LogAction::TogglePause => (LogStep::TogglePause, None),
        LogAction::StartSearch => (LogStep::EnterSearch, None),
        LogAction::ApplySearch => (LogStep::ExitSearch, None),
        LogAction::CancelSearch => (LogStep::CancelSearch, None),
        LogAction::InsertChar(c) => (LogStep::SearchInsert(c), None),
        LogAction::SearchBackspace => (LogStep::SearchBackspace, None),
        LogAction::ClearLogs => (LogStep::ClearBuffer, Some("Logs cleared".to_owned())),
        LogAction::ToggleTimestamps => (LogStep::Nothing, Some("Timestamps toggled".to_owned())),
        LogAction::ShowSavedSearches => (LogStep::EnterSavedSearches, None),
        LogAction::SaveSearch => {
            if search.unicode_len() == 0 {
                (LogStep::Nothing, None)
            } else {
                (
                    LogStep::SaveSearch(search.to_owned()),
                    Some(concat2("Search saved: ", search)),
                )
            }
        },
        LogAction::DeleteSavedSearch => (LogStep::DeleteSavedSearch, None),
        LogAction::ApplySavedSearch => (LogStep::ApplySavedSearch, None),
        LogAction::ShowHelp => (LogStep::ToggleHelp, None),
    }
}

/// The status line after deleting a saved search: a note when one was
/// removed, nothing otherwise.
pub fn saved_search_deleted_status(removed: bool) -> (r: Option<String>)
    ensures
        removed ==> (r matches Some(s) && s@ == "Saved search deleted"@),
        !removed ==> r is None,
{
    if removed {
        Some("Saved search deleted".to_owned())
    } else {
        None
    }
}

} // verus!
