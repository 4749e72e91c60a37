//! Keys on the SSH health dashboard. The overview runs the shared
//! dashboard navigation first (moves, `?`, Escape, Enter), then its own
//! keys; the detail view has a few keys of its own.

use crate::app::dashboard_nav::{nav_result, NavResult};
use crate::app::health_dashboard::{DashboardMode, HealthDashboard};
use crate::app::input_traits::{full_list_move, full_list_navigation_move, moved_selection, ListMove};
use crate::app::keys::{no_mods, KeyCode, KeyEvent};
use crate::app::state::{App, AppMode};
use vstd::prelude::*;

verus! {

/// What a key asks of the health dashboard.
#[derive(Debug, Clone, Copy, PartialEq, Eq, Structural)]
pub enum HealthKeyAction {
    /// Move the host selection.
    Navigate(ListMove),
    /// Show or hide the hotkey overlay.
    ToggleHelp,
    /// Close the dashboard.
    Close,
    /// Show the selected host's details.
    EnterDetail,
    /// Back to the overview.
    ExitDetail,
    /// Collect fresh metrics.
    Refresh,
    /// Switch automatic refresh.
    ToggleAutoRefresh,
}

/// A key in the overview: the navigation layer's reading first (a move,
/// `?` for help, Escape to close, Enter for the details), then `r`, Space
/// and `q`, all with no modifier.
pub open spec fn health_overview_action(key: KeyEvent) -> Option<HealthKeyAction> {
    match nav_result(key) {
        NavResult::Handled => Some(HealthKeyAction::Navigate(full_list_move(key).unwrap())),
        NavResult::ShowHelp => Some(HealthKeyAction::ToggleHelp),
        NavResult::Close => Some(HealthKeyAction::Close),
        NavResult::Activate => Some(HealthKeyAction::EnterDetail),
        NavResult::Unhandled => if no_mods(key.modifiers) && key.code == KeyCode::Char('r') {
            Some(HealthKeyAction::Refresh)
        } else if no_mods(key.modifiers) && key.code == KeyCode::Char(' ') {
            Some(HealthKeyAction::ToggleAutoRefresh)
        } else if no_mods(key.modifiers) && key.code == KeyCode::Char('q') {
            Some(HealthKeyAction::Close)
        } else {
            None
        },
    }
}

/// A key in the detail view, with no modifier: Backspace or Escape back to
/// the overview, `r` to refresh, `q` to close.
pub open spec fn health_detail_action(key: KeyEvent) -> Option<HealthKeyAction> {
    if !no_mods(key.modifiers) {
        None
    } else {
        match key.code {
            KeyCode::Backspace | KeyCode::Esc => Some(HealthKeyAction::ExitDetail),
            KeyCode::Char('r') => Some(HealthKeyAction::Refresh),
            KeyCode::Char('q') => Some(HealthKeyAction::Close),
            _ => None,
        }
    }
}

/// What a key asks of the dashboard in `mode`.
pub open spec fn health_key_action(key: KeyEvent, mode: DashboardMode) -> Option<HealthKeyAction> {
    match mode {
        DashboardMode::Overview => health_overview_action(key),
        DashboardMode::Detail => health_detail_action(key),
    }
}

/// What a key asks of the dashboard in `mode`.
pub fn health_dashboard_key_action(key: &KeyEvent, mode: DashboardMode) -> (r: Option<
    HealthKeyAction,
>)
    ensures
        r == health_key_action(*key, mode),
{
    let plain = key.modifiers.is_empty();
    match mode {
        DashboardMode::Overview => {
            match full_list_navigation_move(key) {
                Some(m) => {
                    return Some(HealthKeyAction::Navigate(m));
                },
                None => {},
            }
            if !plain {
                return None;
            }
            match key.code {
                KeyCode::Char(c) => {
                    if c == '?' {
                        Some(HealthKeyAction::ToggleHelp)
                    } else if c == 'r' {
                        Some(HealthKeyAction::Refresh)
                    } else if c == ' ' {
                        Some(HealthKeyAction::ToggleAutoRefresh)
                    } else if c == 'q' {
                        Some(HealthKeyAction::Close)
                    } else {
                        None
                    }
                },
                KeyCode::Esc => Some(HealthKeyAction::Close),
                KeyCode::Enter => Some(HealthKeyAction::EnterDetail),
                _ => None,
            }
        },
        DashboardMode::Detail => {
            if !plain {
                return None;
            }
            match key.code {
                KeyCode::Backspace | KeyCode::Esc => Some(HealthKeyAction::ExitDetail),
                KeyCode::Char(c) => {
                    if c == 'r' {
                        Some(HealthKeyAction::Refresh)
                    } else if c == 'q' {
                        Some(HealthKeyAction::Close)
                    } else {
                        None
                    }
                },
                _ => None,
            }
        },
    }
}

/// What the caller does after a key on the dashboard.
#[derive(Debug, Clone, Copy, PartialEq, Eq, Structural)]
pub enum HealthKeyEffect {
    /// Nothing more.
    Nothing,
    /// Start collecting fresh metrics.
    RefreshMetrics,
    /// Show or hide the hotkey overlay.
    ToggleHelp,
    /// The dashboard closed: stop its collectors and the daemon.
    Closed,
}

/// The dashboard `e` is `d` after `a` (any action but closing): a move
/// moves the selection, the details show only when there are hosts, and
/// automatic refresh switches; nothing else changes.
pub open spec fn dashboard_after(d: HealthDashboard, e: HealthDashboard, a: HealthKeyAction) -> bool {
    &&& e.host_names() == d.host_names()
    &&& e.selection() == (match a {
        HealthKeyAction::Navigate(m) => moved_selection(
            m,
            d.selection(),
            d.host_names().len() as int,
        ),
        _ => d.selection(),
    })
    &&& e.mode == (match a {
        HealthKeyAction::EnterDetail => if d.host_names().len() > 0 {
            DashboardMode::Detail
        } else {
            d.mode
        },
        HealthKeyAction::ExitDetail => DashboardMode::Overview,
        _ => d.mode,
    })
    &&& e.auto_refresh == (if a == HealthKeyAction::ToggleAutoRefresh {
        !d.auto_refresh
    } else {
        d.auto_refresh
    })
}

/// The status line after `a` on dashboard `d` (any action but closing).
pub open spec fn status_after(d: HealthDashboard, a: HealthKeyAction, status: Seq<char>) -> Seq<
    char,
> {
    match a {
        HealthKeyAction::Refresh => "Refreshing dashboard metrics..."@,
        HealthKeyAction::ToggleAutoRefresh => if !d.auto_refresh {
            "Auto-refresh enabled"@
        } else {
            "Auto-refresh disabled"@
        },
        _ => status,
    }
}

/// What the caller is asked to do after `a`.
pub open spec fn effect_of(a: Option<HealthKeyAction>) -> HealthKeyEffect {
    match a {
        Some(HealthKeyAction::Refresh) => HealthKeyEffect::RefreshMetrics,
        Some(HealthKeyAction::ToggleHelp) => HealthKeyEffect::ToggleHelp,
        Some(HealthKeyAction::Close) => HealthKeyEffect::Closed,
        _ => HealthKeyEffect::Nothing,
    }
}

impl App {
    /// Handles a key while the health dashboard has the keys. With no
    /// dashboard the popup is hidden. Closing leaves the normal mode with
    /// "Dashboard closed"; the other keys change the dashboard as
    /// `dashboard_after` says and the status line as `status_after` says.
    pub fn handle_health_dashboard_key(&mut self, key: KeyEvent) -> (r: HealthKeyEffect)
        ensures
            old(self).health_dashboard is None ==> r == HealthKeyEffect::Nothing && *final(self)
                == (App { popup: None, ..*old(self) }),
            old(self).health_dashboard matches Some(d) ==> {
                let a = health_key_action(key, d.mode);
                &&& r == effect_of(a)
                &&& a is None ==> *final(self) == *old(self)
                &&& a == Some(HealthKeyAction::Close) ==> final(self).status@ == "Dashboard closed"@
                    && *final(self) == (App {
                    health_dashboard: None,
                    popup: None,
                    mode: AppMode::Normal,
                    status: final(self).status,
                    ..*old(self)
                })
                &&& (a is Some && a != Some(HealthKeyAction::Close)) ==> {
                    &&& final(self).health_dashboard matches Some(e) && dashboard_after(
                        d,
                        e,
                        a.unwrap(),
                    )
                    &&& final(self).status@ == status_after(d, a.unwrap(), old(self).status@)
                    &&& *final(self) == (App {
                        health_dashboard: final(self).health_dashboard,
                        status: final(self).status,
                        ..*old(self)
                    })
                }
            },
    {
        let mode = match &self.health_dashboard {
            Some(d) => d.mode(),
            None => {
                self.popup = None;
                return HealthKeyEffect::Nothing;
            },
        };
        let action = health_dashboard_key_action(&key, mode);
        match action {
            None => HealthKeyEffect::Nothing,
            Some(HealthKeyAction::Close) => {
                self.close_health_dashboard();
                HealthKeyEffect::Closed
            },
            Some(HealthKeyAction::ToggleHelp) => HealthKeyEffect::ToggleHelp,
            Some(HealthKeyAction::Refresh) => {
                self.refresh_health_dashboard();
                HealthKeyEffect::RefreshMetrics
            },
            Some(HealthKeyAction::ToggleAutoRefresh) => {
                self.toggle_dashboard_auto_refresh();
                HealthKeyEffect::Nothing
            },
            Some(a) => {
                let mut d = self.health_dashboard.take().unwrap();
                match a {
                    HealthKeyAction::Navigate(m) => d.move_selection(m),
                    HealthKeyAction::EnterDetail => d.enter_detail(),
                    HealthKeyAction::ExitDetail => d.exit_detail(),
                    _ => {},
                }
                self.health_dashboard = Some(d);
                HealthKeyEffect::Nothing
            },
        }
    }
}

} // verus!
