//! What the key handling reads of the SSH health dashboard: the hosts it
//! watches (those with saved credentials) with one selected, whether it
//! shows the overview or one host's details, and whether it refreshes on
//! its own. The metrics and the collector threads are the caller's.

use crate::app::input_traits::{moved_selection, ListMove, ListSelectable};
use crate::app::panel::ListPanel;
use vstd::prelude::*;

verus! {

/// Which view of the dashboard is showing.
#[derive(Debug, Clone, Copy, PartialEq, Eq, Structural)]
pub enum DashboardMode {
    /// Every host, one row each.
    Overview,
    /// The selected host's details.
    Detail,
}

/// The SSH health dashboard's screen state.
#[derive(Debug)]
pub struct HealthDashboard {
    /// The watched hosts, by name, with the selected one.
    pub hosts: ListPanel<String>,
    /// The view showing.
    pub mode: DashboardMode,
    /// Whether metrics refresh on their own.
    pub auto_refresh: bool,
}

/// A saved SSH host as the dashboard reads it: its name, and whether
/// credentials are saved for it.
#[derive(Debug, Clone)]
pub struct SavedHost {
    /// The host's name.
    pub name: String,
    /// Credentials are saved for it.
    pub has_credentials: bool,
}

/// The names of the hosts with saved credentials, in order: the only hosts
/// the dashboard can watch, since connecting needs them.
pub open spec fn credentialed_names(hosts: Seq<SavedHost>) -> Seq<String>
    decreases hosts.len(),
{
    if hosts.len() == 0 {
        Seq::empty()
    } else {
        let rest = credentialed_names(hosts.drop_last());
        if hosts.last().has_credentials {
            rest.push(hosts.last().name)
        } else {
            rest
        }
    }
}

/// The names of the hosts with saved credentials, in order.
pub fn hosts_with_credentials(hosts: &Vec<SavedHost>) -> (r: Vec<String>)
    ensures
        r@ == credentialed_names(hosts@),
        r@.len() <= hosts@.len(),
{
    let mut r: Vec<String> = Vec::new();
    let mut i: usize = 0;
    while i < hosts.len()
        invariant
            i <= hosts@.len(),
            r@ == credentialed_names(hosts@.take(i as int)),
            r@.len() <= i,
        decreases hosts@.len() - i,
    {
        assert(hosts@.take(i + 1).drop_last() =~= hosts@.take(i as int));
        if hosts[i].has_credentials {
            r.push(hosts[i].name.clone());
        }
        i = i + 1;
    }
    assert(hosts@.take(hosts@.len() as int) =~= hosts@);
    r
}

impl HealthDashboard {
    /// The names of the watched hosts.
    pub open spec fn host_names(&self) -> Seq<String> {
        self.hosts.items_view()
    }

    /// The selected host's row.
    pub open spec fn selection(&self) -> int {
        self.hosts.selected_view()
    }

    /// A dashboard over `hosts` (the hosts with saved credentials): the
    /// overview, the first host selected, refreshing on its own.
    pub fn new(hosts: Vec<String>) -> (r: Self)
        ensures
            r.host_names() == hosts@,
            r.selection() == 0,
            r.mode == DashboardMode::Overview,
            r.auto_refresh,
    {
        let mut panel = ListPanel::new();
        panel.open(hosts);
        HealthDashboard { hosts: panel, mode: DashboardMode::Overview, auto_refresh: true }
    }

    /// The view showing.
    pub fn mode(&self) -> (r: DashboardMode)
        ensures
            r == self.mode,
    {
        self.mode
    }

    /// The number of watched hosts.
    pub fn host_count(&self) -> (r: usize)
        ensures
            r == self.host_names().len(),
    {
        self.hosts.len()
    }

    /// The selected host's row.
    pub fn selected_index(&self) -> (r: usize)
        ensures
            r == self.selection(),
    {
        self.hosts.selected()
    }

    /// Whether metrics refresh on their own.
    pub fn auto_refresh(&self) -> (r: bool)
        ensures
            r == self.auto_refresh,
    {
        self.auto_refresh
    }

    /// Switches automatic refresh on or off.
    pub fn toggle_auto_refresh(&mut self)
        ensures
            final(self).auto_refresh == !old(self).auto_refresh,
            final(self).mode == old(self).mode,
            final(self).hosts == old(self).hosts,
    {
        self.auto_refresh = !self.auto_refresh;
    }

    /// Switches between the overview and the details.
    pub fn toggle_mode(&mut self)
        ensures
            final(self).mode == (if old(self).mode == DashboardMode::Overview {
                DashboardMode::Detail
            } else {
                DashboardMode::Overview
            }),
            final(self).auto_refresh == old(self).auto_refresh,
            final(self).hosts == old(self).hosts,
    {
        self.mode = match self.mode {
            DashboardMode::Overview => DashboardMode::Detail,
            DashboardMode::Detail => DashboardMode::Overview,
        };
    }

    /// Shows the selected host's details; with no hosts nothing changes.
    pub fn enter_detail(&mut self)
        ensures
            final(self).mode == (if old(self).host_names().len() > 0 {
                DashboardMode::Detail
            } else {
                old(self).mode
            }),
            final(self).auto_refresh == old(self).auto_refresh,
            final(self).hosts == old(self).hosts,
    {
        if self.hosts.len() > 0 {
            self.mode = DashboardMode::Detail;
        }
    }

    /// Back to the overview.
    pub fn exit_detail(&mut self)
        ensures
            final(self).mode == DashboardMode::Overview,
            final(self).auto_refresh == old(self).auto_refresh,
            final(self).hosts == old(self).hosts,
    {
        self.mode = DashboardMode::Overview;
    }

    /// Moves the selection.
    pub fn move_selection(&mut self, m: ListMove)
        ensures
            final(self).selection() == moved_selection(
                m,
                old(self).selection(),
                old(self).host_names().len() as int,
            ),
            final(self).host_names() == old(self).host_names(),
            final(self).mode == old(self).mode,
            final(self).auto_refresh == old(self).auto_refresh,
    {
        match m {
            ListMove::Prev => self.hosts.up(),
            ListMove::Next => self.hosts.down(),
            ListMove::First => self.hosts.select(0),
            ListMove::Last => {
                let n = self.hosts.len();
                if n > 0 {
                    self.hosts.select(n - 1);
                } else {
                    self.hosts.select(0);
                }
            },
        }
    }
}

impl ListSelectable for HealthDashboard {
    open spec fn moved_by(&self, m: ListMove, after: Self) -> bool {
        &&& after.host_names() == self.host_names()
        &&& after.selection() == moved_selection(
            m,
            self.selection(),
            self.host_names().len() as int,
        )
        &&& after.mode == self.mode
        &&& after.auto_refresh == self.auto_refresh
    }

    fn select_prev(&mut self) {
        self.move_selection(ListMove::Prev);
    }

    fn select_next(&mut self) {
        self.move_selection(ListMove::Next);
    }

    fn select_first(&mut self) {
        self.move_selection(ListMove::First);
    }

    fn select_last(&mut self) {
        self.move_selection(ListMove::Last);
    }
}

} // verus!
