//! Opening and closing the SSH health dashboard. Loading the hosts,
//! collecting their metrics and the daemon are the caller's; this decides
//! the screen and what the status line says about the hosts it can watch.

use crate::app::health_dashboard::{
    credentialed_names, hosts_with_credentials, DashboardMode, HealthDashboard, SavedHost,
};
use crate::app::state::{App, AppMode};
use crate::text::{concat2, concat3, dec, u64_to_string};
use vstd::prelude::*;

verus! {

/// What the status line says on opening the dashboard: that there are no
/// hosts, that none has credentials, or how many are watched (out of how
/// many), with the daemon mentioned when it runs.
pub open spec fn health_status(with_credentials: nat, total: nat, daemon_active: bool) -> Seq<
    char,
> {
    let daemon = if daemon_active {
        " (daemon active)"@
    } else {
        Seq::<char>::empty()
    };
    if with_credentials == 0 {
        if total == 0 {
            "SSH Health Dashboard - No hosts configured. Add hosts in SSH Manager."@
        } else {
            "SSH Health Dashboard - "@ + dec(total)
                + " hosts found but NONE have credentials. Save credentials in SSH Manager."@
        }
    } else if with_credentials < total {
        "SSH Health Dashboard - Monitoring "@ + dec(with_credentials) + "/"@ + dec(total)
            + " hosts"@ + daemon
    } else {
        "SSH Health Dashboard - Monitoring "@ + dec(with_credentials) + " hosts"@ + daemon
    }
}

/// The status line on opening the dashboard with `total` hosts, of which
/// `with_credentials` have saved credentials.
pub fn health_dashboard_status(with_credentials: usize, total: usize, daemon_active: bool) -> (r:
    String)
    ensures
        r@ == health_status(with_credentials as nat, total as nat, daemon_active),
{
    let daemon = if daemon_active {
        " (daemon active)"
    } else {
        ""
    };
    proof {
        reveal_strlit("");
        assert(""@ =~= Seq::<char>::empty());
    }
    if with_credentials == 0 {
        if total == 0 {
            "SSH Health Dashboard - No hosts configured. Add hosts in SSH Manager.".to_owned()
        } else {
            let n = u64_to_string(total as u64);
            concat3(
                "SSH Health Dashboard - ",
                n.as_str(),
                " hosts found but NONE have credentials. Save credentials in SSH Manager.",
            )
        }
    } else if with_credentials < total {
        let w = u64_to_string(with_credentials as u64);
        let t = u64_to_string(total as u64);
        let head = concat3("SSH Health Dashboard - Monitoring ", w.as_str(), "/");
        let mid = concat3(head.as_str(), t.as_str(), " hosts");
        concat2(mid.as_str(), daemon)
    } else {
        let w = u64_to_string(with_credentials as u64);
        let head = concat3("SSH Health Dashboard - Monitoring ", w.as_str(), " hosts");
        concat2(head.as_str(), daemon)
    }
}

impl App {
    /// Opens the dashboard over the saved `hosts` once the caller has loaded
    /// them and started the daemon if it could: the dashboard watches the
    /// hosts with saved credentials, any popup closes, the dashboard takes
    /// the keys, and the status line says what is watched.
    pub fn open_health_dashboard(&mut self, hosts: &Vec<SavedHost>, daemon_active: bool)
        ensures
            final(self).status@ == health_status(
                credentialed_names(hosts@).len(),
                hosts@.len(),
                daemon_active,
            ),
            final(self).health_dashboard matches Some(d) && d.host_names() == credentialed_names(
                hosts@,
            ) && d.selection() == 0 && d.mode == DashboardMode::Overview && d.auto_refresh,
            *final(self) == (App {
                health_dashboard: final(self).health_dashboard,
                popup: None,
                mode: AppMode::HealthDashboard,
                status: final(self).status,
                ..*old(self)
            }),
    {
        let watched = hosts_with_credentials(hosts);
        let count = watched.len();
        let dashboard = HealthDashboard::new(watched);
        self.health_dashboard = Some(dashboard);
        self.popup = None;
        self.mode = AppMode::HealthDashboard;
        self.set_status(health_dashboard_status(count, hosts.len(), daemon_active));
    }

    /// Closes the dashboard, back to the normal mode. Stopping the collector
    /// threads and the daemon is the caller's.
    pub fn close_health_dashboard(&mut self)
        ensures
            final(self).status@ == "Dashboard closed"@,
            *final(self) == (App {
                health_dashboard: None,
                popup: None,
                mode: AppMode::Normal,
                status: final(self).status,
                ..*old(self)
            }),
    {
        self.health_dashboard = None;
        self.popup = None;
        self.mode = AppMode::Normal;
        self.set_status("Dashboard closed".to_owned());
    }

    /// Asks for fresh metrics: while the dashboard is open the status line
    /// says so and `true` tells the caller to refresh it; otherwise nothing
    /// happens.
    pub fn refresh_health_dashboard(&mut self) -> (r: bool)
        ensures
            r == old(self).health_dashboard is Some,
            r ==> final(self).status@ == "Refreshing dashboard metrics..."@ && *final(self) == (App {
                status: final(self).status,
                ..*old(self)
            }),
            !r ==> *final(self) == *old(self),
    {
        if self.health_dashboard.is_some() {
            self.set_status("Refreshing dashboard metrics...".to_owned());
            true
        } else {
            false
        }
    }

    /// Switches the dashboard's automatic refresh and says which way it
    /// went; nothing happens while the dashboard is closed.
    pub fn toggle_dashboard_auto_refresh(&mut self)
        ensures
            old(self).health_dashboard matches Some(d) ==> {
                &&& final(self).health_dashboard matches Some(e) && e.auto_refresh
                    == !d.auto_refresh && e.mode == d.mode && e.hosts == d.hosts
                &&& final(self).status@ == (if !d.auto_refresh {
                    "Auto-refresh enabled"@
                } else {
                    "Auto-refresh disabled"@
                })
                &&& *final(self) == (App {
                    status: final(self).status,
                    health_dashboard: final(self).health_dashboard,
                    ..*old(self)
                })
            },
            old(self).health_dashboard is None ==> *final(self) == *old(self),
    {
        match self.health_dashboard.take() {
            Some(mut d) => {
                d.toggle_auto_refresh();
                let enabled = d.auto_refresh();
                self.health_dashboard = Some(d);
                if enabled {
                    self.set_status("Auto-refresh enabled".to_owned());
                } else {
                    self.set_status("Auto-refresh disabled".to_owned());
                }
            },
            None => {},
        }
    }

    /// Returns whether the health dashboard is open.
    pub fn is_health_dashboard_open(&self) -> (r: bool)
        ensures
            r == self.health_dashboard is Some,
    {
        self.health_dashboard.is_some()
    }

    /// The dashboard, while open.
    pub fn health_dashboard(&self) -> (r: Option<&HealthDashboard>)
        ensures
            self.health_dashboard is None ==> r is None,
            self.health_dashboard matches Some(d) ==> r == Some(&d),
    {
        self.health_dashboard.as_ref()
    }
}

} // verus!
