//! Kubernetes operations on the application state.
//!
//! Each operation that talks to the cluster is split in two: the first half
//! decides whether there is anything to ask (and what), recording why not on
//! the screens; the caller asks the cluster; the second half puts the
//! answer on the screens.

use crate::app::input_k8s::K8sView;
use crate::app::k8s::{
    is_fatal, k8s_error_text, listing_kind, listing_len, listing_panel_open,
    next_kind_spec, panel_len, previous_kind_spec, ConnectedCluster, ContextEntry, K8sError,
    K8sManager, Listing, ResourceKind,
};
use crate::app::state::{same_debug, same_files, same_lsp, App};
use crate::text::{concat2, concat3, dec, i64_to_string, signed_dec, u64_to_string};
use vstd::prelude::*;

verus! {

/// A listing to ask the cluster for.
#[derive(Debug, Clone)]
pub struct RefreshRequest {
    /// The kind to list.
    pub kind: ResourceKind,
    /// The namespace, or `None` for all of them.
    pub namespace: Option<String>,
}

/// A namespaced object to act on.
#[derive(Debug, Clone)]
pub struct ObjectRef {
    /// Its namespace.
    pub namespace: String,
    /// Its name.
    pub name: String,
}

/// A deployment to scale, to how many replicas, and the status to show once
/// it is done.
#[derive(Debug, Clone)]
pub struct ScaleRequest {
    /// The deployment.
    pub object: ObjectRef,
    /// The replicas asked for.
    pub replicas: i64,
    /// The status once scaled.
    pub done: String,
}

/// How many replicas a single scale step changes by.
pub const SCALE_STEP: i64 = 1;

/// The replicas one step from `current`: up to at most `max`, or down to no
/// fewer than none.
pub open spec fn scale_target(current: int, up: bool, max: int) -> int {
    if up {
        if current + SCALE_STEP <= max {
            current + SCALE_STEP
        } else {
            max
        }
    } else if current - SCALE_STEP >= 0 {
        current - SCALE_STEP
    } else {
        0
    }
}

/// A kind's name in lower case, as the status line reports a count.
pub open spec fn kind_noun(kind: ResourceKind) -> Seq<char> {
    match kind {
        ResourceKind::Pods => "pods"@,
        ResourceKind::Deployments => "deployments"@,
        ResourceKind::Services => "services"@,
        ResourceKind::Nodes => "nodes"@,
        ResourceKind::Events => "events"@,
    }
}

/// A kind's name in lower case.
fn kind_noun_str(kind: ResourceKind) -> (r: &'static str)
    ensures
        r@ == kind_noun(kind),
{
    match kind {
        ResourceKind::Pods => "pods",
        ResourceKind::Deployments => "deployments",
        ResourceKind::Services => "services",
        ResourceKind::Nodes => "nodes",
        ResourceKind::Events => "events",
    }
}

/// The request the manager's state asks for: its kind and namespace.
pub open spec fn request_for(m: K8sManager, r: RefreshRequest) -> bool {
    r.kind == m.kind && r.namespace == m.namespace
}

/// Everything outside the Kubernetes screens is the same in both states.
pub open spec fn same_outside_k8s(a: App, b: App) -> bool {
    same_files(a, b) && same_lsp(a, b) && same_debug(a, b) && a.layout == b.layout && a.mode
        == b.mode && a.file_browser == b.file_browser && a.popup == b.popup
}

impl App {
    /// Opens the Kubernetes screens over the contexts read from the
    /// kubeconfig, or, when it could not be read, screens that say why.
    pub fn open_k8s_manager(&mut self, loaded: Result<Vec<ContextEntry>, K8sError>)
        ensures
            final(self).k8s_manager is Some,
            final(self).status@ == "Kubernetes"@,
            loaded matches Ok(set) ==> ({
                let m = final(self).k8s_manager.unwrap();
                &&& m.contexts.items_view() == set@
                &&& m.view == K8sView::Contexts
                &&& m.connected is None
                &&& m.error is None
            }),
            loaded matches Err(e) ==> ({
                let m = final(self).k8s_manager.unwrap();
                &&& m.contexts.items_view().len() == 0
                &&& m.error matches Some(t) && t@ == k8s_error_text(e)
                &&& m.connected is None
            }),
            same_outside_k8s(*old(self), *final(self)),
    {
        let manager = match loaded {
            Ok(set) => K8sManager::new(set),
            Err(e) => K8sManager::unavailable(e.message()),
        };
        self.k8s_manager = Some(manager);
        self.set_status("Kubernetes".to_owned());
    }

    /// Closes the Kubernetes screens, dropping the connection they held.
    pub fn close_k8s_manager(&mut self)
        ensures
            final(self).k8s_manager is None,
            final(self).status@ == "Kubernetes closed"@,
            same_outside_k8s(*old(self), *final(self)),
    {
        self.k8s_manager = None;
        self.set_status("Kubernetes closed".to_owned());
    }

    /// True while the Kubernetes screens are open.
    pub fn is_k8s_manager_open(&self) -> (r: bool)
        ensures
            r == self.k8s_manager is Some,
    {
        self.k8s_manager.is_some()
    }

    /// The Kubernetes screens, if open.
    pub fn k8s_manager(&self) -> (r: Option<&K8sManager>)
        ensures
            r == match self.k8s_manager {
                Some(m) => Some(&m),
                None => None::<&K8sManager>,
            },
    {
        match &self.k8s_manager {
            Some(m) => Some(m),
            None => None,
        }
    }

    /// The Kubernetes screens, mutably.
    pub fn k8s_manager_mut(&mut self) -> (r: Option<&mut K8sManager>)
        ensures
            r is Some <==> old(self).k8s_manager is Some,
    {
        self.k8s_manager.as_mut()
    }

    /// The context to connect to: the selected one, when the kubeconfig
    /// defines its cluster. Otherwise the screens say why not and there is
    /// nothing to connect to.
    pub fn k8s_connect_selected(&mut self) -> (r: Option<String>)
        ensures
            old(self).k8s_manager is None ==> r is None && *final(self) == *old(self),
            old(self).k8s_manager matches Some(m) ==> ({
                let ctx = m.contexts.items_view();
                let sel = m.contexts.selected_view();
                let f = final(self).k8s_manager.unwrap();
                &&& final(self).k8s_manager is Some
                &&& ctx.len() == 0 ==> (r is None && (f.error matches Some(t) && t@
                    == "No context selected"@))
                &&& (ctx.len() > 0 && !ctx[sel].cluster_defined) ==> (r is None && (f.error matches Some(
                    t) && t@ == "context '"@ + ctx[sel].name@
                    + "' names a cluster the kubeconfig does not define; fix the clusters entry"@))
                &&& (ctx.len() > 0 && ctx[sel].cluster_defined) ==> (r matches Some(n) && n
                    == ctx[sel].name && f.status@ == "Connecting to "@ + n@ + "..."@)
            }),
            same_outside_k8s(*old(self), *final(self)),
            final(self).status == old(self).status,
    {
        let mut manager = match self.k8s_manager.take() {
            Some(m) => m,
            None => {
                return None;
            },
        };
        let choice = match manager.contexts.selected_item() {
            Some(c) => Some((c.name.clone(), c.cluster_defined)),
            None => None,
        };
        let r = match choice {
            None => {
                manager.error = Some("No context selected".to_owned());
                None
            },
            Some((name, defined)) => {
                if !defined {
                    manager.error = Some(
                        concat3(
                            "context '",
                            name.as_str(),
                            "' names a cluster the kubeconfig does not define; fix the clusters entry",
                        ),
                    );
                    None
                } else {
                    manager.status = concat3("Connecting to ", name.as_str(), "...");
                    Some(name)
                }
            },
        };
        self.k8s_manager = Some(manager);
        r
    }

    /// Puts the connection's outcome on the screens: connected, the
    /// resource screen shows and its listing is asked for; or the error.
    pub fn k8s_connect_finished(&mut self, result: Result<ConnectedCluster, K8sError>) -> (r:
        Option<RefreshRequest>)
        ensures
            old(self).k8s_manager is None ==> r is None && *final(self) == *old(self),
            old(self).k8s_manager is Some ==> final(self).k8s_manager is Some,
            (old(self).k8s_manager is Some && result is Ok) ==> ({
                let f = final(self).k8s_manager.unwrap();
                &&& f.connected == Some(result->Ok_0)
                &&& f.view == K8sView::Resources
                &&& r matches Some(q) && request_for(f, q)
            }),
            (old(self).k8s_manager is Some && result is Err) ==> r is None && (final(
                self).k8s_manager.unwrap().error matches Some(t) && t@ == k8s_error_text(
                result->Err_0,
            )) && final(self).k8s_manager.unwrap().connected == old(
                self).k8s_manager.unwrap().connected,
            same_outside_k8s(*old(self), *final(self)),
            final(self).status == old(self).status,
    {
        let mut manager = match self.k8s_manager.take() {
            Some(m) => m,
            None => {
                return None;
            },
        };
        match result {
            Ok(cluster) => {
                manager.connected = Some(cluster);
                manager.view = K8sView::Resources;
                self.k8s_manager = Some(manager);
                self.k8s_refresh()
            },
            Err(e) => {
                manager.error = Some(e.message());
                self.k8s_manager = Some(manager);
                None
            },
        }
    }

    /// The listing to reload: the current kind in the chosen namespace.
    /// Without a connection the screens say so and there is nothing to ask.
    pub fn k8s_refresh(&mut self) -> (r: Option<RefreshRequest>)
        ensures
            old(self).k8s_manager is None ==> r is None && *final(self) == *old(self),
            old(self).k8s_manager matches Some(m) ==> ({
                let f = final(self).k8s_manager.unwrap();
                &&& final(self).k8s_manager is Some
                &&& m.connected is None ==> (r is None && (f.error matches Some(t) && t@
                    == "Not connected to a cluster"@) && f == (K8sManager { error: f.error, ..m }))
                &&& m.connected is Some ==> (r matches Some(q) && request_for(m, q) && f == m)
            }),
            same_outside_k8s(*old(self), *final(self)),
            final(self).status == old(self).status,
    {
        let mut manager = match self.k8s_manager.take() {
            Some(m) => m,
            None => {
                return None;
            },
        };
        let r = if manager.connected.is_none() {
            manager.error = Some("Not connected to a cluster".to_owned());
            None
        } else {
            let namespace = match &manager.namespace {
                Some(n) => Some(n.clone()),
                None => None,
            };
            Some(RefreshRequest { kind: manager.kind, namespace })
        };
        self.k8s_manager = Some(manager);
        r
    }

    /// Puts a listing's outcome on the screens. A listing fills the panel of
    /// its kind, clears the error and reports the count; an error is shown,
    /// and one that means the cluster is gone also drops the connection.
    pub fn k8s_listing_arrived(&mut self, outcome: Result<Listing, K8sError>)
        ensures
            old(self).k8s_manager is None ==> *final(self) == *old(self),
            old(self).k8s_manager is Some ==> final(self).k8s_manager is Some,
            (old(self).k8s_manager is Some && outcome is Ok) ==> ({
                let l = outcome->Ok_0;
                let f = final(self).k8s_manager.unwrap();
                &&& listing_panel_open(f, listing_kind(l))
                &&& panel_len(f, listing_kind(l)) == listing_len(l)
                &&& f.error is None
                &&& f.status@ == dec(listing_len(l)) + " "@ + kind_noun(listing_kind(l))
                &&& f.connected == old(self).k8s_manager.unwrap().connected
            }),
            (old(self).k8s_manager is Some && outcome is Err) ==> ({
                let e = outcome->Err_0;
                let f = final(self).k8s_manager.unwrap();
                &&& is_fatal_spec(e) ==> f.connected is None && f.view == K8sView::Contexts && (
                f.error matches Some(t) && t@ == "Disconnected: "@ + k8s_error_text(e))
                &&& !is_fatal_spec(e) ==> f.connected == old(self).k8s_manager.unwrap().connected
                    && (f.error matches Some(t) && t@ == k8s_error_text(e))
            }),
            same_outside_k8s(*old(self), *final(self)),
            final(self).status == old(self).status,
    {
        let mut manager = match self.k8s_manager.take() {
            Some(m) => m,
            None => {
                return;
            },
        };
        match outcome {
            Ok(listing) => {
                let count = listing.len();
                let ghost kind = listing_kind(listing);
                let noun = kind_noun_str(listing.kind());
                listing.apply(&mut manager);
                manager.error = None;
                let n = u64_to_string(count as u64);
                manager.status = concat3(n.as_str(), " ", noun);
            },
            Err(e) => {
                let message = e.message();
                if is_fatal(&e) {
                    manager.connected = None;
                    manager.view = K8sView::Contexts;
                    manager.error = Some(concat2("Disconnected: ", message.as_str()));
                } else {
                    manager.error = Some(message);
                }
            },
        }
        self.k8s_manager = Some(manager);
    }

    /// Shows the next resource kind and asks for its listing.
    pub fn k8s_next_kind(&mut self) -> (r: Option<RefreshRequest>)
        ensures
            old(self).k8s_manager is None ==> r is None && *final(self) == *old(self),
            old(self).k8s_manager matches Some(m) ==> ({
                let f = final(self).k8s_manager.unwrap();
                &&& final(self).k8s_manager is Some
                &&& f.kind == next_kind_spec(m.kind)
                &&& m.connected is Some ==> (r matches Some(q) && request_for(f, q))
                &&& m.connected is None ==> r is None
            }),
            same_outside_k8s(*old(self), *final(self)),
            final(self).status == old(self).status,
    {
        let mut manager = match self.k8s_manager.take() {
            Some(m) => m,
            None => {
                return None;
            },
        };
        manager.kind = manager.kind.next();
        self.k8s_manager = Some(manager);
        self.k8s_refresh()
    }

    /// Shows the previous resource kind and asks for its listing.
    pub fn k8s_previous_kind(&mut self) -> (r: Option<RefreshRequest>)
        ensures
            old(self).k8s_manager is None ==> r is None && *final(self) == *old(self),
            old(self).k8s_manager matches Some(m) ==> ({
                let f = final(self).k8s_manager.unwrap();
                &&& final(self).k8s_manager is Some
                &&& f.kind == previous_kind_spec(m.kind)
                &&& m.connected is Some ==> (r matches Some(q) && request_for(f, q))
                &&& m.connected is None ==> r is None
            }),
            same_outside_k8s(*old(self), *final(self)),
            final(self).status == old(self).status,
    {
        let mut manager = match self.k8s_manager.take() {
            Some(m) => m,
            None => {
                return None;
            },
        };
        manager.kind = manager.kind.previous();
        self.k8s_manager = Some(manager);
        self.k8s_refresh()
    }

    /// The deployment to restart: the selected one on the deployments
    /// listing, while connected. Without one the screens say so.
    pub fn k8s_restart_selected(&mut self) -> (r: Option<ObjectRef>)
        ensures
            old(self).k8s_manager is None ==> r is None && *final(self) == *old(self),
            old(self).k8s_manager matches Some(m) ==> ({
                let d = m.deployments.items_view();
                let present = m.kind == ResourceKind::Deployments && d.len() > 0;
                let f = final(self).k8s_manager.unwrap();
                &&& final(self).k8s_manager is Some
                &&& !present ==> (r is None && (f.error matches Some(t) && t@
                    == "Select a deployment to restart"@))
                &&& (present && m.connected is None) ==> r is None && f == m
                &&& (present && m.connected is Some) ==> (r matches Some(o) && o.name == d[m.deployments.selected_view()].name
                    && o.namespace == d[m.deployments.selected_view()].namespace && f == m)
            }),
            same_outside_k8s(*old(self), *final(self)),
            final(self).status == old(self).status,
    {
        let mut manager = match self.k8s_manager.take() {
            Some(m) => m,
            None => {
                return None;
            },
        };
        let target = if manager.kind == ResourceKind::Deployments {
            match manager.deployments.selected_item() {
                Some(d) => Some(ObjectRef { namespace: d.namespace.clone(), name: d.name.clone() }),
                None => None,
            }
        } else {
            None
        };
        let r = match target {
            None => {
                manager.error = Some("Select a deployment to restart".to_owned());
                None
            },
            Some(o) => {
                if manager.connected.is_some() {
                    Some(o)
                } else {
                    None
                }
            },
        };
        self.k8s_manager = Some(manager);
        r
    }

    /// The scaling of the selected deployment one step up or down, capped at
    /// `max_replicas` (the API layer's limit) and at none: the selected one on
    /// the deployments listing, while connected. A deployment already at the
    /// bound is reported on the status line; without one the screens say so.
    pub fn k8s_scale_selected(&mut self, up: bool, max_replicas: i64) -> (r: Option<ScaleRequest>)
        requires
            max_replicas >= 0,
        ensures
            old(self).k8s_manager is None ==> r is None && *final(self) == *old(self),
            old(self).k8s_manager matches Some(m) ==> ({
                let d = m.deployments.items_view();
                let present = m.kind == ResourceKind::Deployments && d.len() > 0;
                let sel = d[m.deployments.selected_view()];
                let target = scale_target(sel.desired as int, up, max_replicas as int);
                let f = final(self).k8s_manager.unwrap();
                &&& final(self).k8s_manager is Some
                &&& !present ==> (r is None && (f.error matches Some(t) && t@
                    == "Select a deployment to scale"@) && f == K8sManager { error: f.error, ..m })
                &&& (present && target == sel.desired) ==> (r is None && f.status@ == sel.name@
                    + " is already at "@ + signed_dec(sel.desired as int) && f == K8sManager {
                    status: f.status,
                    ..m
                })
                &&& (present && target != sel.desired && m.connected is None) ==> r is None && f == m
                &&& (present && target != sel.desired && m.connected is Some) ==> (r matches Some(q)
                    && q.object.name == sel.name && q.object.namespace == sel.namespace && q.replicas
                    == target && q.done@ == "Scaled "@ + sel.name@ + " to "@ + signed_dec(target)
                    && f == m)
            }),
            same_outside_k8s(*old(self), *final(self)),
            final(self).status == old(self).status,
    {
        let mut manager = match self.k8s_manager.take() {
            Some(m) => m,
            None => {
                return None;
            },
        };
        let selected = if manager.kind == ResourceKind::Deployments {
            match manager.deployments.selected_item() {
                Some(d) => Some((d.name.clone(), d.namespace.clone(), d.desired)),
                None => None,
            }
        } else {
            None
        };
        let r = match selected {
            None => {
                manager.error = Some("Select a deployment to scale".to_owned());
                None
            },
            Some((name, namespace, desired)) => {
                let current = desired as i64;
                let target: i64 = if up {
                    if current + SCALE_STEP <= max_replicas {
                        current + SCALE_STEP
                    } else {
                        max_replicas
                    }
                } else if current - SCALE_STEP >= 0 {
                    current - SCALE_STEP
                } else {
                    0
                };
                if target == current {
                    let n = i64_to_string(current);
                    manager.status = concat3(name.as_str(), " is already at ", n.as_str());
                    None
                } else if manager.connected.is_some() {
                    let t = i64_to_string(target);
                    let head = concat3("Scaled ", name.as_str(), " to ");
                    let done = concat2(head.as_str(), t.as_str());
                    Some(ScaleRequest { object: ObjectRef { namespace, name }, replicas: target, done })
                } else {
                    None
                }
            },
        };
        self.k8s_manager = Some(manager);
        r
    }

    /// The pod to delete: the selected one on the pods listing, while
    /// connected. Without one the screens say so.
    pub fn k8s_delete_selected_pod(&mut self) -> (r: Option<ObjectRef>)
        ensures
            old(self).k8s_manager is None ==> r is None && *final(self) == *old(self),
            old(self).k8s_manager matches Some(m) ==> ({
                let p = m.pods.items_view();
                let present = m.kind == ResourceKind::Pods && p.len() > 0;
                let f = final(self).k8s_manager.unwrap();
                &&& final(self).k8s_manager is Some
                &&& !present ==> (r is None && (f.error matches Some(t) && t@ == "Select a pod to delete"@))
                &&& (present && m.connected is None) ==> r is None && f == m
                &&& (present && m.connected is Some) ==> (r matches Some(o) && o.name == p[m.pods.selected_view()].name
                    && o.namespace == p[m.pods.selected_view()].namespace && f == m)
            }),
            same_outside_k8s(*old(self), *final(self)),
            final(self).status == old(self).status,
    {
        let mut manager = match self.k8s_manager.take() {
            Some(m) => m,
            None => {
                return None;
            },
        };
        let target = if manager.kind == ResourceKind::Pods {
            match manager.pods.selected_item() {
                Some(p) => Some(ObjectRef { namespace: p.namespace.clone(), name: p.name.clone() }),
                None => None,
            }
        } else {
            None
        };
        let r = match target {
            None => {
                manager.error = Some("Select a pod to delete".to_owned());
                None
            },
            Some(o) => {
                if manager.connected.is_some() {
                    Some(o)
                } else {
                    None
                }
            },
        };
        self.k8s_manager = Some(manager);
        r
    }

    /// Puts the outcome of a cluster action on the screens: on success the
    /// error clears, `done` is the status and the listing is asked for
    /// again; otherwise the error shows.
    pub fn k8s_action_finished(&mut self, result: Result<(), K8sError>, done: String) -> (r:
        Option<RefreshRequest>)
        ensures
            old(self).k8s_manager is None ==> r is None && *final(self) == *old(self),
            old(self).k8s_manager is Some ==> final(self).k8s_manager is Some,
            (old(self).k8s_manager is Some && result is Ok) ==> ({
                let m = old(self).k8s_manager.unwrap();
                let f = final(self).k8s_manager.unwrap();
                &&& f.status == done
                &&& m.connected is Some ==> (f.error is None && (r matches Some(q) && request_for(f, q)))
                &&& m.connected is None ==> r is None
            }),
            (old(self).k8s_manager is Some && result is Err) ==> r is None && (final(
                self).k8s_manager.unwrap().error matches Some(t) && t@ == k8s_error_text(
                result->Err_0,
            )),
            same_outside_k8s(*old(self), *final(self)),
            final(self).status == old(self).status,
    {
        let mut manager = match self.k8s_manager.take() {
            Some(m) => m,
            None => {
                return None;
            },
        };
        match result {
            Ok(()) => {
                manager.error = None;
                manager.status = done;
                self.k8s_manager = Some(manager);
                self.k8s_refresh()
            },
            Err(e) => {
                manager.error = Some(e.message());
                self.k8s_manager = Some(manager);
                None
            },
        }
    }

    /// Returns to the context list, keeping the connection.
    pub fn k8s_show_contexts(&mut self)
        ensures
            old(self).k8s_manager is None ==> *final(self) == *old(self),
            old(self).k8s_manager matches Some(m) ==> final(self).k8s_manager == Some(
                K8sManager { view: K8sView::Contexts, ..m },
            ),
            same_outside_k8s(*old(self), *final(self)),
            final(self).status == old(self).status,
    {
        match self.k8s_manager.take() {
            Some(mut m) => {
                m.view = K8sView::Contexts;
                self.k8s_manager = Some(m);
            },
            None => {},
        }
    }

    /// Returns to the resource list, which needs a connection.
    pub fn k8s_show_resources(&mut self)
        ensures
            old(self).k8s_manager is None ==> *final(self) == *old(self),
            old(self).k8s_manager matches Some(m) ==> (m.connected is Some ==> final(
                self).k8s_manager == Some(K8sManager { view: K8sView::Resources, ..m })) && (
            m.connected is None ==> (final(self).k8s_manager matches Some(f) && f.view == m.view
                && (f.error matches Some(t) && t@ == "Connect to a context first"@))),
            same_outside_k8s(*old(self), *final(self)),
            final(self).status == old(self).status,
    {
        match self.k8s_manager.take() {
            Some(mut m) => {
                if m.connected.is_some() {
                    m.view = K8sView::Resources;
                } else {
                    m.error = Some("Connect to a context first".to_owned());
                }
                self.k8s_manager = Some(m);
            },
            None => {},
        }
    }

    /// True while the context list shows.
    pub fn k8s_is_choosing_context(&self) -> (r: bool)
        ensures
            r == (self.k8s_manager matches Some(m) && m.view == K8sView::Contexts),
    {
        match &self.k8s_manager {
            Some(m) => m.view == K8sView::Contexts,
            None => false,
        }
    }
}

/// `is_fatal`, in specifications.
pub open spec fn is_fatal_spec(e: K8sError) -> bool {
    crate::app::k8s::fatal(e)
}

} // verus!
