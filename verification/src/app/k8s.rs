//! The Kubernetes screens' state: the contexts of the kubeconfig, the
//! cluster connected to, and one panel per resource kind. Talking to the
//! cluster is done around it; this is what the answers are put into.

use crate::app::input_k8s::K8sView;
use crate::app::panel::ListPanel;
use crate::text::concat2;
use vstd::prelude::*;

verus! {

/// Why a cluster operation failed.
#[derive(Debug, Clone)]
pub enum K8sError {
    /// The API server could not be reached.
    Unreachable {
        /// The context.
        context: String,
        /// What went wrong.
        reason: String,
    },
    /// The SSH tunnel to the cluster failed.
    SshTunnel {
        /// The SSH host.
        host: String,
        /// What went wrong.
        reason: String,
    },
    /// There is no kubeconfig.
    NoKubeconfig,
    /// The kubeconfig has no such context.
    UnknownContext(String),
    /// The cluster answered the request with an error (a missing object, a
    /// refused permission).
    Request(String),
}

/// The error means the cluster cannot be reached at all.
pub open spec fn fatal(error: K8sError) -> bool {
    error is Unreachable || error is SshTunnel || error is NoKubeconfig
}

/// The error's text.
pub open spec fn k8s_error_text(error: K8sError) -> Seq<char> {
    match error {
        K8sError::Unreachable { context, reason } => "cluster '"@ + context@ + "' unreachable: "@
            + reason@,
        K8sError::SshTunnel { host, reason } => "SSH tunnel to "@ + host@ + " failed: "@ + reason@,
        K8sError::NoKubeconfig => "no kubeconfig found"@,
        K8sError::UnknownContext(name) => "unknown context '"@ + name@ + "'"@,
        K8sError::Request(message) => message@,
    }
}

impl K8sError {
    /// The error's text.
    pub fn message(&self) -> (r: String)
        ensures
            r@ == k8s_error_text(*self),
    {
        match self {
            K8sError::Unreachable { context, reason } => {
                let head = crate::text::concat3("cluster '", context.as_str(), "' unreachable: ");
                concat2(head.as_str(), reason.as_str())
            },
            K8sError::SshTunnel { host, reason } => {
                let head = crate::text::concat3("SSH tunnel to ", host.as_str(), " failed: ");
                concat2(head.as_str(), reason.as_str())
            },
            K8sError::NoKubeconfig => "no kubeconfig found".to_owned(),
            K8sError::UnknownContext(name) => crate::text::concat3(
                "unknown context '",
                name.as_str(),
                "'",
            ),
            K8sError::Request(message) => message.clone(),
        }
    }
}

/// True when the error means the cluster could not be reached at all: a
/// listing that failed for a permission is worth staying connected for,
/// one that failed because the API server is gone is not.
pub fn is_fatal(error: &K8sError) -> (r: bool)
    ensures
        r == fatal(*error),
{
    match error {
        K8sError::Unreachable { .. } | K8sError::SshTunnel { .. } | K8sError::NoKubeconfig => true,
        _ => false,
    }
}

/// The resource kinds the screens list, in the order Tab cycles them.
#[derive(Debug, Clone, Copy, PartialEq, Eq, Structural)]
pub enum ResourceKind {
    /// Pods.
    Pods,
    /// Deployments.
    Deployments,
    /// Services.
    Services,
    /// Nodes.
    Nodes,
    /// Events.
    Events,
}

/// A kind's name.
pub open spec fn kind_label(kind: ResourceKind) -> Seq<char> {
    match kind {
        ResourceKind::Pods => "Pods"@,
        ResourceKind::Deployments => "Deployments"@,
        ResourceKind::Services => "Services"@,
        ResourceKind::Nodes => "Nodes"@,
        ResourceKind::Events => "Events"@,
    }
}

/// The kind after `kind`, wrapping around.
pub open spec fn next_kind_spec(kind: ResourceKind) -> ResourceKind {
    match kind {
        ResourceKind::Pods => ResourceKind::Deployments,
        ResourceKind::Deployments => ResourceKind::Services,
        ResourceKind::Services => ResourceKind::Nodes,
        ResourceKind::Nodes => ResourceKind::Events,
        ResourceKind::Events => ResourceKind::Pods,
    }
}

/// The kind before `kind`, wrapping around.
pub open spec fn previous_kind_spec(kind: ResourceKind) -> ResourceKind {
    match kind {
        ResourceKind::Pods => ResourceKind::Events,
        ResourceKind::Deployments => ResourceKind::Pods,
        ResourceKind::Services => ResourceKind::Deployments,
        ResourceKind::Nodes => ResourceKind::Services,
        ResourceKind::Events => ResourceKind::Nodes,
    }
}

impl ResourceKind {
    /// The kind's name.
    pub fn label(&self) -> (r: &'static str)
        ensures
            r@ == kind_label(*self),
    {
        match self {
            ResourceKind::Pods => "Pods",
            ResourceKind::Deployments => "Deployments",
            ResourceKind::Services => "Services",
            ResourceKind::Nodes => "Nodes",
            ResourceKind::Events => "Events",
        }
    }

    /// The kind after this one, wrapping around.
    pub fn next(&self) -> (r: ResourceKind)
        ensures
            r == next_kind_spec(*self),
    {
        match self {
            ResourceKind::Pods => ResourceKind::Deployments,
            ResourceKind::Deployments => ResourceKind::Services,
            ResourceKind::Services => ResourceKind::Nodes,
            ResourceKind::Nodes => ResourceKind::Events,
            ResourceKind::Events => ResourceKind::Pods,
        }
    }

    /// The kind before this one, wrapping around.
    pub fn previous(&self) -> (r: ResourceKind)
        ensures
            r == previous_kind_spec(*self),
    {
        match self {
            ResourceKind::Pods => ResourceKind::Events,
            ResourceKind::Deployments => ResourceKind::Pods,
            ResourceKind::Services => ResourceKind::Deployments,
            ResourceKind::Nodes => ResourceKind::Services,
            ResourceKind::Events => ResourceKind::Nodes,
        }
    }
}

/// Going to the next kind and back returns to the same kind, and five
/// steps go all the way round.
pub proof fn lemma_kinds_cycle(kind: ResourceKind)
    ensures
        previous_kind_spec(next_kind_spec(kind)) == kind,
        next_kind_spec(previous_kind_spec(kind)) == kind,
        next_kind_spec(next_kind_spec(next_kind_spec(next_kind_spec(next_kind_spec(kind)))))
            == kind,
{
}

/// A context of the kubeconfig.
#[derive(Debug, Clone)]
pub struct ContextEntry {
    /// Its name.
    pub name: String,
    /// Whether the kubeconfig defines the cluster it names.
    pub cluster_defined: bool,
}

/// A pod row.
#[derive(Debug, Clone)]
pub struct PodView {
    /// Name.
    pub name: String,
    /// Namespace.
    pub namespace: String,
}

/// A deployment row.
#[derive(Debug, Clone)]
pub struct DeploymentView {
    /// Name.
    pub name: String,
    /// Namespace.
    pub namespace: String,
    /// Replicas asked for.
    pub desired: i32,
}

/// A service row.
#[derive(Debug, Clone)]
pub struct ServiceView {
    /// Name.
    pub name: String,
    /// Namespace.
    pub namespace: String,
}

/// A node row.
#[derive(Debug, Clone)]
pub struct NodeView {
    /// Name.
    pub name: String,
}

/// An event row.
#[derive(Debug, Clone)]
pub struct EventView {
    /// Namespace.
    pub namespace: String,
    /// What happened.
    pub message: String,
}

/// The cluster connected to.
#[derive(Debug, Clone)]
pub struct ConnectedCluster {
    /// The context used.
    pub context: String,
    /// Its namespaces.
    pub namespaces: Vec<String>,
}

/// One listing, of one kind.
#[derive(Debug)]
pub enum Listing {
    /// Pods.
    Pods(Vec<PodView>),
    /// Deployments.
    Deployments(Vec<DeploymentView>),
    /// Services.
    Services(Vec<ServiceView>),
    /// Nodes.
    Nodes(Vec<NodeView>),
    /// Events.
    Events(Vec<EventView>),
}

/// How many rows a listing holds.
pub open spec fn listing_len(l: Listing) -> nat {
    match l {
        Listing::Pods(v) => v@.len(),
        Listing::Deployments(v) => v@.len(),
        Listing::Services(v) => v@.len(),
        Listing::Nodes(v) => v@.len(),
        Listing::Events(v) => v@.len(),
    }
}

/// The kind of a listing.
pub open spec fn listing_kind(l: Listing) -> ResourceKind {
    match l {
        Listing::Pods(_) => ResourceKind::Pods,
        Listing::Deployments(_) => ResourceKind::Deployments,
        Listing::Services(_) => ResourceKind::Services,
        Listing::Nodes(_) => ResourceKind::Nodes,
        Listing::Events(_) => ResourceKind::Events,
    }
}

impl Listing {
    /// How many were listed.
    pub fn len(&self) -> (r: usize)
        ensures
            r == listing_len(*self),
    {
        match self {
            Listing::Pods(items) => items.len(),
            Listing::Deployments(items) => items.len(),
            Listing::Services(items) => items.len(),
            Listing::Nodes(items) => items.len(),
            Listing::Events(items) => items.len(),
        }
    }

    /// The kind listed.
    pub fn kind(&self) -> (r: ResourceKind)
        ensures
            r == listing_kind(*self),
    {
        match self {
            Listing::Pods(_) => ResourceKind::Pods,
            Listing::Deployments(_) => ResourceKind::Deployments,
            Listing::Services(_) => ResourceKind::Services,
            Listing::Nodes(_) => ResourceKind::Nodes,
            Listing::Events(_) => ResourceKind::Events,
        }
    }

    /// Puts the listing into the manager's panel of its kind, leaving the
    /// other panels as they were.
    pub fn apply(self, manager: &mut K8sManager)
        ensures
            listing_panel_open(*final(manager), listing_kind(self)),
            panel_len(*final(manager), listing_kind(self)) == listing_len(self),
            forall|k: ResourceKind|
                k != listing_kind(self) ==> #[trigger] panel_state(*final(manager), k)
                    == panel_state(*old(manager), k),
            same_screen(*old(manager), *final(manager)),
    {
        match self {
            Listing::Pods(items) => manager.set_pods(items),
            Listing::Deployments(items) => manager.set_deployments(items),
            Listing::Services(items) => manager.set_services(items),
            Listing::Nodes(items) => manager.set_nodes(items),
            Listing::Events(items) => manager.set_events(items),
        }
    }
}

/// The Kubernetes screens.
#[derive(Debug)]
pub struct K8sManager {
    /// The kubeconfig's contexts.
    pub contexts: ListPanel<ContextEntry>,
    /// Which screen shows.
    pub view: K8sView,
    /// The kind listed on the resource screen.
    pub kind: ResourceKind,
    /// Pods.
    pub pods: ListPanel<PodView>,
    /// Deployments.
    pub deployments: ListPanel<DeploymentView>,
    /// Services.
    pub services: ListPanel<ServiceView>,
    /// Nodes.
    pub nodes: ListPanel<NodeView>,
    /// Events.
    pub events: ListPanel<EventView>,
    /// The cluster connected to.
    pub connected: Option<ConnectedCluster>,
    /// The namespace chosen, if any (all namespaces otherwise).
    pub namespace: Option<String>,
    /// The filter typed.
    pub filter: String,
    /// A filter is being typed.
    pub filtering: bool,
    /// The error shown, if any.
    pub error: Option<String>,
    /// The status line.
    pub status: String,
}

/// Whether the panel of kind `k` shows, and its row count.
pub open spec fn panel_state(m: K8sManager, k: ResourceKind) -> (bool, nat, int) {
    match k {
        ResourceKind::Pods => (
            m.pods.open_view(),
            m.pods.items_view().len(),
            m.pods.selected_view(),
        ),
        ResourceKind::Deployments => (
            m.deployments.open_view(),
            m.deployments.items_view().len(),
            m.deployments.selected_view(),
        ),
        ResourceKind::Services => (
            m.services.open_view(),
            m.services.items_view().len(),
            m.services.selected_view(),
        ),
        ResourceKind::Nodes => (
            m.nodes.open_view(),
            m.nodes.items_view().len(),
            m.nodes.selected_view(),
        ),
        ResourceKind::Events => (
            m.events.open_view(),
            m.events.items_view().len(),
            m.events.selected_view(),
        ),
    }
}

/// The panel of kind `k` shows.
pub open spec fn listing_panel_open(m: K8sManager, k: ResourceKind) -> bool {
    panel_state(m, k).0
}

/// The panel of kind `k` has this many rows.
pub open spec fn panel_len(m: K8sManager, k: ResourceKind) -> nat {
    panel_state(m, k).1
}

/// Screen, kind, connection, namespace, filter, error and status are the
/// same in both.
pub open spec fn same_screen(a: K8sManager, b: K8sManager) -> bool {
    &&& a.contexts == b.contexts
    &&& a.view == b.view
    &&& a.kind == b.kind
    &&& a.connected == b.connected
    &&& a.namespace == b.namespace
    &&& a.filter == b.filter
    &&& a.filtering == b.filtering
    &&& a.error == b.error
    &&& a.status == b.status
}

impl K8sManager {
    /// The screens for the given contexts: the context list shows, nothing
    /// is connected.
    pub fn new(contexts: Vec<ContextEntry>) -> (r: Self)
        ensures
            r.contexts.open_view(),
            r.contexts.items_view() == contexts@,
            r.view == K8sView::Contexts,
            r.kind == ResourceKind::Pods,
            r.connected is None,
            r.error is None,
            !r.filtering,
            forall|k: ResourceKind| !listing_panel_open(r, k),
    {
        let mut panel = ListPanel::new();
        panel.open(contexts);
        K8sManager {
            contexts: panel,
            view: K8sView::Contexts,
            kind: ResourceKind::Pods,
            pods: ListPanel::new(),
            deployments: ListPanel::new(),
            services: ListPanel::new(),
            nodes: ListPanel::new(),
            events: ListPanel::new(),
            connected: None,
            namespace: None,
            filter: String::new(),
            filtering: false,
            error: None,
            status: String::new(),
        }
    }

    /// Screens that can only say why Kubernetes is unavailable.
    pub fn unavailable(reason: String) -> (r: Self)
        ensures
            r.contexts.items_view().len() == 0,
            r.error == Some(reason),
            r.connected is None,
            r.view == K8sView::Contexts,
    {
        let mut m = K8sManager::new(Vec::new());
        m.error = Some(reason);
        m
    }

    /// The pods panel.
    pub fn pods(&self) -> (r: &ListPanel<PodView>)
        ensures
            *r == self.pods,
    {
        &self.pods
    }

    /// The nodes panel.
    pub fn nodes(&self) -> (r: &ListPanel<NodeView>)
        ensures
            *r == self.nodes,
    {
        &self.nodes
    }

    /// Shows a listing of pods.
    pub fn set_pods(&mut self, items: Vec<PodView>)
        ensures
            final(self).pods.open_view(),
            final(self).pods.items_view() == items@,
            final(self).pods.selected_view() == 0,
            *final(self) == (K8sManager { pods: final(self).pods, ..*old(self) }),
    {
        self.pods.open(items);
    }

    /// Shows a listing of deployments.
    pub fn set_deployments(&mut self, items: Vec<DeploymentView>)
        ensures
            final(self).deployments.open_view(),
            final(self).deployments.items_view() == items@,
            final(self).deployments.selected_view() == 0,
            *final(self) == (K8sManager { deployments: final(self).deployments, ..*old(self) }),
    {
        self.deployments.open(items);
    }

    /// Shows a listing of services.
    pub fn set_services(&mut self, items: Vec<ServiceView>)
        ensures
            final(self).services.open_view(),
            final(self).services.items_view() == items@,
            final(self).services.selected_view() == 0,
            *final(self) == (K8sManager { services: final(self).services, ..*old(self) }),
    {
        self.services.open(items);
    }

    /// Shows a listing of nodes.
    pub fn set_nodes(&mut self, items: Vec<NodeView>)
        ensures
            final(self).nodes.open_view(),
            final(self).nodes.items_view() == items@,
            final(self).nodes.selected_view() == 0,
            *final(self) == (K8sManager { nodes: final(self).nodes, ..*old(self) }),
    {
        self.nodes.open(items);
    }

    /// Shows a listing of events.
    pub fn set_events(&mut self, items: Vec<EventView>)
        ensures
            final(self).events.open_view(),
            final(self).events.items_view() == items@,
            final(self).events.selected_view() == 0,
            *final(self) == (K8sManager { events: final(self).events, ..*old(self) }),
    {
        self.events.open(items);
    }
}

} // verus!
