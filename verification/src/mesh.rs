//! Service-mesh traffic management: the desired traffic split, and the
//! mesh-specific resources that realize it, built and checked here. A thin
//! host applies the built resources to the cluster.

use vstd::prelude::*;
use vstd::string::StringExecFns;

verus! {

/// A desired traffic distribution for one application: each entry pairs a
/// version subset with its share of the traffic. The shares of a complete
/// split sum to one hundred.
pub struct TrafficSplit {
    /// The name of the application service.
    pub app_name: String,
    /// The (version, weight) pairs.
    pub weights: Vec<(String, u8)>,
}

/// The sum of the weights of a split.
pub open spec fn spec_weight_sum(weights: Seq<(String, u8)>) -> int
    decreases weights.len(),
{
    if weights.len() == 0 {
        0
    } else {
        spec_weight_sum(weights.drop_last()) + weights.last().1
    }
}

// --- Istio's resources -----------------------------------------------------
/// The routing rule of a virtual service, limited to traffic splitting.
pub struct VirtualServiceSpec {
    pub hosts: Vec<String>,
    pub http: Vec<HTTPRoute>,
}

pub struct HTTPRoute {
    pub route: Vec<HTTPRouteDestination>,
}

pub struct HTTPRouteDestination {
    pub destination: Destination,
    pub weight: Option<u8>,
}

pub struct Destination {
    pub host: String,
    pub subset: String,
}

/// The subsets (versions) of a service.
pub struct DestinationRuleSpec {
    pub host: String,
    pub subsets: Vec<Subset>,
}

pub struct Subset {
    pub name: String,
    /// The pod labels selecting this subset.
    pub labels: Vec<(String, String)>,
}

// --- The SMI resource (Linkerd) --------------------------------------------
/// The SMI traffic split: a root service and its weighted backends.
pub struct TrafficSplitSpec {
    /// The root service that clients route to.
    pub service: String,
    /// The backend services traffic is routed to.
    pub backends: Vec<TrafficSplitBackend>,
}

pub struct TrafficSplitBackend {
    /// The versioned backend service.
    pub service: String,
    /// The share of traffic sent to this backend.
    pub weight: u16,
}

// --- Builders ---------------------------------------------------------------
/// A destination rule carrying exactly the split's versions: one subset per
/// weight entry, each selecting pods labeled `version: <version>`.
pub fn build_destination_rule(split: &TrafficSplit) -> (r: DestinationRuleSpec)
    ensures
        r.host@ == split.app_name@,
        r.subsets@.len() == split.weights@.len(),
        forall|i: int|
            0 <= i < r.subsets@.len() ==> {
                &&& (#[trigger] r.subsets@[i]).name@ == split.weights@[i].0@
                &&& r.subsets@[i].labels@.len() == 1
                &&& r.subsets@[i].labels@[0].0@ == "version"@
                &&& r.subsets@[i].labels@[0].1@ == split.weights@[i].0@
            },
{
    let mut subsets: Vec<Subset> = Vec::new();
    let mut i: usize = 0;
    while i < split.weights.len()
        invariant
            0 <= i <= split.weights@.len(),
            subsets@.len() == i,
            forall|j: int|
                0 <= j < i ==> {
                    &&& (#[trigger] subsets@[j]).name@ == split.weights@[j].0@
                    &&& subsets@[j].labels@.len() == 1
                    &&& subsets@[j].labels@[0].0@ == "version"@
                    &&& subsets@[j].labels@[0].1@ == split.weights@[j].0@
                },
        decreases split.weights@.len() - i,
    {
        let version = pair_first(&split.weights, i);
        let mut labels: Vec<(String, String)> = Vec::new();
        labels.push((String::from_str("version"), version.clone()));
        subsets.push(Subset { name: version, labels });
        i += 1;
    }
    DestinationRuleSpec { host: split.app_name.clone(), subsets }
}

/// A virtual service distributing the application's traffic exactly as the
/// split demands: one weighted destination per entry, all on the
/// application's host.
pub fn build_virtual_service(split: &TrafficSplit) -> (r: VirtualServiceSpec)
    ensures
        r.hosts@.len() == 1 && r.hosts@[0]@ == split.app_name@,
        r.http@.len() == 1,
        r.http@[0].route@.len() == split.weights@.len(),
        forall|i: int|
            0 <= i < split.weights@.len() ==> {
                &&& (#[trigger] r.http@[0].route@[i]).destination.host@ == split.app_name@
                &&& r.http@[0].route@[i].destination.subset@ == split.weights@[i].0@
                &&& r.http@[0].route@[i].weight == Some(split.weights@[i].1)
            },
{
    let mut route: Vec<HTTPRouteDestination> = Vec::new();
    let mut i: usize = 0;
    while i < split.weights.len()
        invariant
            0 <= i <= split.weights@.len(),
            route@.len() == i,
            forall|j: int|
                0 <= j < i ==> {
                    &&& (#[trigger] route@[j]).destination.host@ == split.app_name@
                    &&& route@[j].destination.subset@ == split.weights@[j].0@
                    &&& route@[j].weight == Some(split.weights@[j].1)
                },
        decreases split.weights@.len() - i,
    {
        let version = pair_first(&split.weights, i);
        let weight = pair_second(&split.weights, i);
        route.push(
            HTTPRouteDestination {
                destination: Destination { host: split.app_name.clone(), subset: version },
                weight: Some(weight),
            },
        );
        i += 1;
    }
    let mut hosts: Vec<String> = Vec::new();
    hosts.push(split.app_name.clone());
    let mut http: Vec<HTTPRoute> = Vec::new();
    http.push(HTTPRoute { route });
    VirtualServiceSpec { hosts, http }
}

/// The SMI backend service name: the application name, a dash, the version.
pub open spec fn spec_backend_name(app: Seq<char>, version: Seq<char>) -> Seq<char> {
    app + "-"@ + version
}

/// An SMI traffic split equivalent to the desired one: the root service is
/// the application, and each entry becomes a backend named
/// `<app>-<version>` with the same weight.
pub fn build_smi_traffic_split(split: &TrafficSplit) -> (r: TrafficSplitSpec)
    ensures
        r.service@ == split.app_name@,
        r.backends@.len() == split.weights@.len(),
        forall|i: int|
            0 <= i < split.weights@.len() ==> {
                &&& (#[trigger] r.backends@[i]).service@ == spec_backend_name(
                    split.app_name@,
                    split.weights@[i].0@,
                )
                &&& r.backends@[i].weight == split.weights@[i].1 as u16
            },
{
    let mut backends: Vec<TrafficSplitBackend> = Vec::new();
    let mut i: usize = 0;
    while i < split.weights.len()
        invariant
            0 <= i <= split.weights@.len(),
            backends@.len() == i,
            forall|j: int|
                0 <= j < i ==> {
                    &&& (#[trigger] backends@[j]).service@ == spec_backend_name(
                        split.app_name@,
                        split.weights@[j].0@,
                    )
                    &&& backends@[j].weight == split.weights@[j].1 as u16
                },
        decreases split.weights@.len() - i,
    {
        let version = pair_first(&split.weights, i);
        let weight = pair_second(&split.weights, i);
        let mut name = String::new();
        name.append(split.app_name.as_str());
        name.append("-");
        name.append(version.as_str());
        proof {
            assert(name@ =~= spec_backend_name(split.app_name@, split.weights@[i as int].0@));
        }
        backends.push(TrafficSplitBackend { service: name, weight: weight as u16 });
        i += 1;
    }
    TrafficSplitSpec { service: split.app_name.clone(), backends }
}

// --- The mesh clients -------------------------------------------------------
/// The resources a mesh client plans for one traffic split; its host
/// applies them to the cluster with server-side apply.
pub enum MeshPlan {
    /// Istio realizes a split with a destination rule and a virtual service.
    Istio { destination_rule: DestinationRuleSpec, virtual_service: VirtualServiceSpec },
    /// Linkerd realizes a split with one SMI traffic-split resource.
    Smi { split: TrafficSplitSpec },
}

/// The plan faithfully carries the desired split.
pub open spec fn spec_plan_carries_split(plan: MeshPlan, split: TrafficSplit) -> bool {
    match plan {
        MeshPlan::Istio { destination_rule, virtual_service } => {
            &&& destination_rule.host@ == split.app_name@
            &&& destination_rule.subsets@.len() == split.weights@.len()
            &&& virtual_service.http@.len() == 1
            &&& virtual_service.http@[0].route@.len() == split.weights@.len()
            &&& (forall|i: int|
                0 <= i < split.weights@.len() ==> (
                #[trigger] virtual_service.http@[0].route@[i]).weight == Some(
                    split.weights@[i].1,
                ))
        },
        MeshPlan::Smi { split: smi } => {
            &&& smi.service@ == split.app_name@
            &&& smi.backends@.len() == split.weights@.len()
            &&& (forall|i: int|
                0 <= i < split.weights@.len() ==> (#[trigger] smi.backends@[i]).weight
                    == split.weights@[i].1 as u16)
        },
    }
}

/// A client of one service mesh: plans the resources that realize a split.
pub trait ServiceMeshClient {
    /// Plans the routing update for `split` in the given namespace.
    fn update_traffic_split(&self, namespace: &str, split: TrafficSplit) -> (r: Result<
        MeshPlan,
        String,
    >)
        ensures
            r matches Ok(plan) ==> spec_plan_carries_split(plan, split),
    ;
}

/// The Istio client.
pub struct IstioClient {}

impl IstioClient {
    pub fn new() -> (r: Self) {
        Self {  }
    }
}

impl ServiceMeshClient for IstioClient {
    fn update_traffic_split(&self, namespace: &str, split: TrafficSplit) -> (r: Result<
        MeshPlan,
        String,
    >) {
        let destination_rule = build_destination_rule(&split);
        let virtual_service = build_virtual_service(&split);
        Ok(MeshPlan::Istio { destination_rule, virtual_service })
    }
}

/// The Linkerd client, speaking the service-mesh-interface standard.
pub struct LinkerdClient {}

impl LinkerdClient {
    pub fn new() -> (r: Self) {
        Self {  }
    }
}

impl ServiceMeshClient for LinkerdClient {
    fn update_traffic_split(&self, namespace: &str, split: TrafficSplit) -> (r: Result<
        MeshPlan,
        String,
    >) {
        let smi = build_smi_traffic_split(&split);
        Ok(MeshPlan::Smi { split: smi })
    }
}

/// One element of a vector of pairs: the first component, cloned.
fn pair_first(v: &Vec<(String, u8)>, i: usize) -> (r: String)
    requires
        i < v@.len(),
    ensures
        r@ == v@[i as int].0@,
{
    v[i].0.clone()
}

/// One element of a vector of pairs: the second component.
fn pair_second(v: &Vec<(String, u8)>, i: usize) -> (r: u8)
    requires
        i < v@.len(),
    ensures
        r == v@[i as int].1,
{
    v[i].1
}

/// The mesh client selected by the factory.
pub enum SelectedMeshClient {
    Istio(IstioClient),
    Linkerd(LinkerdClient),
}

impl SelectedMeshClient {
    /// Plans the routing update through the selected mesh.
    pub fn update_traffic_split(&self, namespace: &str, split: TrafficSplit) -> (r: Result<
        MeshPlan,
        String,
    >)
        ensures
            r matches Ok(plan) ==> spec_plan_carries_split(plan, split),
    {
        match self {
            SelectedMeshClient::Istio(c) => c.update_traffic_split(namespace, split),
            SelectedMeshClient::Linkerd(c) => c.update_traffic_split(namespace, split),
        }
    }
}

/// The factory keyed on the configured mesh. Traefik is not supported yet.
pub fn get_mesh_client(mesh_type: &crate::release::ServiceMesh) -> (r: Result<
    SelectedMeshClient,
    String,
>)
    ensures
        mesh_type is Istio ==> (r matches Ok(c) && c is Istio),
        mesh_type is Linkerd ==> (r matches Ok(c) && c is Linkerd),
        mesh_type is Traefik ==> r is Err,
{
    match mesh_type {
        crate::release::ServiceMesh::Istio => Ok(SelectedMeshClient::Istio(IstioClient::new())),
        crate::release::ServiceMesh::Linkerd => Ok(
            SelectedMeshClient::Linkerd(LinkerdClient::new()),
        ),
        crate::release::ServiceMesh::Traefik => Err(
            "Traefik is not yet supported by the release orchestrator.".to_owned(),
        ),
    }
}

} // verus!
