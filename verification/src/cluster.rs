//! Multi-cluster orchestration: the configuration of a fleet operation and
//! the per-target execution plan. The host carries the plan out against the
//! clusters; which cluster runs with which kubeconfig — and which targets
//! are rejected as unconfigured — is decided and verified here.

use vstd::prelude::*;
use vstd::string::StringExecFns;

verus! {

/// An action to perform across clusters.
pub enum Action {
    /// Apply a set of Kubernetes manifests (one or more YAML documents).
    Apply { manifests: String },
    /// Get the status of a specific resource.
    Status { kind: String, name: String, namespace: Option<String> },
}

/// One target cluster of an operation, by its logical name.
pub struct ClusterTarget {
    /// Must match a configured cluster name.
    pub name: String,
}

/// A fleet operation: the known clusters, the targets, and the action.
pub struct MultiClusterConfig {
    /// Logical cluster names paired with their kubeconfig file paths.
    pub cluster_configs: Vec<(String, String)>,
    /// The clusters this operation addresses.
    pub targets: Vec<ClusterTarget>,
    /// What to do on each of them.
    pub action: Action,
}

/// The outcome of the operation on a single cluster.
pub struct ClusterResult {
    pub cluster_name: String,
    /// A success message, or the error details.
    pub outcome: Result<String, String>,
}

/// What the host must do for one target.
pub enum TargetPlan {
    /// Run the action on this cluster, through this kubeconfig.
    Run { cluster_name: String, kubeconfig_path: String },
    /// The target names no configured cluster: report the failure without
    /// touching anything.
    Unconfigured { cluster_name: String },
}

/// The kubeconfig path of the first configured cluster with this name.
pub fn find_cluster_config(configs: &Vec<(String, String)>, name: &str) -> (r: Option<String>)
    ensures
        r matches Some(path) ==> exists|j: int|
            {
                &&& 0 <= j < configs@.len()
                &&& (#[trigger] configs@[j]).0@ == name@
                &&& path@ == configs@[j].1@
                &&& forall|k: int| 0 <= k < j ==> (#[trigger] configs@[k]).0@ != name@
            },
        r is None ==> forall|j: int| 0 <= j < configs@.len() ==> (#[trigger] configs@[j]).0@
            != name@,
{
    let needle = name.to_owned();
    let mut j: usize = 0;
    while j < configs.len()
        invariant
            0 <= j <= configs@.len(),
            needle@ == name@,
            forall|k: int| 0 <= k < j ==> (#[trigger] configs@[k]).0@ != name@,
        decreases configs@.len() - j,
    {
        if configs[j].0.eq(&needle) {
            return Some(configs[j].1.clone());
        }
        j += 1;
    }
    None
}

/// Plans the operation: one entry per target, in the targets' order. A
/// target with a configured cluster is run with that cluster's kubeconfig;
/// a target without one is reported as unconfigured and never run.
pub fn plan_targets(config: &MultiClusterConfig) -> (r: Vec<TargetPlan>)
    ensures
        r@.len() == config.targets@.len(),
        forall|i: int|
            0 <= i < r@.len() ==> match #[trigger] r@[i] {
                TargetPlan::Run { cluster_name, kubeconfig_path } => {
                    &&& cluster_name@ == config.targets@[i].name@
                    &&& exists|j: int|
                        0 <= j < config.cluster_configs@.len() && (
                        #[trigger] config.cluster_configs@[j]).0@ == cluster_name@
                            && kubeconfig_path@ == config.cluster_configs@[j].1@
                },
                TargetPlan::Unconfigured { cluster_name } => {
                    &&& cluster_name@ == config.targets@[i].name@
                    &&& forall|j: int|
                        0 <= j < config.cluster_configs@.len() ==> (
                        #[trigger] config.cluster_configs@[j]).0@ != cluster_name@
                },
            },
{
    let mut plans: Vec<TargetPlan> = Vec::new();
    let mut i: usize = 0;
    while i < config.targets.len()
        invariant
            0 <= i <= config.targets@.len(),
            plans@.len() == i,
            forall|t: int|
                0 <= t < i ==> match #[trigger] plans@[t] {
                    TargetPlan::Run { cluster_name, kubeconfig_path } => {
                        &&& cluster_name@ == config.targets@[t].name@
                        &&& exists|j: int|
                            0 <= j < config.cluster_configs@.len() && (
                            #[trigger] config.cluster_configs@[j]).0@ == cluster_name@
                                && kubeconfig_path@ == config.cluster_configs@[j].1@
                    },
                    TargetPlan::Unconfigured { cluster_name } => {
                        &&& cluster_name@ == config.targets@[t].name@
                        &&& forall|j: int|
                            0 <= j < config.cluster_configs@.len() ==> (
                            #[trigger] config.cluster_configs@[j]).0@ != cluster_name@
                    },
                },
        decreases config.targets@.len() - i,
    {
        let name = config.targets[i].name.clone();
        match find_cluster_config(&config.cluster_configs, name.as_str()) {
            Some(path) => {
                plans.push(TargetPlan::Run { cluster_name: name, kubeconfig_path: path });
            },
            None => {
                plans.push(TargetPlan::Unconfigured { cluster_name: name });
            },
        }
        i += 1;
    }
    plans
}

/// The report for a target that named no configured cluster.
pub fn unconfigured_message(cluster_name: &str) -> (r: String)
    ensures
        r@ == "Configuration for target cluster '"@ + cluster_name@ + "' not found."@,
{
    let mut m = String::new();
    m.append("Configuration for target cluster '");
    m.append(cluster_name);
    m.append("' not found.");
    proof {
        assert(m@ =~= "Configuration for target cluster '"@ + cluster_name@ + "' not found."@);
    }
    m
}

} // verus!
