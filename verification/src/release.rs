//! Release orchestration: the configuration of a release and the strategies
//! that compute its traffic distribution.

use vstd::prelude::*;

use crate::mesh::{spec_weight_sum, TrafficSplit};

verus! {

/// The supported release strategies.
pub enum ReleaseStrategy {
    Canary,
    BlueGreen,
    TrafficShift,
}

/// The supported service meshes.
pub enum ServiceMesh {
    Istio,
    Linkerd,
    Traefik,
}

/// One release orchestration task.
pub struct ReleaseConfig {
    /// The deployment strategy to execute.
    pub strategy: ReleaseStrategy,
    /// The target service mesh.
    pub service_mesh: ServiceMesh,
    /// The application being deployed.
    pub app_name: String,
    /// The Kubernetes namespace of the application.
    pub namespace: String,
    /// The currently stable version.
    pub stable_version: String,
    /// The new version being released.
    pub new_version: String,
    /// The share of traffic for the new version, for the strategies that
    /// shift traffic gradually.
    pub traffic_percent: Option<u8>,
}

/// A release strategy: computes the traffic split it wants applied. Every
/// split a strategy produces is complete — its weights sum to one hundred —
/// and belongs to the configured application.
pub trait Strategy {
    fn execute(&self, config: &ReleaseConfig) -> (r: Result<TrafficSplit, String>)
        ensures
            r matches Ok(split) ==> split.app_name@ == config.app_name@ && spec_weight_sum(
                split.weights@,
            ) == 100,
    ;
}

/// The sum of a two-entry weight list is the sum of its two weights.
proof fn lemma_two_weight_sum(w: Seq<(String, u8)>)
    requires
        w.len() == 2,
    ensures
        spec_weight_sum(w) == w[0].1 + w[1].1,
{
    let w1 = w.drop_last();
    let w0 = w1.drop_last();
    assert(w0 =~= Seq::<(String, u8)>::empty());
    assert(w0.len() == 0);
    assert(spec_weight_sum(w0) == 0);
    assert(w1.len() == 1);
    assert(w1.last() == w[0]);
    assert(spec_weight_sum(w1) == spec_weight_sum(w0) + w1.last().1);
    assert(w.last() == w[1]);
    assert(spec_weight_sum(w) == spec_weight_sum(w1) + w.last().1);
}

/// The canary strategy: a configured share of traffic to the new version,
/// the rest to the stable one.
pub struct CanaryStrategy {}

/// The split a canary release applies: the stable version keeps
/// `100 - percent`, the new version receives `percent`.
pub fn canary_split(config: &ReleaseConfig) -> (r: Result<TrafficSplit, String>)
    ensures
        config.traffic_percent is None ==> r is Err,
        config.traffic_percent matches Some(p) ==> (p > 100 ==> r is Err),
        config.traffic_percent matches Some(p) ==> p <= 100 ==> (r matches Ok(split) && {
            &&& split.app_name@ == config.app_name@
            &&& split.weights@.len() == 2
            &&& split.weights@[0].0@ == config.stable_version@
            &&& split.weights@[0].1 == 100 - p
            &&& split.weights@[1].0@ == config.new_version@
            &&& split.weights@[1].1 == p
        }),
{
    let p = match config.traffic_percent {
        Some(p) => p,
        None => {
            return Err(
                "'traffic_percent' is required for a canary release strategy".to_owned(),
            );
        },
    };
    if p > 100 {
        return Err("'traffic_percent' cannot be greater than 100".to_owned());
    }
    let stable_weight = 100 - p;
    let mut weights: Vec<(String, u8)> = Vec::new();
    weights.push((config.stable_version.clone(), stable_weight));
    weights.push((config.new_version.clone(), p));
    Ok(TrafficSplit { app_name: config.app_name.clone(), weights })
}

impl Strategy for CanaryStrategy {
    fn execute(&self, config: &ReleaseConfig) -> (r: Result<TrafficSplit, String>) {
        let r = canary_split(config);
        proof {
            if let Ok(split) = &r {
                lemma_two_weight_sum(split.weights@);
            }
        }
        r
    }
}

/// The blue-green strategy: a complete switch to the new version, with the
/// stable one kept at zero traffic for rapid rollback.
pub struct BlueGreenStrategy {}

/// The split a blue-green deployment applies: all traffic to the new
/// version, none to the stable one.
pub fn blue_green_split(config: &ReleaseConfig) -> (r: TrafficSplit)
    ensures
        r.app_name@ == config.app_name@,
        r.weights@.len() == 2,
        r.weights@[0].0@ == config.new_version@,
        r.weights@[0].1 == 100,
        r.weights@[1].0@ == config.stable_version@,
        r.weights@[1].1 == 0,
{
    let mut weights: Vec<(String, u8)> = Vec::new();
    weights.push((config.new_version.clone(), 100));
    weights.push((config.stable_version.clone(), 0));
    TrafficSplit { app_name: config.app_name.clone(), weights }
}

impl Strategy for BlueGreenStrategy {
    fn execute(&self, config: &ReleaseConfig) -> (r: Result<TrafficSplit, String>) {
        let split = blue_green_split(config);
        proof {
            lemma_two_weight_sum(split.weights@);
        }
        Ok(split)
    }
}

/// The strategy selected by the factory.
pub enum SelectedStrategy {
    Canary(CanaryStrategy),
    BlueGreen(BlueGreenStrategy),
}

impl SelectedStrategy {
    /// Runs the selected strategy.
    pub fn execute(&self, config: &ReleaseConfig) -> (r: Result<TrafficSplit, String>)
        ensures
            r matches Ok(split) ==> split.app_name@ == config.app_name@ && spec_weight_sum(
                split.weights@,
            ) == 100,
    {
        match self {
            SelectedStrategy::Canary(s) => s.execute(config),
            SelectedStrategy::BlueGreen(s) => s.execute(config),
        }
    }
}

/// The factory keyed on the configured strategy: a traffic shift is the
/// canary mechanism under another name.
pub fn get_strategy(strategy_type: &ReleaseStrategy) -> (r: Result<SelectedStrategy, String>)
    ensures
        strategy_type is Canary || strategy_type is TrafficShift ==> (r matches Ok(s)
            && s is Canary),
        strategy_type is BlueGreen ==> (r matches Ok(s) && s is BlueGreen),
{
    match strategy_type {
        ReleaseStrategy::Canary => Ok(SelectedStrategy::Canary(CanaryStrategy {  })),
        ReleaseStrategy::TrafficShift => Ok(SelectedStrategy::Canary(CanaryStrategy {  })),
        ReleaseStrategy::BlueGreen => Ok(SelectedStrategy::BlueGreen(BlueGreenStrategy {  })),
    }
}

} // verus!
