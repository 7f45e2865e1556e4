//! The custom-resource data model: preview environments, releases, and
//! pipelines, with the status structures their controllers maintain.

use vstd::prelude::*;

verus! {

/// The desired state of an ephemeral preview environment, deployed from a
/// Git repository branch.
pub struct PhgitPreviewSpec {
    /// The URL of the Git repository containing the application manifests.
    pub repo_url: String,
    /// The branch, tag, or commit hash to deploy.
    pub branch: String,
    /// The path within the repository where the manifests are located.
    pub manifest_path: String,
    /// A descriptive name for the application being previewed.
    pub app_name: String,
}

/// The observed state of a preview environment.
pub struct PhgitPreviewStatus {
    /// The unique namespace created for this preview environment.
    pub namespace: Option<String>,
    /// Detailed status updates through the resource's lifecycle.
    pub conditions: Vec<StatusCondition>,
}

/// A single condition in the status of a resource: a type such as
/// "Creating" or "Deployed", and a human-readable message.
pub struct StatusCondition {
    /// The kind of condition (for example "Creating" or "Failed").
    pub type_: String,
    /// A human-readable message with the details.
    pub message: String,
}

impl StatusCondition {
    /// A fresh condition from its type and message.
    pub fn new(type_: String, message: String) -> (r: Self)
        ensures
            r.type_@ == type_@,
            r.message@ == message@,
    {
        Self { type_, message }
    }
}

/// The desired state of a declarative release.
pub struct PhgitReleaseSpec {
    pub app_name: String,
    pub version: String,
    pub strategy: ReleaseStrategy,
}

/// The strategy of a release: its type and the matching configuration.
pub struct ReleaseStrategy {
    pub strategy_type: StrategyType,
    pub canary: Option<CanaryStrategy>,
    pub blue_green: Option<BlueGreenStrategy>,
}

/// The supported progressive-release strategies.
pub enum StrategyType {
    Canary,
    BlueGreen,
}

/// Configuration of a canary release.
pub struct CanaryStrategy {
    /// The share of traffic sent to the canary, from 0 to 100.
    pub traffic_percent: u8,
    /// Whether the share grows automatically.
    pub auto_increment: bool,
}

/// Configuration of a blue-green release.
pub struct BlueGreenStrategy {
    /// Whether the new version is promoted without a manual gate.
    pub auto_promote: bool,
}

/// The observed state of a release.
pub struct PhgitReleaseStatus {
    pub phase: String,
    pub stable_version: Option<String>,
    pub canary_version: Option<String>,
    pub traffic_split: Option<String>,
}

/// One executable step of a pipeline: a container image and its command.
pub struct PipelineStep {
    pub name: String,
    pub image: String,
    pub command: Vec<String>,
    pub args: Vec<String>,
}

/// One stage of a pipeline: a named sequence of steps.
pub struct PipelineStage {
    pub name: String,
    pub steps: Vec<PipelineStep>,
}

/// The phases a pipeline moves through.
pub enum PipelinePhase {
    Pending,
    Running,
    Succeeded,
    Failed,
}

/// The desired state of a declarative pipeline: its stages, in order.
pub struct PhgitPipelineSpec {
    pub stages: Vec<PipelineStage>,
}

/// The observed state of a pipeline, the authoritative record of where a
/// run stands; a restarted controller resumes from it.
pub struct PhgitPipelineStatus {
    pub phase: Option<PipelinePhase>,
    pub start_time: Option<String>,
    pub completion_time: Option<String>,
    pub current_stage_index: Option<usize>,
    pub current_step_index: Option<usize>,
}

} // verus!
