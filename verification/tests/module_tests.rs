//! Unit tests of the surrounding modules: releases, meshes, secrets,
//! clusters, previews, pipelines, policies and tool planning.

use phgit_core::api::{github_repo_url, parse_repo_spec, repo_info_from_parts};
use phgit_core::cluster::{
    find_cluster_config, plan_targets, unconfigured_message, Action, ClusterTarget,
    MultiClusterConfig, TargetPlan,
};
use phgit_core::command::ToolInvocation;
use phgit_core::crds::{PhgitPipelineSpec, PipelineStage, PipelineStep, StatusCondition};
use phgit_core::devops::{handle_terraform_apply, handle_terraform_plan, handle_vault_read};
use phgit_core::drift::{build_drift_patch, drift_patch, generate_pr_body, DiffTag, DriftDetail};
use phgit_core::issues::{issue_api_url, validate_issue_args};
use phgit_core::local_dev::{get_provisioner, Provider, Provisioner, KindProvisioner};
use phgit_core::mesh::{
    build_destination_rule, build_smi_traffic_split, build_virtual_service, IstioClient,
    LinkerdClient, MeshPlan, ServiceMeshClient, TrafficSplit,
};
use phgit_core::crds::PipelinePhase;
use phgit_core::drift::new_reconciliation_branch;
use phgit_core::pipeline::{
    pipeline_job_name, pipeline_phase_action, running_pipeline_action, JobObservation,
    PipelineAction,
};
use phgit_core::policy::{all_checks_passed, conftest_invocation, CheckResult, FailureDetail};
use phgit_core::mesh::{get_mesh_client, SelectedMeshClient};
use phgit_core::preview::{is_manifest_file, preview_namespace};
use phgit_core::workflow::{build_workflow, WorkflowJob, WorkflowStep};
use phgit_core::release::{
    canary_split, get_strategy, ReleaseConfig, ReleaseStrategy, SelectedStrategy, ServiceMesh,
    Strategy, BlueGreenStrategy, CanaryStrategy,
};
use phgit_core::secrets::{
    build_secret_data, decode_secret_value, get_provider, parse_secret_ref, ProviderConfig,
    SealedSecretsConfig, SealedSecretsProvider, SelectedProvider, VaultConfig,
};

fn args_of(inv: &ToolInvocation) -> Vec<&str> {
    inv.args.iter().map(|s| s.as_str()).collect()
}

fn release_config(percent: Option<u8>) -> ReleaseConfig {
    ReleaseConfig {
        strategy: ReleaseStrategy::Canary,
        service_mesh: ServiceMesh::Istio,
        app_name: "shop".to_string(),
        namespace: "prod".to_string(),
        stable_version: "v1".to_string(),
        new_version: "v2".to_string(),
        traffic_percent: percent,
    }
}

#[test]
fn canary_splits_traffic_exactly() {
    let split = canary_split(&release_config(Some(20))).unwrap();
    assert_eq!(split.app_name, "shop");
    let weights: Vec<(&str, u8)> = split.weights.iter().map(|w| (w.0.as_str(), w.1)).collect();
    assert_eq!(weights, vec![("v1", 80), ("v2", 20)]);
    assert!(canary_split(&release_config(None)).is_err());
    assert!(canary_split(&release_config(Some(101))).is_err());
}

#[test]
fn blue_green_switches_all_traffic() {
    let split = BlueGreenStrategy {}.execute(&release_config(None)).unwrap();
    let weights: Vec<(&str, u8)> = split.weights.iter().map(|w| (w.0.as_str(), w.1)).collect();
    assert_eq!(weights, vec![("v2", 100), ("v1", 0)]);
}

#[test]
fn strategy_factory_matches_configuration() {
    assert!(matches!(
        get_strategy(&ReleaseStrategy::Canary).unwrap(),
        SelectedStrategy::Canary(_)
    ));
    assert!(matches!(
        get_strategy(&ReleaseStrategy::TrafficShift).unwrap(),
        SelectedStrategy::Canary(_)
    ));
    assert!(matches!(
        get_strategy(&ReleaseStrategy::BlueGreen).unwrap(),
        SelectedStrategy::BlueGreen(_)
    ));
    let split = CanaryStrategy {}.execute(&release_config(Some(35))).unwrap();
    let total: u32 = split.weights.iter().map(|w| w.1 as u32).sum();
    assert_eq!(total, 100);
}

fn demo_split() -> TrafficSplit {
    TrafficSplit {
        app_name: "shop".to_string(),
        weights: vec![("v1".to_string(), 80), ("v2".to_string(), 20)],
    }
}

#[test]
fn istio_resources_carry_the_split() {
    let dr = build_destination_rule(&demo_split());
    assert_eq!(dr.host, "shop");
    assert_eq!(dr.subsets.len(), 2);
    assert_eq!(dr.subsets[0].name, "v1");
    assert_eq!(dr.subsets[1].name, "v2");
    assert_eq!(dr.subsets[0].labels, vec![("version".to_string(), "v1".to_string())]);

    let vs = build_virtual_service(&demo_split());
    assert_eq!(vs.hosts, vec!["shop".to_string()]);
    assert_eq!(vs.http.len(), 1);
    let route = &vs.http[0].route;
    assert_eq!(route.len(), 2);
    assert_eq!(route[0].destination.subset, "v1");
    assert_eq!(route[0].weight, Some(80));
    assert_eq!(route[1].destination.subset, "v2");
    assert_eq!(route[1].weight, Some(20));

    match IstioClient::new().update_traffic_split("prod", demo_split()).unwrap() {
        MeshPlan::Istio { destination_rule, virtual_service } => {
            assert_eq!(destination_rule.subsets.len(), 2);
            assert_eq!(virtual_service.http[0].route.len(), 2);
        }
        _ => panic!("expected an Istio plan"),
    }
}

#[test]
fn smi_resource_carries_the_split() {
    let ts = build_smi_traffic_split(&demo_split());
    assert_eq!(ts.service, "shop");
    assert_eq!(ts.backends.len(), 2);
    assert_eq!(ts.backends[0].service, "shop-v1");
    assert_eq!(ts.backends[0].weight, 80);
    assert_eq!(ts.backends[1].service, "shop-v2");
    assert_eq!(ts.backends[1].weight, 20);
    assert!(matches!(
        LinkerdClient::new().update_traffic_split("prod", demo_split()).unwrap(),
        MeshPlan::Smi { .. }
    ));
}

#[test]
fn secret_provider_factory_and_reference_parsing() {
    assert!(matches!(
        get_provider(ProviderConfig::SealedSecrets(SealedSecretsConfig {})).unwrap(),
        SelectedProvider::SealedSecrets(_)
    ));
    assert!(matches!(
        get_provider(ProviderConfig::Vault(VaultConfig {
            address: "http://127.0.0.1:8200".to_string(),
            token: "example-token".to_string(),
        }))
        .unwrap(),
        SelectedProvider::Vault(_)
    ));
    assert!(SealedSecretsProvider::new(SealedSecretsConfig {}).is_ok());

    let r = parse_secret_ref("production/my-app-db-creds:password").unwrap();
    assert_eq!(r.namespace, "production");
    assert_eq!(r.secret_name, "my-app-db-creds");
    assert_eq!(r.data_key, "password");
    assert!(parse_secret_ref("no-colon-here").is_err());
    assert!(parse_secret_ref("no-slash:key").is_err());
}

#[test]
fn secret_values_encode_and_decode_through_base64() {
    // The decoder inverts real base64: a wrapper that handed its argument
    // back unchanged would fail both checks.
    assert_eq!(decode_secret_value("aGVsbG8=").unwrap(), "hello");
    assert!(decode_secret_value("!!!not-base64!!!").is_err());
    let data = build_secret_data(&vec![
        ("user".to_string(), "admin".to_string()),
        ("pass".to_string(), "hello".to_string()),
    ]);
    assert_eq!(data.len(), 2);
    assert_eq!(data[0], ("user".to_string(), "YWRtaW4=".to_string()));
    assert_eq!(data[1], ("pass".to_string(), "aGVsbG8=".to_string()));
}

#[test]
fn cluster_targets_are_planned_against_configuration() {
    let config = MultiClusterConfig {
        cluster_configs: vec![
            ("east".to_string(), "/kube/east".to_string()),
            ("west".to_string(), "/kube/west".to_string()),
        ],
        targets: vec![
            ClusterTarget { name: "west".to_string() },
            ClusterTarget { name: "north".to_string() },
        ],
        action: Action::Status {
            kind: "Deployment".to_string(),
            name: "shop".to_string(),
            namespace: None,
        },
    };
    let plans = plan_targets(&config);
    assert_eq!(plans.len(), 2);
    match &plans[0] {
        TargetPlan::Run { cluster_name, kubeconfig_path } => {
            assert_eq!(cluster_name, "west");
            assert_eq!(kubeconfig_path, "/kube/west");
        }
        _ => panic!("expected a run plan for the configured target"),
    }
    match &plans[1] {
        TargetPlan::Unconfigured { cluster_name } => assert_eq!(cluster_name, "north"),
        _ => panic!("expected the unknown target to be rejected"),
    }
    assert!(find_cluster_config(&config.cluster_configs, "south").is_none());
    assert_eq!(
        unconfigured_message("north"),
        "Configuration for target cluster 'north' not found."
    );
}

#[test]
fn preview_names_and_manifest_selection() {
    assert_eq!(preview_namespace(123), "pr-123");
    assert!(is_manifest_file("deploy.yaml"));
    assert!(is_manifest_file("svc.yml"));
    assert!(!is_manifest_file("notes.txt"));
    assert!(!is_manifest_file("yml"));
    let cond = StatusCondition::new("Creating".to_string(), "Reconciliation started".to_string());
    assert_eq!(cond.type_, "Creating");
    assert_eq!(cond.message, "Reconciliation started");
}

fn demo_pipeline() -> PhgitPipelineSpec {
    PhgitPipelineSpec {
        stages: vec![
            PipelineStage {
                name: "build".to_string(),
                steps: vec![
                    PipelineStep {
                        name: "compile_all".to_string(),
                        image: "rust:1".to_string(),
                        command: vec![],
                        args: vec![],
                    },
                    PipelineStep {
                        name: "unit".to_string(),
                        image: "rust:1".to_string(),
                        command: vec![],
                        args: vec![],
                    },
                ],
            },
            PipelineStage { name: "deploy".to_string(), steps: vec![PipelineStep {
                name: "rollout".to_string(),
                image: "kubectl:1".to_string(),
                command: vec![],
                args: vec![],
            }] },
        ],
    }
}

#[test]
fn pipeline_steps_advance_in_order() {
    let spec = demo_pipeline();
    // A missing job is created for the current step.
    assert!(matches!(
        running_pipeline_action(&spec, 0, 0, &JobObservation::Missing),
        PipelineAction::CreateJob { stage: 0, step: 0 }
    ));
    // Success inside a stage advances the step.
    assert!(matches!(
        running_pipeline_action(&spec, 0, 0, &JobObservation::Succeeded),
        PipelineAction::AdvanceTo { stage: 0, step: 1 }
    ));
    // Success on the last step of a stage advances the stage.
    assert!(matches!(
        running_pipeline_action(&spec, 0, 1, &JobObservation::Succeeded),
        PipelineAction::AdvanceTo { stage: 1, step: 0 }
    ));
    // Failure is terminal; a running job waits.
    assert!(matches!(
        running_pipeline_action(&spec, 1, 0, &JobObservation::Failed),
        PipelineAction::FailPipeline
    ));
    assert!(matches!(
        running_pipeline_action(&spec, 1, 0, &JobObservation::StillRunning),
        PipelineAction::CheckAgainLater
    ));
    // Past the last stage, the pipeline is complete.
    assert!(matches!(
        running_pipeline_action(&spec, 2, 0, &JobObservation::Missing),
        PipelineAction::CompleteSuccess
    ));
    // Job names replace underscores for DNS-safety.
    assert_eq!(pipeline_job_name("pipe", 0, "compile_all"), "pipe-s0-compile-all");
}

#[test]
fn pipeline_phase_dispatch() {
    assert!(matches!(pipeline_phase_action(&None), PipelineAction::Initialize));
    assert!(matches!(
        pipeline_phase_action(&Some(PipelinePhase::Pending)),
        PipelineAction::Initialize
    ));
    assert!(matches!(
        pipeline_phase_action(&Some(PipelinePhase::Running)),
        PipelineAction::CheckAgainLater
    ));
    assert!(matches!(
        pipeline_phase_action(&Some(PipelinePhase::Succeeded)),
        PipelineAction::AwaitChange
    ));
    assert!(matches!(
        pipeline_phase_action(&Some(PipelinePhase::Failed)),
        PipelineAction::AwaitChange
    ));
}

#[test]
fn reconciliation_branches_carry_the_prefix() {
    let branch = new_reconciliation_branch();
    assert!(branch.starts_with("reconciliation/"));
    assert!(branch.len() > "reconciliation/".len());
}

#[test]
fn policy_verdict_follows_the_failures() {
    let inv = conftest_invocation("policies/", "manifests/");
    assert_eq!(inv.program, "conftest");
    assert_eq!(args_of(&inv), vec!["test", "-p", "policies/", "manifests/", "-o", "json"]);
    assert!(all_checks_passed(&vec![]));
    assert!(all_checks_passed(&vec![
        CheckResult { failures: None },
        CheckResult { failures: Some(vec![]) },
    ]));
    assert!(!all_checks_passed(&vec![
        CheckResult { failures: None },
        CheckResult {
            failures: Some(vec![FailureDetail { msg: "privileged container".to_string() }]),
        },
    ]));
}

#[test]
fn devops_invocations_are_exact() {
    let inv = handle_terraform_plan(&["-var".to_string(), "x=1".to_string()]);
    assert_eq!(inv.program, "terraform");
    assert_eq!(args_of(&inv), vec!["plan", "-var", "x=1"]);
    let inv = handle_terraform_apply(&[]);
    assert_eq!(args_of(&inv), vec!["apply"]);
    let inv = handle_vault_read(&["secret/data/app".to_string()]).unwrap();
    assert_eq!(inv.program, "vault");
    assert_eq!(args_of(&inv), vec!["read", "-format=json", "secret/data/app"]);
    assert!(handle_vault_read(&[]).is_err());
    assert!(handle_vault_read(&["a".to_string(), "b".to_string()]).is_err());
}

#[test]
fn provisioner_factory_and_kind_commands() {
    assert!(get_provisioner(Provider::Kind).is_ok());
    assert!(get_provisioner(Provider::K3s).is_err());
    let kind = KindProvisioner {};
    let inv = kind.create("dev", "1.28.0").unwrap();
    assert_eq!(inv.program, "kind");
    assert_eq!(args_of(&inv), vec!["create", "cluster", "--name", "dev"]);
    let inv = kind.delete("dev").unwrap();
    assert_eq!(args_of(&inv), vec!["delete", "cluster", "--name", "dev"]);
    let inv = kind.list().unwrap();
    assert_eq!(args_of(&inv), vec!["get", "clusters"]);
}

#[test]
fn repository_references_and_urls() {
    let (user, repo) = parse_repo_spec("octocat/hello").unwrap();
    assert_eq!((user.as_str(), repo.as_str()), ("octocat", "hello"));
    assert!(parse_repo_spec("no-slash").is_err());
    assert!(parse_repo_spec("/repo").is_err());
    assert!(parse_repo_spec("user/").is_err());
    assert_eq!(
        github_repo_url("octocat", "hello"),
        "https://api.github.com/repos/octocat/hello"
    );
    let info = repo_info_from_parts(
        "octocat/hello".to_string(),
        None,
        7,
        3,
        "https://example.com".to_string(),
        "main".to_string(),
    );
    assert_eq!(info.description, "(No description provided)");

    assert!(validate_issue_args(&["octocat/hello".to_string(), "1".to_string()]).is_ok());
    assert!(validate_issue_args(&["octocat/hello".to_string()]).is_err());
    assert_eq!(
        issue_api_url("octocat/hello", "42"),
        "https://api.github.com/repos/octocat/hello/issues/42"
    );
}

#[test]
fn mesh_factory_matches_configuration() {
    assert!(matches!(
        get_mesh_client(&ServiceMesh::Istio).unwrap(),
        SelectedMeshClient::Istio(_)
    ));
    assert!(matches!(
        get_mesh_client(&ServiceMesh::Linkerd).unwrap(),
        SelectedMeshClient::Linkerd(_)
    ));
    assert!(get_mesh_client(&ServiceMesh::Traefik).is_err());
}

#[test]
fn workflow_jobs_carry_their_names() {
    let jobs = vec![
        (
            "build".to_string(),
            WorkflowJob {
                runs_on: "ubuntu-latest".to_string(),
                steps: vec![WorkflowStep {
                    name: "compile".to_string(),
                    run: "cargo build".to_string(),
                }],
            },
        ),
        (
            "test".to_string(),
            WorkflowJob { runs_on: "ubuntu-latest".to_string(), steps: vec![] },
        ),
    ];
    let workflow = build_workflow("ci".to_string(), jobs);
    assert_eq!(workflow.name, "ci");
    assert_eq!(workflow.jobs.len(), 2);
    assert_eq!(workflow.jobs[0].name, "build");
    assert_eq!(workflow.jobs[0].runs_on, "ubuntu-latest");
    assert_eq!(workflow.jobs[0].steps[0].run, "cargo build");
    assert_eq!(workflow.jobs[1].name, "test");
}

#[test]
fn drift_patches_keep_only_changed_lines() {
    // Through a real line diff: identical texts mean no drift, and a change
    // yields exactly the signed changed lines.
    assert!(drift_patch("a: 1
b: 2
", "a: 1
b: 2
").is_none());
    let patch = drift_patch("a: 1
b: 2
", "a: 1
b: 3
").unwrap();
    assert_eq!(patch, "-b: 2
+b: 3
");
    // The pure patch builder, on a hand-made change stream.
    let changes = vec![
        (DiffTag::Equal, "a: 1
".to_string()),
        (DiffTag::Delete, "b: 2
".to_string()),
        (DiffTag::Insert, "b: 3
".to_string()),
    ];
    assert_eq!(build_drift_patch(&changes).unwrap(), "-b: 2
+b: 3
");
    assert!(build_drift_patch(&vec![(DiffTag::Equal, "same
".to_string())]).is_none());
}

#[test]
fn drift_reports_are_rendered_exactly() {
    let drifts = vec![DriftDetail {
        kind: "Deployment".to_string(),
        name: "shop".to_string(),
        namespace: "prod".to_string(),
        patch: "-replicas: 2\n+replicas: 3\n".to_string(),
    }];
    let body = generate_pr_body(&drifts);
    assert!(body.starts_with("## Automated Configuration Drift Reconciliation\n\n"));
    assert!(body.contains("### `Deployment` `prod/shop`\n"));
    assert!(body.contains("```diff\n-replicas: 2\n+replicas: 3\n\n```\n\n"));
}
