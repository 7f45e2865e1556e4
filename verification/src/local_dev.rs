//! Local development clusters: the command-line model and the provisioners
//! that plan the underlying tool invocations. The host spawns the planned
//! commands.

use vstd::prelude::*;
use vstd::string::StringExecFns;

use crate::command::ToolInvocation;

verus! {

/// The command-line interface of the local-cluster tool.
pub struct Cli {
    /// The command to execute.
    pub command: Commands,
}

/// The available subcommands.
pub enum Commands {
    /// Create a new local Kubernetes cluster.
    Create(CreateArgs),
    /// Delete an existing local Kubernetes cluster.
    Delete(DeleteArgs),
    /// List available local Kubernetes clusters.
    List(ListArgs),
}

/// Arguments of the create command.
pub struct CreateArgs {
    /// The name for the new cluster.
    pub cluster_name: String,
    /// The provider to create it with.
    pub provider: Provider,
    /// The Kubernetes version to install.
    pub k8s_version: String,
    /// Wait for the control plane before returning.
    pub wait: bool,
}

/// Arguments of the delete command.
pub struct DeleteArgs {
    /// The cluster to delete.
    pub cluster_name: String,
    /// The provider that owns it.
    pub provider: Provider,
}

/// Arguments of the list command.
pub struct ListArgs {
    /// The provider whose clusters are listed.
    pub provider: Provider,
}

/// The supported local Kubernetes providers.
#[derive(Clone, Copy, PartialEq, Eq, Structural)]
pub enum Provider {
    /// Kubernetes in Docker.
    Kind,
    /// Lightweight Kubernetes.
    K3s,
}

/// A local-cluster provisioner: plans the tool invocations that create,
/// delete and list clusters.
pub trait Provisioner {
    /// Plans the creation of a cluster with the given name and version.
    fn create(&self, name: &str, k8s_version: &str) -> (r: Result<ToolInvocation, String>);

    /// Plans the deletion of the named cluster.
    fn delete(&self, name: &str) -> (r: Result<ToolInvocation, String>);

    /// Plans the listing of this provisioner's clusters.
    fn list(&self) -> (r: Result<ToolInvocation, String>);
}

/// The provisioner wrapping the `kind` tool.
pub struct KindProvisioner {}

/// The creation command of a `kind` cluster:
/// `kind create cluster --name <name>`.
pub fn kind_create_invocation(name: &str) -> (r: ToolInvocation)
    ensures
        r.program@ == "kind"@,
        r.args@.len() == 4,
        r.args@[0]@ == "create"@,
        r.args@[1]@ == "cluster"@,
        r.args@[2]@ == "--name"@,
        r.args@[3]@ == name@,
{
    let mut args: Vec<String> = Vec::new();
    args.push(String::from_str("create"));
    args.push(String::from_str("cluster"));
    args.push(String::from_str("--name"));
    args.push(name.to_owned());
    ToolInvocation { program: String::from_str("kind"), args }
}

/// The deletion command of a `kind` cluster:
/// `kind delete cluster --name <name>`.
pub fn kind_delete_invocation(name: &str) -> (r: ToolInvocation)
    ensures
        r.program@ == "kind"@,
        r.args@.len() == 4,
        r.args@[0]@ == "delete"@,
        r.args@[1]@ == "cluster"@,
        r.args@[2]@ == "--name"@,
        r.args@[3]@ == name@,
{
    let mut args: Vec<String> = Vec::new();
    args.push(String::from_str("delete"));
    args.push(String::from_str("cluster"));
    args.push(String::from_str("--name"));
    args.push(name.to_owned());
    ToolInvocation { program: String::from_str("kind"), args }
}

/// The listing command of `kind` clusters: `kind get clusters`.
pub fn kind_list_invocation() -> (r: ToolInvocation)
    ensures
        r.program@ == "kind"@,
        r.args@.len() == 2,
        r.args@[0]@ == "get"@,
        r.args@[1]@ == "clusters"@,
{
    let mut args: Vec<String> = Vec::new();
    args.push(String::from_str("get"));
    args.push(String::from_str("clusters"));
    ToolInvocation { program: String::from_str("kind"), args }
}

impl Provisioner for KindProvisioner {
    fn create(&self, name: &str, k8s_version: &str) -> (r: Result<ToolInvocation, String>) {
        Ok(kind_create_invocation(name))
    }

    fn delete(&self, name: &str) -> (r: Result<ToolInvocation, String>) {
        Ok(kind_delete_invocation(name))
    }

    fn list(&self) -> (r: Result<ToolInvocation, String>) {
        Ok(kind_list_invocation())
    }
}

/// The planned but unimplemented k3s provisioner: every operation reports
/// that it is not yet available.
pub struct K3sProvisioner {}

impl Provisioner for K3sProvisioner {
    fn create(&self, name: &str, k8s_version: &str) -> (r: Result<ToolInvocation, String>) {
        Err("The 'k3s' provisioner is not yet implemented.".to_owned())
    }

    fn delete(&self, name: &str) -> (r: Result<ToolInvocation, String>) {
        Err("The 'k3s' provisioner is not yet implemented.".to_owned())
    }

    fn list(&self) -> (r: Result<ToolInvocation, String>) {
        Err("The 'k3s' provisioner is not yet implemented.".to_owned())
    }
}

/// The provisioner selected by the factory.
pub enum SelectedProvisioner {
    Kind(KindProvisioner),
}

/// The factory keyed on the chosen provider: `kind` is available, `k3s` is
/// still only planned.
pub fn get_provisioner(provider: Provider) -> (r: Result<SelectedProvisioner, String>)
    ensures
        provider is Kind <==> r is Ok,
        provider is K3s <==> r is Err,
        r matches Err(m) ==> m@ == "The k3s provider is not yet implemented."@,
{
    match provider {
        Provider::Kind => Ok(SelectedProvisioner::Kind(KindProvisioner {  })),
        Provider::K3s => Err("The k3s provider is not yet implemented.".to_owned()),
    }
}

} // verus!
