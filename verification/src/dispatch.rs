//! Mapping a parsed command to a project key and a planned backend call.

use vstd::prelude::*;

use crate::request::{opt_view, CreateDeployRequest, ReqView};

verus! {

/// How a listed result is rendered for the user.
#[derive(Clone, Copy, PartialEq, Eq, Structural, Debug)]
pub enum OutputFormat {
    Table,
    Json,
}

/// The user-supplied parameters of a deploy or redeploy command: the branch
/// whose history fills a missing commit, and the request fields.
#[derive(Clone, Debug)]
pub struct DeployParams {
    pub branch: String,
    pub commit: Option<String>,
    pub endpoint: Option<String>,
    pub dict_endpoint: Option<String>,
    pub indexer_image_version: Option<String>,
    pub query_image_version: Option<String>,
    pub type_: String,
    pub sub_folder: Option<String>,
}

/// The request that deploy parameters describe, field for field.
pub open spec fn spec_request_of(p: DeployParams) -> ReqView {
    ReqView {
        commit: opt_view(p.commit),
        endpoint: opt_view(p.endpoint),
        dict_endpoint: opt_view(p.dict_endpoint),
        indexer_image_version: opt_view(p.indexer_image_version),
        query_image_version: opt_view(p.query_image_version),
        type_: p.type_@,
        sub_folder: opt_view(p.sub_folder),
    }
}

/// A parsed deployment subcommand. Every variant addresses the project
/// `organization/key`.
#[derive(Clone, Debug)]
pub enum DeploymentCommand {
    List { org: String, key: String, output: OutputFormat },
    Deploy { org: String, key: String, output: OutputFormat, params: DeployParams },
    Delete { org: String, key: String, id: u64 },
    Redeploy { org: String, key: String, id: u64, params: DeployParams },
    Promote { org: String, key: String, id: u64 },
    SyncStatus { org: String, key: String, id: u64, rolling: bool, interval: u64 },
}

/// The backend call a command maps to. Requests carried here still have to go
/// through the resolver before they are sent.
#[derive(Clone, Debug)]
pub enum PlannedCall {
    ListDeployments { output: OutputFormat },
    CreateDeployment { branch: String, request: CreateDeployRequest, output: OutputFormat },
    DeleteDeployment { id: u64 },
    Redeploy { branch: String, id: u64, request: CreateDeployRequest },
    RebaseDeployment { id: u64 },
    SyncStatus { id: u64, rolling: bool, interval: u64 },
}

/// One dispatched command: the composite project key and the call to make.
#[derive(Clone, Debug)]
pub struct DispatchPlan {
    pub project_key: String,
    pub call: PlannedCall,
}

/// Joins an organization and a key into the composite project key.
pub fn project_key(org: &str, key: &str) -> (r: String)
    ensures
        r@ == org@ + "/"@ + key@,
{
    let mut r = org.to_owned();
    r.append("/");
    r.append(key);
    proof {
        assert(r@ =~= org@ + "/"@ + key@);
    }
    r
}

/// Builds the deployment request that `params` describes, handing the branch
/// back beside it.
pub fn request_from_params(params: DeployParams) -> (r: (CreateDeployRequest, String))
    ensures
        r.0@ == spec_request_of(params),
        r.1@ == params.branch@,
{
    let DeployParams {
        branch,
        commit,
        endpoint,
        dict_endpoint,
        indexer_image_version,
        query_image_version,
        type_,
        sub_folder,
    } = params;
    let request = CreateDeployRequest {
        commit,
        endpoint,
        dict_endpoint,
        indexer_image_version,
        query_image_version,
        type_,
        sub_folder,
    };
    (request, branch)
}

/// Maps a parsed command to its plan: the composite project key, and the
/// planned call with the command's own parameters carried over unchanged.
pub fn dispatch(cmd: DeploymentCommand) -> (p: DispatchPlan)
    ensures
        match cmd {
            DeploymentCommand::List { org, key, output } => p.project_key@ == org@ + "/"@ + key@
                && p.call == (PlannedCall::ListDeployments { output }),
            DeploymentCommand::Deploy { org, key, output, params } => p.project_key@ == org@ + "/"@
                + key@ && (p.call matches PlannedCall::CreateDeployment {
                branch,
                request,
                output: o,
            } && branch@ == params.branch@ && request@ == spec_request_of(params) && o == output),
            DeploymentCommand::Delete { org, key, id } => p.project_key@ == org@ + "/"@ + key@
                && p.call == (PlannedCall::DeleteDeployment { id }),
            DeploymentCommand::Redeploy { org, key, id, params } => p.project_key@ == org@ + "/"@
                + key@ && (p.call matches PlannedCall::Redeploy { branch, id: i, request }
                && branch@ == params.branch@ && i == id && request@ == spec_request_of(params)),
            DeploymentCommand::Promote { org, key, id } => p.project_key@ == org@ + "/"@ + key@
                && p.call == (PlannedCall::RebaseDeployment { id }),
            DeploymentCommand::SyncStatus { org, key, id, rolling, interval } => p.project_key@
                == org@ + "/"@ + key@ && p.call == (PlannedCall::SyncStatus {
                id,
                rolling,
                interval,
            }),
        },
{
    match cmd {
        DeploymentCommand::List { org, key, output } => DispatchPlan {
            project_key: project_key(org.as_str(), key.as_str()),
            call: PlannedCall::ListDeployments { output },
        },
        DeploymentCommand::Deploy { org, key, output, params } => {
            let pk = project_key(org.as_str(), key.as_str());
            let (request, branch) = request_from_params(params);
            DispatchPlan { project_key: pk, call: PlannedCall::CreateDeployment { branch, request, output } }
        },
        DeploymentCommand::Delete { org, key, id } => DispatchPlan {
            project_key: project_key(org.as_str(), key.as_str()),
            call: PlannedCall::DeleteDeployment { id },
        },
        DeploymentCommand::Redeploy { org, key, id, params } => {
            let pk = project_key(org.as_str(), key.as_str());
            let (request, branch) = request_from_params(params);
            DispatchPlan { project_key: pk, call: PlannedCall::Redeploy { branch, id, request } }
        },
        DeploymentCommand::Promote { org, key, id } => DispatchPlan {
            project_key: project_key(org.as_str(), key.as_str()),
            call: PlannedCall::RebaseDeployment { id },
        },
        DeploymentCommand::SyncStatus { org, key, id, rolling, interval } => DispatchPlan {
            project_key: project_key(org.as_str(), key.as_str()),
            call: PlannedCall::SyncStatus { id, rolling, interval },
        },
    }
}

} // verus!
