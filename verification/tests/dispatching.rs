use subquery_deploy::dispatch::{
    dispatch, project_key, DeployParams, DeploymentCommand, OutputFormat, PlannedCall,
};

fn params() -> DeployParams {
    DeployParams {
        branch: "main".to_string(),
        commit: None,
        endpoint: Some("https://node.example".to_string()),
        dict_endpoint: None,
        indexer_image_version: Some("v2".to_string()),
        query_image_version: None,
        type_: "primary".to_string(),
        sub_folder: Some("packages/app".to_string()),
    }
}

#[test]
fn project_key_joins_organization_and_key() {
    assert_eq!(project_key("org", "key"), "org/key");
    assert_eq!(project_key("", "key"), "/key");
}

#[test]
fn list_maps_to_a_list_call() {
    let plan = dispatch(DeploymentCommand::List {
        org: "org".to_string(),
        key: "key".to_string(),
        output: OutputFormat::Json,
    });
    assert_eq!(plan.project_key, "org/key");
    assert!(matches!(plan.call, PlannedCall::ListDeployments { output: OutputFormat::Json }));
}

#[test]
fn deploy_builds_the_request_from_its_parameters() {
    let plan = dispatch(DeploymentCommand::Deploy {
        org: "org".to_string(),
        key: "key".to_string(),
        output: OutputFormat::Table,
        params: params(),
    });
    assert_eq!(plan.project_key, "org/key");
    match plan.call {
        PlannedCall::CreateDeployment { branch, request, output } => {
            assert_eq!(branch, "main");
            assert_eq!(output, OutputFormat::Table);
            assert_eq!(request.commit, None);
            assert_eq!(request.endpoint.as_deref(), Some("https://node.example"));
            assert_eq!(request.dict_endpoint, None);
            assert_eq!(request.indexer_image_version.as_deref(), Some("v2"));
            assert_eq!(request.query_image_version, None);
            assert_eq!(request.type_, "primary");
            assert_eq!(request.sub_folder.as_deref(), Some("packages/app"));
        }
        other => panic!("expected a create call, got {:?}", other),
    }
}

#[test]
fn delete_and_promote_carry_the_deployment_id() {
    let plan = dispatch(DeploymentCommand::Delete {
        org: "org".to_string(),
        key: "key".to_string(),
        id: 42,
    });
    assert_eq!(plan.project_key, "org/key");
    assert!(matches!(plan.call, PlannedCall::DeleteDeployment { id: 42 }));

    let plan = dispatch(DeploymentCommand::Promote {
        org: "org".to_string(),
        key: "key".to_string(),
        id: 7,
    });
    assert!(matches!(plan.call, PlannedCall::RebaseDeployment { id: 7 }));
}

#[test]
fn redeploy_keeps_id_branch_and_request_together() {
    let plan = dispatch(DeploymentCommand::Redeploy {
        org: "org".to_string(),
        key: "key".to_string(),
        id: 9,
        params: params(),
    });
    assert_eq!(plan.project_key, "org/key");
    match plan.call {
        PlannedCall::Redeploy { branch, id, request } => {
            assert_eq!(branch, "main");
            assert_eq!(id, 9);
            assert_eq!(request.indexer_image_version.as_deref(), Some("v2"));
            assert_eq!(request.query_image_version, None);
        }
        other => panic!("expected a redeploy call, got {:?}", other),
    }
}

#[test]
fn sync_status_passes_the_poll_settings_through() {
    let plan = dispatch(DeploymentCommand::SyncStatus {
        org: "org".to_string(),
        key: "key".to_string(),
        id: 3,
        rolling: true,
        interval: 15,
    });
    assert_eq!(plan.project_key, "org/key");
    assert!(matches!(
        plan.call,
        PlannedCall::SyncStatus { id: 3, rolling: true, interval: 15 }
    ));
}
