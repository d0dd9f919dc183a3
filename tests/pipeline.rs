use agent_container_orchestrator::catalog::TemplateCatalog;
use agent_container_orchestrator::deploy::{
    begin_deploy, begin_deploy_with, deploy_with_replies, DeploySession, DeployStage, EngineCall,
    EngineReplies,
};
use agent_container_orchestrator::error::OrchestratorError;
use agent_container_orchestrator::host_config::{create_request, engine_cpu_shares, memory_bytes, volume_bind};
use agent_container_orchestrator::image_build::{image_tag, BuildStreamItem};
use agent_container_orchestrator::inspect::{HostPortBinding, InspectReply, InspectedPort};
use agent_container_orchestrator::lifecycle::{stop_outcome, EngineReply};
use agent_container_orchestrator::model::{ContainerInfo, VolumeMapping};
use agent_container_orchestrator::naming::deployment_name;
use agent_container_orchestrator::registry::DeploymentRegistry;

fn inspect_reply(name: &str, host_ports: &[&str]) -> InspectReply {
    let mut ports = Vec::new();
    for p in host_ports {
        ports.push(InspectedPort {
            container_port: format!("{}/tcp", p),
            bindings: Some(vec![HostPortBinding {
                host_ip: Some("0.0.0.0".to_string()),
                host_port: Some(p.to_string()),
            }]),
        });
    }
    InspectReply {
        name: Some(format!("/{}", name)),
        image: Some("agent-dev-environment".to_string()),
        status: Some("running".to_string()),
        created: Some("2024-01-01T00:00:00Z".to_string()),
        ports,
    }
}

fn info(name: &str) -> ContainerInfo {
    ContainerInfo {
        id: format!("id-{}", name),
        name: name.to_string(),
        image: "img".to_string(),
        status: "running".to_string(),
        state: "running".to_string(),
        created: "0".to_string(),
        ports: vec![],
    }
}

/// Drives a session through every stage with engine replies that succeed.
fn deploy_ok(
    catalog: &TemplateCatalog,
    registry: &mut DeploymentRegistry,
    template_id: &str,
    name: Option<String>,
    fresh: u128,
    container_id: &str,
) -> agent_container_orchestrator::model::DeploymentResult {
    let mut session: DeploySession = match begin_deploy_with(catalog, template_id, name, fresh) {
        Ok(s) => s,
        Err(_) => panic!("template should exist"),
    };
    assert!(session.build_request().is_ok());
    assert!(session
        .on_build_item(BuildStreamItem::Event { stream: Some(" Step 1/2 \n".to_string()), error: None })
        .is_ok());
    assert!(session
        .on_build_item(BuildStreamItem::Event { stream: Some("Step 2/2".to_string()), error: None })
        .is_ok());
    let req = match session.finish_build() {
        Ok(r) => r,
        Err(_) => panic!("limits fit"),
    };
    assert_eq!(req.image, image_tag(template_id));
    let id = match session.on_created(Ok(container_id.to_string())) {
        Ok(id) => id,
        Err(_) => panic!("created"),
    };
    assert_eq!(id, container_id);
    let id = match session.on_started(Ok(())) {
        Ok(id) => id,
        Err(_) => panic!("started"),
    };
    assert_eq!(id, container_id);
    let deployed_name = session.deployment_name().clone();
    match session.on_inspected(registry, Ok(inspect_reply(&deployed_name, &["3000", "8000"])), 42) {
        Ok(r) => r,
        Err(_) => panic!("inspected"),
    }
}

#[test]
fn unknown_template_is_not_found_and_changes_nothing() {
    let catalog = TemplateCatalog::with_builtin_templates();
    let registry = DeploymentRegistry::new();
    match begin_deploy(&catalog, "unknown-id", Some("x".to_string())) {
        Err(OrchestratorError::TemplateNotFound(id)) => assert_eq!(id, "unknown-id"),
        _ => panic!("expected TemplateNotFound"),
    }
    assert_eq!(registry.len(), 0);
    assert_eq!(catalog.len(), 5);
}

#[test]
fn unnamed_deploys_get_distinct_names() {
    let catalog = TemplateCatalog::with_builtin_templates();
    let a = match begin_deploy(&catalog, "dev-environment", None) {
        Ok(s) => s.deployment_name().clone(),
        Err(_) => panic!("known template"),
    };
    let b = match begin_deploy(&catalog, "dev-environment", None) {
        Ok(s) => s.deployment_name().clone(),
        Err(_) => panic!("known template"),
    };
    assert_ne!(a, b);
}

#[test]
fn synthesized_name_has_eight_hex_digits() {
    let catalog = TemplateCatalog::with_builtin_templates();
    let name = match begin_deploy(&catalog, "dev-environment", None) {
        Ok(s) => s.deployment_name().clone(),
        Err(_) => panic!("known template"),
    };
    let prefix = "dev-environment-";
    assert!(name.starts_with(prefix));
    let suffix = &name[prefix.len()..];
    assert_eq!(suffix.len(), 8);
    assert!(suffix.chars().all(|c| c.is_ascii_digit() || ('a'..='f').contains(&c)));
}

#[test]
fn synthesized_name_takes_top_bits_of_fresh_id() {
    let fresh: u128 = 0xab12cd34_0000_4000_8000_000000000000;
    assert_eq!(deployment_name("dev-environment", None, fresh), "dev-environment-ab12cd34");
    let small: u128 = 0x0000000f_ffff_ffff_ffff_ffffffffffff;
    assert_eq!(deployment_name("x", None, small), "x-0000000f");
    assert_eq!(deployment_name("x", Some("given".to_string()), fresh), "given");
}

#[test]
fn memory_limit_converts_to_bytes() {
    assert_eq!(memory_bytes(Some(4096)), Some(Some(4294967296)));
    assert_eq!(memory_bytes(Some(1024)), Some(Some(1073741824)));
    assert_eq!(memory_bytes(Some(2048)), Some(Some(2147483648)));
    assert_eq!(memory_bytes(None), Some(None));
    assert_eq!(memory_bytes(Some(8796093022207)), Some(Some(9223372036853727232)));
    assert_eq!(memory_bytes(Some(8796093022208)), None);
}

#[test]
fn cpu_shares_pass_through() {
    assert_eq!(engine_cpu_shares(Some(1024)), Some(Some(1024)));
    assert_eq!(engine_cpu_shares(None), Some(None));
    assert_eq!(engine_cpu_shares(Some(u64::MAX)), None);
}

#[test]
fn read_only_volume_gets_ro_suffix() {
    let ro = VolumeMapping {
        host_path: "./data".to_string(),
        container_path: "/data".to_string(),
        read_only: true,
    };
    let rw = VolumeMapping {
        host_path: "./data".to_string(),
        container_path: "/data".to_string(),
        read_only: false,
    };
    assert_eq!(volume_bind(&ro), "./data:/data:ro");
    assert_eq!(volume_bind(&rw), "./data:/data");
}

#[test]
fn dev_environment_create_request() {
    let catalog = TemplateCatalog::with_builtin_templates();
    let template = match catalog.get("dev-environment") {
        Some(t) => t,
        None => panic!("built in"),
    };
    let req = match create_request(&template, "dev-environment-ab12cd34", "agent-dev-environment") {
        Ok(r) => r,
        Err(_) => panic!("limits fit"),
    };
    assert_eq!(req.host_config.memory, Some(2147483648));
    assert_eq!(req.host_config.cpu_shares, Some(1024));
    assert_eq!(req.host_config.memory_swap, Some(1073741824));
    let keys: Vec<&str> = req.host_config.port_bindings.iter().map(|b| b.container_port.as_str()).collect();
    assert_eq!(keys, vec!["3000/tcp", "8000/tcp", "5000/tcp", "8080/tcp"]);
    let hosts: Vec<&str> = req.host_config.port_bindings.iter().map(|b| b.host_port.as_str()).collect();
    assert_eq!(hosts, vec!["3000", "8000", "5000", "8080"]);
    assert!(req.host_config.port_bindings.iter().all(|b| b.host_ip == "0.0.0.0"));
    assert_eq!(req.host_config.binds, vec!["./workspace:/workspace".to_string()]);
    assert_eq!(req.env, vec!["NODE_ENV=development".to_string(), "PYTHONPATH=/workspace".to_string()]);
    assert_eq!(req.name, "dev-environment-ab12cd34");
    assert_eq!(req.image, "agent-dev-environment");
}

#[test]
fn absent_limits_are_omitted() {
    let catalog = TemplateCatalog::with_builtin_templates();
    let mut template = match catalog.get("ml-training") {
        Some(t) => t,
        None => panic!("built in"),
    };
    template.resource_limits.memory_mb = None;
    template.resource_limits.swap_mb = None;
    let req = match create_request(&template, "n", "i") {
        Ok(r) => r,
        Err(_) => panic!("limits fit"),
    };
    assert_eq!(req.host_config.memory, None);
    assert_eq!(req.host_config.memory_swap, None);
    assert_eq!(req.host_config.cpu_shares, Some(4096));
    let keys: Vec<&str> = req.host_config.port_bindings.iter().map(|b| b.host_port.as_str()).collect();
    assert_eq!(keys, vec!["8889", "6006"]);
}

#[test]
fn oversized_limit_fails_create() {
    let catalog = TemplateCatalog::with_builtin_templates();
    let mut template = match catalog.get("data-science") {
        Some(t) => t,
        None => panic!("built in"),
    };
    template.resource_limits.swap_mb = Some(u64::MAX);
    assert!(matches!(create_request(&template, "n", "i"), Err(OrchestratorError::ContainerCreateFailure(_))));
}

#[test]
fn successful_deploy_records_one_entry() {
    let catalog = TemplateCatalog::with_builtin_templates();
    let mut registry = DeploymentRegistry::new();
    let result = deploy_ok(&catalog, &mut registry, "dev-environment", None, 0x0123abcd << 96, "c0ffee");
    assert!(result.success);
    assert_eq!(result.container_name, "dev-environment-0123abcd");
    assert_eq!(result.container_id, Some("c0ffee".to_string()));
    assert_eq!(result.image_id, Some("agent-dev-environment".to_string()));
    assert_eq!(result.build_logs, vec!["Step 1/2".to_string(), "Step 2/2".to_string()]);
    assert_eq!(result.ports, vec!["0.0.0.0:3000".to_string(), "0.0.0.0:8000".to_string()]);
    assert_eq!(result.deployment_time_ms, 42);
    assert_eq!(result.message, "Container deployed successfully");
    assert_eq!(registry.len(), 1);
    let entry = match registry.get("dev-environment-0123abcd") {
        Some(e) => e,
        None => panic!("recorded"),
    };
    assert_eq!(entry.id, "c0ffee");
    assert_eq!(entry.name, "dev-environment-0123abcd");
    assert_eq!(entry.status, "running");
    assert_eq!(entry.state, "running");
}

#[test]
fn remove_of_unknown_name_succeeds() {
    let mut registry = DeploymentRegistry::new();
    assert!(registry.finish_remove("never-deployed", EngineReply::NotFound).is_ok());
    assert_eq!(registry.len(), 0);
}

#[test]
fn remove_failure_keeps_entry() {
    let mut registry = DeploymentRegistry::new();
    registry.insert("a".to_string(), info("a"));
    match registry.finish_remove("a", EngineReply::Failed("container is running".to_string())) {
        Err(OrchestratorError::ContainerRemoveFailure(m)) => assert_eq!(m, "container is running"),
        _ => panic!("expected a remove failure"),
    }
    assert!(registry.contains("a"));
}

#[test]
fn build_failure_never_records() {
    let catalog = TemplateCatalog::with_builtin_templates();
    let registry = DeploymentRegistry::new();
    let mut session = match begin_deploy_with(&catalog, "cybersec-lab", Some("lab".to_string()), 0) {
        Ok(s) => s,
        Err(_) => panic!("known template"),
    };
    assert!(session
        .on_build_item(BuildStreamItem::Event { stream: Some("Step 1/9".to_string()), error: None })
        .is_ok());
    match session.on_build_item(BuildStreamItem::Event {
        stream: Some("partial  ".to_string()),
        error: Some("no such image".to_string()),
    }) {
        Err(OrchestratorError::BuildFailure { message, logs }) => {
            assert_eq!(message, "Build error: no such image");
            assert_eq!(logs, vec!["Step 1/9".to_string(), "partial".to_string()]);
        },
        _ => panic!("expected a build failure"),
    }
    assert_eq!(session.stage(), DeployStage::Failed);
    assert_eq!(registry.len(), 0);
}

#[test]
fn build_stream_error_fails_build() {
    let catalog = TemplateCatalog::with_builtin_templates();
    let mut session = match begin_deploy_with(&catalog, "web-pentest", None, 0) {
        Ok(s) => s,
        Err(_) => panic!("known template"),
    };
    match session.on_build_item(BuildStreamItem::StreamError("connection reset".to_string())) {
        Err(OrchestratorError::BuildFailure { message, logs }) => {
            assert_eq!(message, "Build stream error: connection reset");
            assert!(logs.is_empty());
        },
        _ => panic!("expected a build failure"),
    }
    assert_eq!(session.stage(), DeployStage::Failed);
}

#[test]
fn concurrent_templates_get_independent_entries() {
    let catalog = TemplateCatalog::with_builtin_templates();
    let mut registry = DeploymentRegistry::new();
    let a = deploy_ok(&catalog, &mut registry, "dev-environment", None, 7 << 96, "aaa");
    let b = deploy_ok(&catalog, &mut registry, "data-science", None, 7 << 96, "bbb");
    assert_ne!(a.container_name, b.container_name);
    assert_eq!(registry.len(), 2);
    match registry.get(&a.container_name) {
        Some(e) => assert_eq!(e.id, "aaa"),
        None => panic!("first recorded"),
    }
    match registry.get(&b.container_name) {
        Some(e) => assert_eq!(e.id, "bbb"),
        None => panic!("second recorded"),
    }
}

#[test]
fn stop_then_remove_forgets_deployment() {
    let mut registry = DeploymentRegistry::new();
    registry.insert("dev-environment-ab12cd34".to_string(), info("dev-environment-ab12cd34"));
    assert!(stop_outcome("dev-environment-ab12cd34", EngineReply::Done).is_ok());
    assert!(registry.finish_remove("dev-environment-ab12cd34", EngineReply::Done).is_ok());
    assert!(!registry.contains("dev-environment-ab12cd34"));
    assert_eq!(registry.len(), 0);
}

#[test]
fn stop_of_unknown_container_is_not_found() {
    match stop_outcome("ghost", EngineReply::NotFound) {
        Err(OrchestratorError::ContainerNotFound(n)) => assert_eq!(n, "ghost"),
        _ => panic!("expected ContainerNotFound"),
    }
    match stop_outcome("c", EngineReply::Failed("boom".to_string())) {
        Err(OrchestratorError::ContainerStopFailure(m)) => assert_eq!(m, "boom"),
        _ => panic!("expected ContainerStopFailure"),
    }
}

#[test]
fn create_start_and_inspect_failures() {
    let catalog = TemplateCatalog::with_builtin_templates();
    let mut registry = DeploymentRegistry::new();

    let mut s = match begin_deploy_with(&catalog, "dev-environment", None, 0) {
        Ok(s) => s,
        Err(_) => panic!("known"),
    };
    assert!(s.finish_build().is_ok());
    match s.on_created(Err("conflict".to_string())) {
        Err(OrchestratorError::ContainerCreateFailure(m)) => assert_eq!(m, "conflict"),
        _ => panic!("expected ContainerCreateFailure"),
    }
    assert_eq!(s.stage(), DeployStage::Failed);

    let mut s = match begin_deploy_with(&catalog, "dev-environment", None, 0) {
        Ok(s) => s,
        Err(_) => panic!("known"),
    };
    assert!(s.finish_build().is_ok());
    assert!(matches!(s.on_created(Ok(String::new())), Err(OrchestratorError::ContainerCreateFailure(_))));

    let mut s = match begin_deploy_with(&catalog, "dev-environment", None, 0) {
        Ok(s) => s,
        Err(_) => panic!("known"),
    };
    assert!(s.finish_build().is_ok());
    assert!(s.on_created(Ok("id1".to_string())).is_ok());
    match s.on_started(Err("port is already allocated".to_string())) {
        Err(OrchestratorError::ContainerStartFailure(m)) => assert_eq!(m, "port is already allocated"),
        _ => panic!("expected ContainerStartFailure"),
    }

    let mut s = match begin_deploy_with(&catalog, "dev-environment", Some("n".to_string()), 0) {
        Ok(s) => s,
        Err(_) => panic!("known"),
    };
    assert!(s.finish_build().is_ok());
    assert!(s.on_created(Ok("id2".to_string())).is_ok());
    assert!(s.on_started(Ok(())).is_ok());
    match s.on_inspected(&mut registry, Err("gone".to_string()), 1) {
        Err(OrchestratorError::ContainerInspectFailure(m)) => assert_eq!(m, "gone"),
        _ => panic!("expected ContainerInspectFailure"),
    }
    assert_eq!(registry.len(), 0);
}

#[test]
fn build_request_packages_recipe() {
    let catalog = TemplateCatalog::with_builtin_templates();
    let mut s = match begin_deploy_with(&catalog, "ml-training", None, 0) {
        Ok(s) => s,
        Err(_) => panic!("known"),
    };
    let req = match s.build_request() {
        Ok(r) => r,
        Err(_) => panic!("packaged"),
    };
    assert_eq!(req.tag, "agent-ml-training");
    assert_eq!(req.dockerfile, "Dockerfile");
    assert!(req.rm && req.forcerm && req.pull);
    assert_eq!(&req.context[0..10], b"Dockerfile");
    assert_eq!(req.context.len() % 512, 0);
    let recipe = s.template().dockerfile.as_bytes();
    assert!(req.context.len() > recipe.len());
    assert_eq!(&req.context[512..512 + recipe.len()], recipe);
    assert_eq!(s.stage(), DeployStage::Building);
}

fn good_replies(id: &str) -> EngineReplies {
    EngineReplies {
        build_items: vec![
            BuildStreamItem::Event { stream: Some("Step 1/1 : FROM ubuntu\n".to_string()), error: None },
            BuildStreamItem::Event { stream: None, error: None },
        ],
        created: Ok(id.to_string()),
        started: Ok(()),
        inspected: Ok(inspect_reply("web", &["8080"])),
    }
}

#[test]
fn whole_deploy_succeeds_when_engine_does() {
    let catalog = TemplateCatalog::with_builtin_templates();
    let mut registry = DeploymentRegistry::new();
    let run = deploy_with_replies(&catalog, &mut registry, "dev-environment", None, 0xab12cd34 << 96, good_replies("cid"), 5);
    assert_eq!(run.calls, vec![EngineCall::Build, EngineCall::Create, EngineCall::Start, EngineCall::Inspect]);
    let result = match run.outcome {
        Ok(r) => r,
        Err(_) => panic!("every engine call succeeded"),
    };
    assert!(result.success);
    assert_eq!(result.container_name, "dev-environment-ab12cd34");
    assert_eq!(result.container_id, Some("cid".to_string()));
    assert_eq!(result.build_logs, vec!["Step 1/1 : FROM ubuntu".to_string()]);
    assert_eq!(result.ports, vec!["0.0.0.0:8080".to_string()]);
    assert_eq!(registry.len(), 1);
    assert!(registry.contains("dev-environment-ab12cd34"));
}

#[test]
fn whole_deploy_of_unknown_template_makes_no_engine_call() {
    let catalog = TemplateCatalog::with_builtin_templates();
    let mut registry = DeploymentRegistry::new();
    let run = deploy_with_replies(&catalog, &mut registry, "unknown-id", Some("x".to_string()), 0, good_replies("cid"), 5);
    assert!(run.calls.is_empty());
    assert!(matches!(run.outcome, Err(OrchestratorError::TemplateNotFound(_))));
    assert_eq!(registry.len(), 0);
}

#[test]
fn whole_deploy_stops_at_build_failure() {
    let catalog = TemplateCatalog::with_builtin_templates();
    let mut registry = DeploymentRegistry::new();
    let mut replies = good_replies("cid");
    replies.build_items.push(BuildStreamItem::Event { stream: None, error: Some("boom".to_string()) });
    replies.build_items.push(BuildStreamItem::Event { stream: Some("after".to_string()), error: None });
    let run = deploy_with_replies(&catalog, &mut registry, "data-science", None, 0, replies, 5);
    assert_eq!(run.calls, vec![EngineCall::Build]);
    match run.outcome {
        Err(OrchestratorError::BuildFailure { message, logs }) => {
            assert_eq!(message, "Build error: boom");
            assert_eq!(logs, vec!["Step 1/1 : FROM ubuntu".to_string()]);
        },
        _ => panic!("expected a build failure"),
    }
    assert_eq!(registry.len(), 0);
}

#[test]
fn whole_deploy_stops_at_start_failure() {
    let catalog = TemplateCatalog::with_builtin_templates();
    let mut registry = DeploymentRegistry::new();
    let mut replies = good_replies("cid");
    replies.started = Err("port is already allocated".to_string());
    let run = deploy_with_replies(&catalog, &mut registry, "web-pentest", None, 0, replies, 5);
    assert_eq!(run.calls, vec![EngineCall::Build, EngineCall::Create, EngineCall::Start]);
    assert!(matches!(run.outcome, Err(OrchestratorError::ContainerStartFailure(_))));
    assert_eq!(registry.len(), 0);
}

#[test]
fn unicode_white_space_is_trimmed_from_logs() {
    let catalog = TemplateCatalog::with_builtin_templates();
    let mut session = match begin_deploy_with(&catalog, "ml-training", None, 0) {
        Ok(s) => s,
        Err(_) => panic!("known"),
    };
    assert!(session
        .on_build_item(BuildStreamItem::Event { stream: Some("\u{3000}\t step \u{a0}\r\n".to_string()), error: None })
        .is_ok());
    match session.on_build_item(BuildStreamItem::StreamError("x".to_string())) {
        Err(OrchestratorError::BuildFailure { logs, .. }) => assert_eq!(logs, vec!["step".to_string()]),
        _ => panic!("expected a build failure"),
    }
}
