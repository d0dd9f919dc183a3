use agent_container_orchestrator::catalog::TemplateCatalog;
use agent_container_orchestrator::inspect::{
    container_info_from_inspect, container_info_from_summary, resolve_ports, ContainerSummaryReply,
    HostPortBinding, InspectReply, InspectedPort, SummaryPort,
};
use agent_container_orchestrator::lifecycle::{containers_from_listing, remove_request};
use agent_container_orchestrator::model::{EnvVar, PortMapping, ResourceLimits};
use agent_container_orchestrator::host_config::{env_string, port_binding};
use agent_container_orchestrator::naming::fresh_id;
use agent_container_orchestrator::registry::DeploymentRegistry;
use agent_container_orchestrator::error::OrchestratorError;
use agent_container_orchestrator::text::{decimal_string, hex_fixed_string, signed_decimal_string, trim_leading_slashes};
use agent_container_orchestrator::image_build::{build_request_from_archive, image_tag};

#[test]
fn decimal_rendering() {
    assert_eq!(decimal_string(0), "0");
    assert_eq!(decimal_string(8080), "8080");
    assert_eq!(decimal_string(u64::MAX), "18446744073709551615");
    assert_eq!(signed_decimal_string(-42), "-42");
    assert_eq!(signed_decimal_string(i64::MIN), "-9223372036854775808");
    assert_eq!(signed_decimal_string(1700000000), "1700000000");
}

#[test]
fn hex_rendering() {
    assert_eq!(hex_fixed_string(0xab, 8), "000000ab");
    assert_eq!(hex_fixed_string(0x1234_5678_9abc, 4), "9abc");
    assert_eq!(hex_fixed_string(7, 0), "");
}

#[test]
fn leading_slashes_are_stripped() {
    assert_eq!(trim_leading_slashes("/web"), "web");
    assert_eq!(trim_leading_slashes("//a/b"), "a/b");
    assert_eq!(trim_leading_slashes(""), "");
    assert_eq!(trim_leading_slashes("plain"), "plain");
}

#[test]
fn port_binding_and_env_entry() {
    let p = PortMapping { host_port: 8889, container_port: 8888, protocol: "udp".to_string() };
    let b = port_binding(&p);
    assert_eq!(b.container_port, "8888/udp");
    assert_eq!(b.host_ip, "0.0.0.0");
    assert_eq!(b.host_port, "8889");
    let e = EnvVar { name: "JUPYTER_TOKEN".to_string(), value: String::new() };
    assert_eq!(env_string(&e), "JUPYTER_TOKEN=");
}

#[test]
fn image_tag_prefixes_template_id() {
    assert_eq!(image_tag("data-science"), "agent-data-science");
}

#[test]
fn inspected_ports_resolve_first_binding() {
    let ports = vec![
        InspectedPort {
            container_port: "8080/tcp".to_string(),
            bindings: Some(vec![
                HostPortBinding { host_ip: None, host_port: Some("8080".to_string()) },
                HostPortBinding { host_ip: Some("::".to_string()), host_port: Some("8080".to_string()) },
            ]),
        },
        InspectedPort { container_port: "9000/tcp".to_string(), bindings: None },
        InspectedPort { container_port: "9001/tcp".to_string(), bindings: Some(vec![]) },
        InspectedPort {
            container_port: "53/udp".to_string(),
            bindings: Some(vec![HostPortBinding { host_ip: Some("127.0.0.1".to_string()), host_port: None }]),
        },
    ];
    assert_eq!(resolve_ports(&ports), vec!["0.0.0.0:8080".to_string(), "127.0.0.1:?".to_string()]);
}

#[test]
fn inspect_reply_becomes_info() {
    let reply = InspectReply {
        name: Some("/dev-environment-ab12cd34".to_string()),
        image: Some("agent-dev-environment".to_string()),
        status: Some("running".to_string()),
        created: None,
        ports: vec![],
    };
    let info = container_info_from_inspect("abc", &reply);
    assert_eq!(info.id, "abc");
    assert_eq!(info.name, "dev-environment-ab12cd34");
    assert_eq!(info.image, "agent-dev-environment");
    assert_eq!(info.status, "running");
    assert_eq!(info.state, "running");
    assert_eq!(info.created, "");
    assert!(info.ports.is_empty());
}

#[test]
fn summary_becomes_info() {
    let s = ContainerSummaryReply {
        id: Some("123".to_string()),
        names: Some(vec!["/web".to_string(), "/alias".to_string()]),
        image: Some("nginx".to_string()),
        status: Some("Up 2 minutes".to_string()),
        state: Some("running".to_string()),
        created: Some(1700000000),
        ports: Some(vec![
            SummaryPort { public_port: Some(8080), private_port: 80 },
            SummaryPort { public_port: None, private_port: 443 },
        ]),
    };
    let info = container_info_from_summary(&s);
    assert_eq!(info.id, "123");
    assert_eq!(info.name, "web");
    assert_eq!(info.image, "nginx");
    assert_eq!(info.status, "Up 2 minutes");
    assert_eq!(info.state, "running");
    assert_eq!(info.created, "1700000000");
    assert_eq!(info.ports, vec!["8080:80".to_string(), "0:443".to_string()]);

    let bare = ContainerSummaryReply {
        id: None,
        names: None,
        image: None,
        status: None,
        state: None,
        created: None,
        ports: None,
    };
    let info = container_info_from_summary(&bare);
    assert_eq!(info.name, "unknown");
    assert_eq!(info.id, "");
    assert!(info.ports.is_empty());
}

#[test]
fn listing_keeps_order_and_reports_failure() {
    let one = |n: &str| ContainerSummaryReply {
        id: Some(n.to_string()),
        names: Some(vec![format!("/{}", n)]),
        image: None,
        status: None,
        state: None,
        created: None,
        ports: None,
    };
    match containers_from_listing(Ok(vec![one("a"), one("b")])) {
        Ok(infos) => {
            assert_eq!(infos.len(), 2);
            assert_eq!(infos[0].name, "a");
            assert_eq!(infos[1].name, "b");
        },
        Err(_) => panic!("listing succeeded"),
    }
    match containers_from_listing(Err("daemon down".to_string())) {
        Err(OrchestratorError::ContainerListFailure(m)) => assert_eq!(m, "daemon down"),
        _ => panic!("expected ContainerListFailure"),
    }
}

#[test]
fn remove_request_removes_volumes() {
    let r = remove_request("web", false);
    assert_eq!(r.name, "web");
    assert!(!r.force);
    assert!(r.remove_volumes);
}

#[test]
fn catalog_registers_each_id_once() {
    let mut catalog = TemplateCatalog::with_builtin_templates();
    let ids: Vec<String> = catalog.list().into_iter().map(|t| t.id).collect();
    assert_eq!(ids, vec!["cybersec-lab", "dev-environment", "data-science", "ml-training", "web-pentest"]);
    let again = match catalog.get("web-pentest") {
        Some(t) => t,
        None => panic!("built in"),
    };
    assert!(!catalog.register(again));
    assert_eq!(catalog.len(), 5);
    let mut extra = match catalog.get("web-pentest") {
        Some(t) => t,
        None => panic!("built in"),
    };
    extra.id = "custom".to_string();
    extra.resource_limits = ResourceLimits { memory_mb: None, cpu_shares: None, swap_mb: None };
    assert!(catalog.register(extra));
    assert_eq!(catalog.len(), 6);
    assert!(catalog.get("custom").is_some());
    assert!(catalog.get("nope").is_none());
    let mut empty = TemplateCatalog::new();
    assert_eq!(empty.len(), 0);
    assert!(empty.get("dev-environment").is_none());
    let t = match catalog.get("custom") {
        Some(t) => t,
        None => panic!("registered"),
    };
    assert!(empty.register(t));
}

#[test]
fn builtin_template_limits() {
    let catalog = TemplateCatalog::with_builtin_templates();
    let t = match catalog.get("cybersec-lab") {
        Some(t) => t,
        None => panic!("built in"),
    };
    assert_eq!(t.resource_limits, ResourceLimits { memory_mb: Some(4096), cpu_shares: Some(2048), swap_mb: Some(2048) });
    assert_eq!(t.ports.len(), 3);
    assert!(t.dockerfile.starts_with("FROM kalilinux/kali-rolling:latest"));
    assert_eq!(t.name, "Cybersecurity Lab Environment");
}

#[test]
fn registry_insert_replaces_and_lists_names() {
    let mut registry = DeploymentRegistry::new();
    let mk = |id: &str| agent_container_orchestrator::model::ContainerInfo {
        id: id.to_string(),
        name: "n".to_string(),
        image: String::new(),
        status: String::new(),
        state: String::new(),
        created: String::new(),
        ports: vec![],
    };
    registry.insert("n".to_string(), mk("first"));
    registry.insert("m".to_string(), mk("other"));
    registry.insert("n".to_string(), mk("second"));
    assert_eq!(registry.len(), 2);
    match registry.get("n") {
        Some(e) => assert_eq!(e.id, "second"),
        None => panic!("recorded"),
    }
    let mut names = registry.names();
    names.sort();
    assert_eq!(names, vec!["m".to_string(), "n".to_string()]);
    registry.remove("n");
    registry.remove("n");
    assert_eq!(registry.len(), 1);
}

#[test]
fn fresh_ids_differ() {
    assert_ne!(fresh_id(), fresh_id());
}

#[test]
fn registry_list_is_a_snapshot() {
    let mut registry = DeploymentRegistry::new();
    let mk = |id: &str| agent_container_orchestrator::model::ContainerInfo {
        id: id.to_string(),
        name: id.to_string(),
        image: String::new(),
        status: String::new(),
        state: String::new(),
        created: String::new(),
        ports: vec!["0.0.0.0:80".to_string()],
    };
    registry.insert("a".to_string(), mk("1"));
    registry.insert("b".to_string(), mk("2"));
    let mut entries = registry.list();
    entries[0].1.id = "changed".to_string();
    assert_eq!(entries.len(), 2);
    match registry.get(&entries[0].0) {
        Some(e) => assert_ne!(e.id, "changed"),
        None => panic!("listed names are recorded"),
    }
    let mut ids: Vec<String> = registry.list().into_iter().map(|(_, info)| info.id).collect();
    ids.sort();
    assert_eq!(ids, vec!["1".to_string(), "2".to_string()]);
}

#[test]
fn unpackaged_context_fails_build_without_logs() {
    match build_request_from_archive(None, "agent-x") {
        Err(OrchestratorError::BuildFailure { logs, .. }) => assert!(logs.is_empty()),
        _ => panic!("expected a build failure"),
    }
    match build_request_from_archive(Some(vec![1, 2, 3]), "agent-x") {
        Ok(req) => {
            assert_eq!(req.context, vec![1, 2, 3]);
            assert_eq!(req.tag, "agent-x");
        },
        Err(_) => panic!("packaged context"),
    }
}
