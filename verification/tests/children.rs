use memshack::children::gateway::{GatewayDeployment, GatewayService};
use memshack::children::root::{RootDeployment, RootService};
use memshack::children::shard::{ShardService, ShardStatefulSet};
use memshack::k8s::{IntOrString, ServicePort};
use serde_json::Value;

fn strs(items: &[&str]) -> Vec<String> {
    items.iter().map(|s| s.to_string()).collect()
}

fn obj(entries: Vec<(&str, Value)>) -> Value {
    let mut m = serde_json::Map::new();
    for (k, v) in entries {
        m.insert(k.to_string(), v);
    }
    Value::Object(m)
}

fn str_array(items: &[&str]) -> Value {
    Value::Array(items.iter().map(|s| Value::String(s.to_string())).collect())
}

fn gateway() -> GatewayDeployment<'static> {
    GatewayDeployment {
        namespace: "prod",
        name: "cache-memshack",
        mcrouter_pool_size: 2,
        mcrouter_image: "mcrouter/mcrouter",
        mcrouter_port: 5000,
        shard_names: strs(&["cache-memshack-shard-0", "cache-memshack-shard-1"]),
    }
}

#[test]
fn gateway_deployment_metadata_and_pods() {
    let d = gateway().definition();
    assert_eq!(d.metadata.name.as_deref(), Some("cache-memshack"));
    assert_eq!(d.metadata.namespace.as_deref(), Some("prod"));
    let spec = d.spec.unwrap();
    assert_eq!(spec.replicas, Some(2));
    let labels = vec![("cache-memshack".to_string(), "gateway".to_string())];
    assert_eq!(spec.selector.match_labels, Some(labels.clone()));
    let meta = spec.template.metadata.unwrap();
    assert_eq!(meta.name.as_deref(), Some("cache-memshack-pod"));
    assert_eq!(meta.namespace.as_deref(), Some("prod"));
    assert_eq!(meta.labels, Some(labels));
    let pod = spec.template.spec.unwrap();
    assert_eq!(pod.service_account_name, None);
    assert_eq!(pod.containers.len(), 1);
    let c = &pod.containers[0];
    assert_eq!(c.name, "mcrouter");
    assert_eq!(c.image.as_deref(), Some("mcrouter/mcrouter"));
    let ports = c.ports.as_ref().unwrap();
    assert_eq!(ports.len(), 1);
    assert_eq!(ports[0].container_port, 5000);
    assert_eq!(ports[0].protocol.as_deref(), Some("TCP"));
    assert_eq!(ports[0].name, None);
}

#[test]
fn gateway_command_and_config() {
    let d = gateway().definition();
    let c = &d.spec.unwrap().template.spec.unwrap().containers[0];
    let command = c.command.as_ref().unwrap();
    let expected = "{\"pools\":{\"A\":{\"servers\":[\"cache-memshack-shard-0.prod.svc.cluster.local:5000\",\"cache-memshack-shard-1.prod.svc.cluster.local:5000\"]}},\"route\":\"PoolRoute|A\"}";
    assert_eq!(
        command,
        &strs(&[
            "mcrouter",
            &format!("--config-str={}", expected),
            "--asynclog-disable",
            "--async-dir",
            "/",
            "-p",
            "5000",
        ])
    );
}

#[test]
fn gateway_config_is_what_serde_json_writes() {
    let d = gateway().definition();
    let c = &d.spec.unwrap().template.spec.unwrap().containers[0];
    let flag = &c.command.as_ref().unwrap()[1];
    let config = flag.strip_prefix("--config-str=").unwrap();
    let value = obj(vec![
        (
            "pools",
            obj(vec![(
                "A",
                obj(vec![(
                    "servers",
                    str_array(&[
                        "cache-memshack-shard-0.prod.svc.cluster.local:5000",
                        "cache-memshack-shard-1.prod.svc.cluster.local:5000",
                    ]),
                )]),
            )]),
        ),
        ("route", Value::String("PoolRoute|A".to_string())),
    ]);
    assert_eq!(config, value.to_string());
}

#[test]
fn gateway_config_escapes_server_names() {
    let d = GatewayDeployment {
        namespace: "n\"s",
        name: "g",
        mcrouter_pool_size: 1,
        mcrouter_image: "img",
        mcrouter_port: 7,
        shard_names: strs(&["a\\b"]),
    }
    .definition();
    let c = &d.spec.unwrap().template.spec.unwrap().containers[0];
    let flag = &c.command.as_ref().unwrap()[1];
    assert_eq!(
        flag,
        "--config-str={\"pools\":{\"A\":{\"servers\":[\"a\\\\b.n\\\"s.svc.cluster.local:7\"]}},\"route\":\"PoolRoute|A\"}"
    );
}

#[test]
fn gateway_without_shards_has_an_empty_pool() {
    let d = GatewayDeployment {
        namespace: "prod",
        name: "g",
        mcrouter_pool_size: 0,
        mcrouter_image: "img",
        mcrouter_port: 5000,
        shard_names: Vec::new(),
    }
    .definition();
    let spec = d.spec.unwrap();
    assert_eq!(spec.replicas, Some(0));
    let c = &spec.template.spec.unwrap().containers[0];
    assert_eq!(
        c.command.as_ref().unwrap()[1],
        "--config-str={\"pools\":{\"A\":{\"servers\":[]}},\"route\":\"PoolRoute|A\"}"
    );
}

#[test]
fn gateway_ports_wrap_as_i32() {
    let port: usize = (1usize << 32) + 5;
    let d = GatewayDeployment {
        namespace: "prod",
        name: "g",
        mcrouter_pool_size: (1usize << 32) + 3,
        mcrouter_image: "img",
        mcrouter_port: port,
        shard_names: Vec::new(),
    }
    .definition();
    let spec = d.spec.unwrap();
    assert_eq!(spec.replicas, Some(3));
    let c = &spec.template.spec.unwrap().containers[0];
    assert_eq!(c.ports.as_ref().unwrap()[0].container_port, 5);
    assert_eq!(c.command.as_ref().unwrap()[6], port.to_string());
}

#[test]
fn gateway_service_selects_gateway_pods() {
    let s = GatewayService { namespace: "prod", name: "cache-memshack", port: 5000 }.definition();
    assert_eq!(s.metadata.name.as_deref(), Some("cache-memshack"));
    assert_eq!(s.metadata.namespace.as_deref(), Some("prod"));
    let spec = s.spec.unwrap();
    assert_eq!(spec.type_.as_deref(), Some("ClusterIP"));
    assert_eq!(spec.cluster_ip.as_deref(), Some(""));
    assert_eq!(
        spec.selector,
        Some(vec![("cache-memshack".to_string(), "gateway".to_string())])
    );
    assert_eq!(
        spec.ports,
        Some(vec![ServicePort { port: 5000, target_port: Some(IntOrString::Int(5000)) }])
    );
    let d = gateway().definition();
    let pod_labels = d.spec.unwrap().template.metadata.unwrap().labels.unwrap();
    for pair in spec.selector.unwrap() {
        assert!(pod_labels.contains(&pair));
    }
}

fn shard() -> ShardStatefulSet<'static> {
    ShardStatefulSet {
        shard_idx: 1,
        namespace: "prod",
        name: "cache-memshack-shard-1",
        num_replicas: 2,
        mcrouter_image: "mcrouter/mcrouter",
        memcached_image: "memcached:1.6-alpine",
        mcrouter_port: 5000,
    }
}

#[test]
fn shard_stateful_set_shape() {
    let s = shard().definition();
    assert_eq!(s.metadata.name.as_deref(), Some("cache-memshack-shard-1"));
    assert_eq!(s.metadata.namespace.as_deref(), Some("prod"));
    assert_eq!(s.metadata.labels, None);
    let spec = s.spec.unwrap();
    assert_eq!(spec.replicas, Some(2));
    let meta = spec.template.metadata.unwrap();
    assert_eq!(meta.name.as_deref(), Some("cache-memshack-shard-1-pod"));
    assert_eq!(meta.labels, None);
    let pod = spec.template.spec.unwrap();
    assert_eq!(pod.containers.len(), 2);
    assert_eq!(pod.containers[0].name, "mcrouter");
    assert_eq!(pod.containers[0].ports.as_ref().unwrap()[0].container_port, 5000);
    assert_eq!(pod.containers[1].name, "memcached");
    assert_eq!(pod.containers[1].image.as_deref(), Some("mcrouter/mcrouter"));
    assert_eq!(pod.containers[1].command, None);
    assert_eq!(pod.containers[1].ports.as_ref().unwrap()[0].container_port, 11211);
    assert_eq!(pod.containers[1].ports.as_ref().unwrap()[0].protocol.as_deref(), Some("TCP"));
}

#[test]
fn shard_config_is_what_serde_json_writes() {
    let s = shard().definition();
    let pod = s.spec.unwrap().template.spec.unwrap();
    let command = pod.containers[0].command.as_ref().unwrap();
    assert_eq!(command.len(), 4);
    assert_eq!(command[0], "mcrouter");
    assert_eq!(command[2], "-p");
    assert_eq!(command[3], "5000");
    let value = obj(vec![
        (
            "pools",
            obj(vec![(
                "A",
                obj(vec![(
                    "servers",
                    str_array(&[
                        "cache-memshack-shard-1-0.cache-memshack-shard-1.prod.svc.cluster.local:11211",
                        "cache-memshack-shard-1-1.cache-memshack-shard-1.prod.svc.cluster.local:11211",
                    ]),
                )]),
            )]),
        ),
        (
            "route",
            obj(vec![
                ("type", Value::String("OperationSelectorRoute".to_string())),
                (
                    "operation_policies",
                    obj(vec![
                        ("add", Value::String("AllSyncRoute|Pool|A".to_string())),
                        ("delete", Value::String("AllSyncRoute|Pool|A".to_string())),
                        ("get", Value::String("LatestRoute|Pool|A".to_string())),
                        ("set", Value::String("AllSyncRoute|Pool|A".to_string())),
                    ]),
                ),
            ]),
        ),
    ]);
    assert_eq!(command[1], format!("--config-str='{}'", value));
}

#[test]
fn shard_without_replicas_has_an_empty_pool() {
    let s = ShardStatefulSet { num_replicas: 0, ..shard() }.definition();
    let spec = s.spec.unwrap();
    assert_eq!(spec.replicas, Some(0));
    let command = spec.template.spec.unwrap().containers[0].command.clone().unwrap();
    assert!(command[1].starts_with("--config-str='{\"pools\":{\"A\":{\"servers\":[]}},"));
}

#[test]
fn shard_service_shape() {
    let s = ShardService { shard_idx: 0, namespace: "prod", name: "cache-memshack-shard-0", mcrouter_port: 5000 }
        .definition();
    assert_eq!(s.metadata.name.as_deref(), Some("cache-memshack-shard-0"));
    assert_eq!(s.metadata.namespace.as_deref(), Some("prod"));
    let spec = s.spec.unwrap();
    assert_eq!(spec.type_.as_deref(), Some("ClusterIP"));
    assert_eq!(spec.cluster_ip, None);
    assert_eq!(
        spec.selector,
        Some(vec![("app.kubernetes.io/name".to_string(), "cache-memshack-shard-0".to_string())])
    );
    assert_eq!(
        spec.ports,
        Some(vec![ServicePort { port: 5000, target_port: Some(IntOrString::Int(5000)) }])
    );
}

#[test]
fn root_deployment_is_empty() {
    let d = RootDeployment::definition();
    assert_eq!(d.metadata.name, None);
    assert_eq!(d.metadata.namespace, None);
    assert_eq!(d.metadata.labels, None);
    assert_eq!(d.spec, None);
}

#[test]
fn root_service_shape() {
    let s = RootService {
        namespace: "prod".to_string(),
        name: "root".to_string(),
        port: 8080,
        service_name: "backend".to_string(),
    }
    .definition();
    assert_eq!(s.metadata.name.as_deref(), Some("root"));
    assert_eq!(s.metadata.namespace.as_deref(), Some("prod"));
    let spec = s.spec.unwrap();
    assert_eq!(spec.type_.as_deref(), Some("ClusterIP"));
    assert_eq!(spec.cluster_ip, None);
    assert_eq!(spec.selector, Some(vec![("app.kubernetes.io/name".to_string(), "backend".to_string())]));
    assert_eq!(
        spec.ports,
        Some(vec![ServicePort { port: 8080, target_port: Some(IntOrString::Int(8080)) }])
    );
}
