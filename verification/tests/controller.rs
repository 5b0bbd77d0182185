use memshack::controller::{
    get_current_status_message, get_desired_children, handle_error, handle_sync, make_shard_name, Child,
};
use memshack::crd::{Mcrouter, McrouterSpec};
use memshack::k8s::ObjectMeta;
use memshack::text::{json_string_list, usize_to_string};
use std::collections::HashSet;

fn resource(num_shards: usize) -> Mcrouter {
    Mcrouter {
        metadata: ObjectMeta {
            name: Some("cache".to_string()),
            namespace: Some("prod".to_string()),
            labels: None,
        },
        spec: McrouterSpec {
            mcrouter_image: "mcrouter/mcrouter".to_string(),
            memcached_image: "memcached:1.6-alpine".to_string(),
            mcrouter_port: 5000,
            memcached_port: 11211,
            mcrouter_pool_size: 2,
            num_shards,
            num_replicas: 3,
        },
        status: None,
    }
}

fn child_name(c: &Child) -> String {
    match c {
        Child::Deployment(d) => d.metadata.name.clone().unwrap(),
        Child::Service(s) => s.metadata.name.clone().unwrap(),
        Child::StatefulSet(s) => s.metadata.name.clone().unwrap(),
    }
}

#[test]
fn decimal_rendering() {
    assert_eq!(usize_to_string(0), "0");
    assert_eq!(usize_to_string(7), "7");
    assert_eq!(usize_to_string(10), "10");
    assert_eq!(usize_to_string(11211), "11211");
    assert_eq!(usize_to_string(usize::MAX), usize::MAX.to_string());
}

#[test]
fn json_string_lists() {
    assert_eq!(json_string_list(&Vec::new()), "");
    assert_eq!(json_string_list(&vec!["a".to_string()]), "\"a\"");
    assert_eq!(json_string_list(&vec!["a".to_string(), "b\"c".to_string()]), "\"a\",\"b\\\"c\"");
    assert_eq!(json_string_list(&vec!["line\nbreak".to_string()]), "\"line\\nbreak\"");
}

#[test]
fn shard_names() {
    assert_eq!(make_shard_name("cache", 0), "cache-memshack-shard-0");
    assert_eq!(make_shard_name("cache", 12), "cache-memshack-shard-12");
    assert_ne!(make_shard_name("cache", 1), make_shard_name("cache", 11));
}

#[test]
fn children_layout() {
    let children = get_desired_children(&resource(3));
    assert_eq!(children.len(), 8);
    let names: Vec<String> = children.iter().map(child_name).collect();
    assert_eq!(
        names,
        vec![
            "cache-memshack",
            "cache-memshack",
            "cache-memshack-shard-0",
            "cache-memshack-shard-0",
            "cache-memshack-shard-1",
            "cache-memshack-shard-1",
            "cache-memshack-shard-2",
            "cache-memshack-shard-2",
        ]
    );
    assert!(matches!(children[0], Child::Deployment(_)));
    assert!(matches!(children[1], Child::Service(_)));
    for i in 0..3 {
        assert!(matches!(children[2 + 2 * i], Child::Service(_)));
        assert!(matches!(children[3 + 2 * i], Child::StatefulSet(_)));
    }
}

#[test]
fn children_names_distinct_per_kind() {
    let children = get_desired_children(&resource(12));
    assert_eq!(children.len(), 26);
    let mut seen = HashSet::new();
    for c in &children {
        let kind = match c {
            Child::Deployment(_) => 0,
            Child::Service(_) => 1,
            Child::StatefulSet(_) => 2,
        };
        assert!(seen.insert((kind, child_name(c))));
    }
}

#[test]
fn no_shards_gives_only_the_gateway() {
    let children = get_desired_children(&resource(0));
    assert_eq!(children.len(), 2);
    match &children[0] {
        Child::Deployment(d) => {
            let c = &d.spec.as_ref().unwrap().template.spec.as_ref().unwrap().containers[0];
            assert_eq!(
                c.command.as_ref().unwrap()[1],
                "--config-str={\"pools\":{\"A\":{\"servers\":[]}},\"route\":\"PoolRoute|A\"}"
            );
        }
        _ => panic!("the first child is the gateway deployment"),
    }
}

#[test]
fn gateway_routes_to_each_shard_service() {
    let children = get_desired_children(&resource(2));
    let config = match &children[0] {
        Child::Deployment(d) => {
            d.spec.as_ref().unwrap().template.spec.as_ref().unwrap().containers[0].command.as_ref().unwrap()[1].clone()
        }
        _ => panic!("the first child is the gateway deployment"),
    };
    for i in 0..2 {
        match &children[2 + 2 * i] {
            Child::Service(s) => {
                let name = s.metadata.name.clone().unwrap();
                let port = s.spec.as_ref().unwrap().ports.as_ref().unwrap()[0].port;
                let address = format!("\"{}.prod.svc.cluster.local:{}\"", name, port);
                assert!(config.contains(&address));
            }
            _ => panic!("shard children start with a service"),
        }
    }
}

#[test]
fn shard_stateful_sets_list_every_replica() {
    let children = get_desired_children(&resource(1));
    match &children[3] {
        Child::StatefulSet(s) => {
            let spec = s.spec.as_ref().unwrap();
            assert_eq!(spec.replicas, Some(3));
            let flag = &spec.template.spec.as_ref().unwrap().containers[0].command.as_ref().unwrap()[1];
            for r in 0..3 {
                let address = format!(
                    "\"cache-memshack-shard-0-{}.cache-memshack-shard-0.prod.svc.cluster.local:11211\"",
                    r
                );
                assert!(flag.contains(&address));
            }
            assert!(!flag.contains("cache-memshack-shard-0-3."));
        }
        _ => panic!("the fourth child is the first shard's stateful set"),
    }
}

#[test]
fn status_messages() {
    assert_eq!(get_current_status_message(Some("all good")), "all good");
    assert_eq!(get_current_status_message(Some("")), "");
    assert_eq!(get_current_status_message(None), "Waiting for Pod to be initialized");
}

#[test]
fn sync_reports_running() {
    let cr = resource(2);
    let r = handle_sync(&cr, None);
    assert_eq!(r.status.message, "Waiting for Pod to be initialized");
    assert_eq!(r.status.phase, "Running");
    assert_eq!(r.resync, None);
    assert_eq!(r.children, get_desired_children(&cr));
    let r = handle_sync(&cr, Some("ready"));
    assert_eq!(r.status.message, "ready");
}

#[test]
fn errors_are_reported() {
    let (status, resync) = handle_error("parent could not be read");
    assert_eq!(status.message, "parent could not be read");
    assert_eq!(status.phase, "Error");
    assert_eq!(resync, None);
}

#[test]
fn pools_list_each_server_once() {
    let mut cr = resource(12);
    cr.spec.num_replicas = 12;
    let children = get_desired_children(&cr);
    let mut configs = Vec::new();
    for c in &children {
        let (pod, prefix, suffix) = match c {
            Child::Deployment(d) => (d.spec.as_ref().unwrap().template.spec.as_ref().unwrap(), "--config-str=", ""),
            Child::StatefulSet(s) => (s.spec.as_ref().unwrap().template.spec.as_ref().unwrap(), "--config-str='", "'"),
            Child::Service(_) => continue,
        };
        let flag = &pod.containers[0].command.as_ref().unwrap()[1];
        let json = flag.strip_prefix(prefix).unwrap().strip_suffix(suffix).unwrap();
        configs.push(serde_json::from_str::<serde_json::Value>(json).unwrap());
    }
    assert_eq!(configs.len(), 13);
    for config in configs {
        let servers = config["pools"]["A"]["servers"].as_array().unwrap();
        assert_eq!(servers.len(), 12);
        let distinct: HashSet<&str> = servers.iter().map(|s| s.as_str().unwrap()).collect();
        assert_eq!(distinct.len(), 12);
    }
}
