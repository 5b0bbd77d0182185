use memshack::crd::{
    default_mcrouter_image, default_mcrouter_pool_size, default_mcrouter_port, default_memcached_image,
    default_memcached_port, default_num_replicas, default_num_shards, McrouterStatus, PoolSetup,
};
use memshack::k8s::{PolicyRule, RoleRef, Subject};
use memshack::operator::{deployment, role, role_binding, service_account, OPERATOR_NAME};
use memshack::scale_crd;

fn strs(items: &[&str]) -> Vec<String> {
    items.iter().map(|s| s.to_string()).collect()
}

#[test]
fn operator_deployment_shape() {
    let d = deployment();
    assert_eq!(d.metadata.name.as_deref(), Some("memshack-operator"));
    assert_eq!(d.metadata.namespace, None);
    let spec = d.spec.unwrap();
    assert_eq!(spec.replicas, Some(2));
    let labels = vec![("name".to_string(), "memshack-operator".to_string())];
    assert_eq!(spec.selector.match_labels, Some(labels.clone()));
    let meta = spec.template.metadata.unwrap();
    assert_eq!(meta.name.as_deref(), Some("memshack-operator"));
    assert_eq!(meta.labels, Some(labels));
    let pod = spec.template.spec.unwrap();
    assert_eq!(pod.service_account_name.as_deref(), Some("memshack-operator"));
    assert_eq!(pod.containers.len(), 1);
    let c = &pod.containers[0];
    assert_eq!(c.name, "operator");
    assert_eq!(c.image.as_deref(), Some("memshack-operator:latest"));
    assert_eq!(c.image_pull_policy.as_deref(), Some("Never"));
    assert_eq!(c.command, None);
    let ports = c.ports.as_ref().unwrap();
    assert_eq!(ports.len(), 1);
    assert_eq!(ports[0].container_port, 3000);
    assert_eq!(ports[0].name.as_deref(), Some("https"));
    assert_eq!(ports[0].protocol.as_deref(), Some("TCP"));
}

#[test]
fn operator_service_account_shape() {
    let a = service_account();
    assert_eq!(a.metadata.name.as_deref(), Some(OPERATOR_NAME));
    assert_eq!(a.metadata.namespace, None);
    assert_eq!(a.metadata.labels, None);
}

#[test]
fn operator_role_binding_binds_role_to_account() {
    let b = role_binding();
    assert_eq!(b.metadata.name.as_deref(), Some("memshack-operator"));
    assert_eq!(
        b.subjects,
        Some(vec![Subject {
            kind: "ServiceAccount".to_string(),
            name: "memshack-operator".to_string(),
            namespace: Some("default".to_string()),
        }])
    );
    assert_eq!(
        b.role_ref,
        RoleRef {
            api_group: "rbac.authorization.k8s.io".to_string(),
            kind: "ClusterRole".to_string(),
            name: "memshack-operator".to_string(),
        }
    );
    assert_eq!(role().metadata.name, Some(b.role_ref.name.clone()));
    assert_eq!(service_account().metadata.name, Some(b.subjects.unwrap()[0].name.clone()));
}

fn allow_all(group: &str, resources: &[&str]) -> PolicyRule {
    PolicyRule {
        api_groups: Some(strs(&[group])),
        resources: Some(strs(resources)),
        resource_names: None,
        verbs: strs(&["*"]),
    }
}

#[test]
fn operator_role_rules() {
    let r = role();
    assert_eq!(r.metadata.name.as_deref(), Some("memshack-operator"));
    assert_eq!(
        r.rules,
        Some(vec![
            allow_all(
                "",
                &["pods", "services", "endpoints", "persistentvolumeclaims", "events", "configmaps", "secrets"],
            ),
            allow_all("apps", &["deployments", "daemonsets", "replicasets", "statefulsets"]),
            PolicyRule {
                api_groups: Some(strs(&["apps"])),
                resources: Some(strs(&["deployments/finalizers"])),
                resource_names: Some(strs(&["memshack-operator"])),
                verbs: strs(&["update"]),
            },
            allow_all("example.memcached.com", &["*"]),
            allow_all("example.memshack.com", &["*", "memshacks"]),
        ])
    );
}

#[test]
fn crd_defaults() {
    assert_eq!(default_mcrouter_image(), "mcrouter/mcrouter");
    assert_eq!(default_memcached_image(), "memcached:1.6-alpine");
    assert_eq!(default_mcrouter_port(), 5000);
    assert_eq!(default_memcached_port(), 11211);
    assert_eq!(default_mcrouter_pool_size(), 2);
    assert_eq!(default_num_shards(), 3);
    assert_eq!(default_num_replicas(), 2);
}

#[test]
fn status_and_pool_setup_defaults() {
    assert_eq!(McrouterStatus::default(), McrouterStatus { pods: Vec::new() });
    assert_eq!(PoolSetup::default(), PoolSetup::Replicated);
    assert_ne!(PoolSetup::default(), PoolSetup::Sharded);
    assert_eq!(scale_crd::McrouterStatus::default(), scale_crd::McrouterStatus { pods: Vec::new() });
    assert_eq!(scale_crd::McrouterSpec { replicas: 4 }.replicas, 4);
    assert_eq!(scale_crd::FINALIZER, "mcrouter.example.com");
}
