//! A shard: a stateful set of pods that each run mcrouter beside a
//! memcached, replicating every write to all replicas of the shard, and the
//! service in front of it.
use crate::k8s::{
    IntOrStringView, forwarded_port, forwarded_port_list, single_label,
    lemma_push_deep_view, owned, Container, ContainerPort, ContainerPortView, ContainerView,
    ObjectMeta, ObjectMetaView, PodSpec, PodSpecView, PodTemplateSpec, PodTemplateSpecView, Service,
    ServiceSpec, ServiceSpecView, ServiceView, StatefulSet, StatefulSetSpec, StatefulSetSpecView,
    StatefulSetView,
};
use crate::text::{decimal, join, json_string_literal, json_string_elements, json_string_list, usize_to_string};
use crate::MEMCACHED_PORT;
use vstd::prelude::*;

verus! {

/// Inputs of a shard's stateful set.
pub struct ShardStatefulSet<'a> {
    pub shard_idx: usize,
    pub namespace: &'a str,
    pub name: &'a str,
    pub num_replicas: usize,
    pub mcrouter_image: &'a str,
    pub memcached_image: &'a str,
    pub mcrouter_port: usize,
}

/// The memcached address of one replica of a shard:
/// `{name}-{replica}.{name}.{namespace}.svc.cluster.local:{memcached port}`.
pub open spec fn replica_server_address(name: Seq<char>, namespace: Seq<char>, replica: nat) -> Seq<char> {
    name + "-"@ + decimal(replica) + "."@ + name + "."@ + namespace + ".svc.cluster.local:"@ + decimal(
        MEMCACHED_PORT as nat,
    )
}

/// The servers of a shard's pool: one address per replica, replicas
/// `0..num_replicas` in order.
pub open spec fn shard_servers(name: Seq<char>, namespace: Seq<char>, num_replicas: nat) -> Seq<Seq<char>> {
    Seq::new(num_replicas, |i: int| replica_server_address(name, namespace, i as nat))
}

/// The mcrouter configuration of a shard, as compact JSON: one pool `A` of
/// `servers`; adds, deletes and sets go to every server, gets to the
/// server with the latest value.
pub open spec fn shard_config(servers: Seq<Seq<char>>) -> Seq<char> {
    "{\"pools\":{\"A\":{\"servers\":["@ + json_string_elements(servers)
        + "]}},\"route\":{\"operation_policies\":{\"add\":\"AllSyncRoute|Pool|A\",\"delete\":\"AllSyncRoute|Pool|A\",\"get\":\"LatestRoute|Pool|A\",\"set\":\"AllSyncRoute|Pool|A\"},\"type\":\"OperationSelectorRoute\"}}"@
}

/// The command line of a shard's mcrouter container.
pub open spec fn shard_command(config: Seq<char>, port: nat) -> Seq<Seq<char>> {
    seq!["mcrouter"@, "--config-str='"@ + config + "'"@, "-p"@, decimal(port)]
}

/// The one TCP port of a container.
pub open spec fn tcp_port(port: i32) -> Seq<ContainerPortView> {
    seq![ContainerPortView { container_port: port, name: None, protocol: Some("TCP"@) }]
}

/// The containers of a shard's pods: mcrouter, then memcached. Both run
/// `mcrouter_image`.
pub open spec fn shard_containers(
    namespace: Seq<char>,
    name: Seq<char>,
    num_replicas: usize,
    mcrouter_image: Seq<char>,
    mcrouter_port: usize,
) -> Seq<ContainerView> {
    seq![
        ContainerView {
            name: "mcrouter"@,
            image: Some(mcrouter_image),
            image_pull_policy: None,
            command: Some(
                shard_command(
                    shard_config(shard_servers(name, namespace, num_replicas as nat)),
                    mcrouter_port as nat,
                ),
            ),
            ports: Some(tcp_port(mcrouter_port as i32)),
        },
        ContainerView {
            name: "memcached"@,
            image: Some(mcrouter_image),
            image_pull_policy: None,
            command: None,
            ports: Some(tcp_port(MEMCACHED_PORT as i32)),
        },
    ]
}

/// The stateful set of a shard for the given inputs.
pub open spec fn shard_stateful_set(
    namespace: Seq<char>,
    name: Seq<char>,
    num_replicas: usize,
    mcrouter_image: Seq<char>,
    mcrouter_port: usize,
) -> StatefulSetView {
    StatefulSetView {
        metadata: ObjectMetaView { name: Some(name), namespace: Some(namespace), labels: None },
        spec: Some(
            StatefulSetSpecView {
                replicas: Some(num_replicas as i32),
                template: PodTemplateSpecView {
                    metadata: Some(
                        ObjectMetaView {
                            name: Some(name + "-pod"@),
                            namespace: Some(namespace),
                            labels: None,
                        },
                    ),
                    spec: Some(
                        PodSpecView {
                            containers: shard_containers(
                                namespace,
                                name,
                                num_replicas,
                                mcrouter_image,
                                mcrouter_port,
                            ),
                            service_account_name: None,
                        },
                    ),
                },
            },
        ),
    }
}

/// The one-port list `[port/TCP]` of a container.
fn tcp_port_list(port: i32) -> (ports: Vec<ContainerPort>)
    ensures
        ports.deep_view() == tcp_port(port),
{
    let ports = vec![ContainerPort { container_port: port, name: None, protocol: Some(owned("TCP")) }];
    assert(ports.deep_view() =~= tcp_port(port));
    ports
}

impl<'a> ShardStatefulSet<'a> {
    /// The shard's stateful set: `num_replicas` pods, each running mcrouter
    /// on `mcrouter_port` (configured to replicate across all replicas of
    /// the shard) and memcached on the memcached port.
    pub fn definition(self) -> (s: StatefulSet)
        ensures
            s@ == shard_stateful_set(
                self.namespace@,
                self.name@,
                self.num_replicas,
                self.mcrouter_image@,
                self.mcrouter_port,
            ),
            s@.metadata.name == Some(self.name@),
            s@.metadata.namespace == Some(self.namespace@),
            s@.spec->0.replicas == Some(self.num_replicas as i32),
            s@.spec->0.template.spec->0.containers.len() == 2,
            s@.spec->0.template.spec->0.containers[0].name == "mcrouter"@,
            s@.spec->0.template.spec->0.containers[0].image == Some(self.mcrouter_image@),
            s@.spec->0.template.spec->0.containers[0].ports->0[0].container_port == self.mcrouter_port as i32,
            s@.spec->0.template.spec->0.containers[0].command->0[3] == decimal(self.mcrouter_port as nat),
            s@.spec->0.template.spec->0.containers[1].name == "memcached"@,
            s@.spec->0.template.spec->0.containers[1].ports->0[0].container_port == MEMCACHED_PORT as i32,
    {
        let config = self.config_json();
        let mut config_flag = owned("--config-str='");
        config_flag.append(config.as_str());
        config_flag.append("'");
        let command = vec![owned("mcrouter"), config_flag, owned("-p"), usize_to_string(self.mcrouter_port)];
        assert(command.deep_view() =~= shard_command(config@, self.mcrouter_port as nat));
        let containers = vec![
            Container {
                name: owned("mcrouter"),
                image: Some(owned(self.mcrouter_image)),
                image_pull_policy: None,
                command: Some(command),
                ports: Some(tcp_port_list(#[verifier::truncate] (self.mcrouter_port as i32))),
            },
            Container {
                name: owned("memcached"),
                image: Some(owned(self.mcrouter_image)),
                image_pull_policy: None,
                command: None,
                ports: Some(tcp_port_list(MEMCACHED_PORT as i32)),
            },
        ];
        assert(containers.deep_view() =~= shard_containers(
            self.namespace@,
            self.name@,
            self.num_replicas,
            self.mcrouter_image@,
            self.mcrouter_port,
        ));
        let mut pod_name = owned(self.name);
        pod_name.append("-pod");
        proof {
            lemma_shard_stateful_set_runs_mcrouter_and_memcached(
                self.namespace@,
                self.name@,
                self.num_replicas,
                self.mcrouter_image@,
                self.mcrouter_port,
            );
        }
        StatefulSet {
            metadata: ObjectMeta {
                name: Some(owned(self.name)),
                namespace: Some(owned(self.namespace)),
                labels: None,
            },
            spec: Some(
                StatefulSetSpec {
                    replicas: Some(#[verifier::truncate] (self.num_replicas as i32)),
                    template: PodTemplateSpec {
                        metadata: Some(
                            ObjectMeta {
                                name: Some(pod_name),
                                namespace: Some(owned(self.namespace)),
                                labels: None,
                            },
                        ),
                        spec: Some(PodSpec { containers, service_account_name: None }),
                    },
                },
            ),
        }
    }

    /// The shard's mcrouter configuration.
    fn config_json(&self) -> (config: String)
        ensures
            config@ == shard_config(shard_servers(self.name@, self.namespace@, self.num_replicas as nat)),
    {
        let ghost expected = shard_servers(self.name@, self.namespace@, self.num_replicas as nat);
        let memcached_port = usize_to_string(MEMCACHED_PORT);
        let mut servers: Vec<String> = Vec::new();
        let n = self.num_replicas;
        for i in 0..n
            invariant
                n == self.num_replicas,
                memcached_port@ == decimal(MEMCACHED_PORT as nat),
                expected == shard_servers(self.name@, self.namespace@, self.num_replicas as nat),
                servers.deep_view() =~= expected.take(i as int),
        {
            let mut address = owned(self.name);
            address.append("-");
            let replica = usize_to_string(i);
            address.append(replica.as_str());
            address.append(".");
            address.append(self.name);
            address.append(".");
            address.append(self.namespace);
            address.append(".svc.cluster.local:");
            address.append(memcached_port.as_str());
            assert(address@ == expected[i as int]);
            let ghost before = servers;
            let ghost item = address;
            servers.push(address);
            proof {
                lemma_push_deep_view(before, servers, item);
            }
            assert(servers.deep_view() =~= expected.take(i + 1));
        }
        assert(expected.take(n as int) =~= expected);
        let elements = json_string_list(&servers);
        let mut config = owned("{\"pools\":{\"A\":{\"servers\":[");
        config.append(elements.as_str());
        config.append(
            "]}},\"route\":{\"operation_policies\":{\"add\":\"AllSyncRoute|Pool|A\",\"delete\":\"AllSyncRoute|Pool|A\",\"get\":\"LatestRoute|Pool|A\",\"set\":\"AllSyncRoute|Pool|A\"},\"type\":\"OperationSelectorRoute\"}}",
        );
        config
    }
}

/// Inputs of a shard's service.
pub struct ShardService<'a> {
    pub shard_idx: usize,
    pub namespace: &'a str,
    pub name: &'a str,
    pub mcrouter_port: usize,
}

/// The service of a shard for the given inputs: a cluster-IP service on
/// `mcrouter_port` selecting the pods labelled
/// `{app.kubernetes.io/name: name}`.
pub open spec fn shard_service(namespace: Seq<char>, name: Seq<char>, mcrouter_port: usize) -> ServiceView {
    ServiceView {
        metadata: ObjectMetaView { name: Some(name), namespace: Some(namespace), labels: None },
        spec: Some(
            ServiceSpecView {
                type_: Some("ClusterIP"@),
                cluster_ip: None,
                selector: Some(seq![("app.kubernetes.io/name"@, name)]),
                ports: Some(forwarded_port(mcrouter_port as i32)),
            },
        ),
    }
}

impl<'a> ShardService<'a> {
    /// The shard's service: a cluster-IP service on `mcrouter_port`.
    pub fn definition(self) -> (s: Service)
        ensures
            s@ == shard_service(self.namespace@, self.name@, self.mcrouter_port),
            s@.metadata.name == Some(self.name@),
            s@.metadata.namespace == Some(self.namespace@),
            s@.spec->0.ports->0.len() == 1,
            s@.spec->0.ports->0[0].port == self.mcrouter_port as i32,
            s@.spec->0.ports->0[0].target_port == Some(IntOrStringView::Int(self.mcrouter_port as i32)),
    {
        let port = #[verifier::truncate] (self.mcrouter_port as i32);
        proof {
            lemma_shard_service_forwards_to_mcrouter(self.namespace@, self.name@, 0, Seq::empty(), self.mcrouter_port);
        }
        Service {
            metadata: ObjectMeta {
                name: Some(owned(self.name)),
                namespace: Some(owned(self.namespace)),
                labels: None,
            },
            spec: Some(
                ServiceSpec {
                    type_: Some(owned("ClusterIP")),
                    cluster_ip: None,
                    selector: Some(single_label("app.kubernetes.io/name", self.name)),
                    ports: Some(forwarded_port_list(port)),
                },
            ),
        }
    }
}

/// A shard's stateful set, named `name` in `namespace`, runs
/// `num_replicas` (taken as an `i32`) pods named `{name}-pod`, each with two
/// containers: first `mcrouter`, running `mcrouter_image`, listening on
/// `mcrouter_port` over TCP and started as `mcrouter ... -p {mcrouter_port}`;
/// then `memcached`, running `mcrouter_image` too, listening on the
/// memcached port over TCP.
pub proof fn lemma_shard_stateful_set_runs_mcrouter_and_memcached(
    namespace: Seq<char>,
    name: Seq<char>,
    num_replicas: usize,
    mcrouter_image: Seq<char>,
    mcrouter_port: usize,
)
    ensures
        ({
            let s = shard_stateful_set(namespace, name, num_replicas, mcrouter_image, mcrouter_port);
            let pod = s.spec->0.template;
            let mcrouter = pod.spec->0.containers[0];
            let memcached = pod.spec->0.containers[1];
            &&& s.metadata.name == Some(name)
            &&& s.metadata.namespace == Some(namespace)
            &&& s.spec->0.replicas == Some(num_replicas as i32)
            &&& pod.metadata->0.name == Some(name + "-pod"@)
            &&& pod.metadata->0.namespace == Some(namespace)
            &&& pod.spec->0.containers.len() == 2
            &&& mcrouter.name == "mcrouter"@
            &&& mcrouter.image == Some(mcrouter_image)
            &&& mcrouter.ports->0.len() == 1
            &&& mcrouter.ports->0[0].container_port == mcrouter_port as i32
            &&& mcrouter.ports->0[0].protocol == Some("TCP"@)
            &&& mcrouter.command->0.len() == 4
            &&& mcrouter.command->0[0] == "mcrouter"@
            &&& mcrouter.command->0[2] == "-p"@
            &&& mcrouter.command->0[3] == decimal(mcrouter_port as nat)
            &&& mcrouter.command->0[1] == "--config-str='{\"pools\":{\"A\":{\"servers\":["@ + join(
                Seq::new(
                    num_replicas as nat,
                    |r: int|
                        json_string_literal(
                            name + "-"@ + decimal(r as nat) + "."@ + name + "."@ + namespace
                                + ".svc.cluster.local:"@ + decimal(MEMCACHED_PORT as nat),
                        ),
                ),
                ","@,
            ) + "]}},\"route\":{\"operation_policies\":{\"add\":\"AllSyncRoute|Pool|A\",\"delete\":\"AllSyncRoute|Pool|A\",\"get\":\"LatestRoute|Pool|A\",\"set\":\"AllSyncRoute|Pool|A\"},\"type\":\"OperationSelectorRoute\"}}'"@
            &&& memcached.name == "memcached"@
            &&& memcached.image == Some(mcrouter_image)
            &&& memcached.command is None
            &&& memcached.ports->0.len() == 1
            &&& memcached.ports->0[0].container_port == MEMCACHED_PORT as i32
            &&& memcached.ports->0[0].protocol == Some("TCP"@)
        }),
{
    reveal_strlit("--config-str='");
    reveal_strlit("{\"pools\":{\"A\":{\"servers\":[");
    reveal_strlit("--config-str='{\"pools\":{\"A\":{\"servers\":[");
    reveal_strlit("]}},\"route\":{\"operation_policies\":{\"add\":\"AllSyncRoute|Pool|A\",\"delete\":\"AllSyncRoute|Pool|A\",\"get\":\"LatestRoute|Pool|A\",\"set\":\"AllSyncRoute|Pool|A\"},\"type\":\"OperationSelectorRoute\"}}");
    reveal_strlit("'");
    reveal_strlit("]}},\"route\":{\"operation_policies\":{\"add\":\"AllSyncRoute|Pool|A\",\"delete\":\"AllSyncRoute|Pool|A\",\"get\":\"LatestRoute|Pool|A\",\"set\":\"AllSyncRoute|Pool|A\"},\"type\":\"OperationSelectorRoute\"}}'");
    let servers = shard_servers(name, namespace, num_replicas as nat);
    let quoted = Seq::new(
        num_replicas as nat,
        |r: int|
            json_string_literal(
                name + "-"@ + decimal(r as nat) + "."@ + name + "."@ + namespace + ".svc.cluster.local:"@
                    + decimal(MEMCACHED_PORT as nat),
            ),
    );
    assert(servers.map_values(|s: Seq<char>| json_string_literal(s)) =~= quoted);
    let elems = json_string_elements(servers);
    assert("--config-str='"@ + ("{\"pools\":{\"A\":{\"servers\":["@ + elems + "]}},\"route\":{\"operation_policies\":{\"add\":\"AllSyncRoute|Pool|A\",\"delete\":\"AllSyncRoute|Pool|A\",\"get\":\"LatestRoute|Pool|A\",\"set\":\"AllSyncRoute|Pool|A\"},\"type\":\"OperationSelectorRoute\"}}"@) + "'"@
        =~= "--config-str='{\"pools\":{\"A\":{\"servers\":["@ + elems + "]}},\"route\":{\"operation_policies\":{\"add\":\"AllSyncRoute|Pool|A\",\"delete\":\"AllSyncRoute|Pool|A\",\"get\":\"LatestRoute|Pool|A\",\"set\":\"AllSyncRoute|Pool|A\"},\"type\":\"OperationSelectorRoute\"}}'"@);
}

/// A shard's service carries the shard's name and namespace, selects the
/// pods labelled `{app.kubernetes.io/name: name}`, exposes exactly
/// `mcrouter_port` (taken as an `i32`), and forwards it to the port on which
/// the mcrouter container of the same shard's stateful set listens.
pub proof fn lemma_shard_service_forwards_to_mcrouter(
    namespace: Seq<char>,
    name: Seq<char>,
    num_replicas: usize,
    mcrouter_image: Seq<char>,
    mcrouter_port: usize,
)
    ensures
        ({
            let s = shard_service(namespace, name, mcrouter_port);
            let t = shard_stateful_set(namespace, name, num_replicas, mcrouter_image, mcrouter_port);
            let mcrouter = t.spec->0.template.spec->0.containers[0];
            &&& s.metadata.name == Some(name)
            &&& s.metadata.namespace == Some(namespace)
            &&& s.metadata.name == t.metadata.name
            &&& s.metadata.namespace == t.metadata.namespace
            &&& s.spec->0.type_ == Some("ClusterIP"@)
            &&& s.spec->0.selector == Some(seq![("app.kubernetes.io/name"@, name)])
            &&& s.spec->0.ports->0.len() == 1
            &&& s.spec->0.ports->0[0].port == mcrouter_port as i32
            &&& s.spec->0.ports->0[0].target_port == Some(IntOrStringView::Int(mcrouter_port as i32))
            &&& s.spec->0.ports->0[0].target_port == Some(
                IntOrStringView::Int(mcrouter.ports->0[0].container_port),
            )
        }),
{
}

}
