//! The gateway: a deployment of mcrouter pods that routes to the shards,
//! and the service in front of it.
use crate::k8s::{
    forwarded_port, forwarded_port_list, lemma_push_deep_view, owned, selects, single_label, Container,
    ContainerPort, ContainerPortView, ContainerView, Deployment, DeploymentSpec, DeploymentSpecView,
    DeploymentView, IntOrStringView, LabelSelector, LabelSelectorView, ObjectMeta, ObjectMetaView, PodSpec,
    PodSpecView, PodTemplateSpec, PodTemplateSpecView, Service, ServiceSpec, ServiceSpecView, ServiceView,
};
use crate::text::{decimal, join, json_string_literal, json_string_elements, json_string_list, usize_to_string};
use vstd::prelude::*;

verus! {

/// Inputs of the gateway deployment.
pub struct GatewayDeployment<'a> {
    pub namespace: &'a str,
    pub name: &'a str,
    pub mcrouter_pool_size: usize,
    pub mcrouter_image: &'a str,
    pub mcrouter_port: usize,
    pub shard_names: Vec<String>,
}

/// The in-cluster address of a shard service:
/// `{shard}.{namespace}.svc.cluster.local:{port}`.
pub open spec fn shard_server_address(shard: Seq<char>, namespace: Seq<char>, port: nat) -> Seq<char> {
    shard + "."@ + namespace + ".svc.cluster.local:"@ + decimal(port)
}

/// The servers of the gateway's pool: one address per shard, in order.
pub open spec fn gateway_servers(shard_names: Seq<Seq<char>>, namespace: Seq<char>, port: nat) -> Seq<Seq<char>> {
    shard_names.map_values(|shard: Seq<char>| shard_server_address(shard, namespace, port))
}

/// The mcrouter configuration of the gateway, as compact JSON: one pool `A`
/// of `servers`, and every request routed to that pool.
pub open spec fn gateway_config(servers: Seq<Seq<char>>) -> Seq<char> {
    "{\"pools\":{\"A\":{\"servers\":["@ + json_string_elements(servers) + "]}},\"route\":\"PoolRoute|A\"}"@
}

/// The labels that mark the gateway's pods.
pub open spec fn gateway_labels(name: Seq<char>) -> Seq<(Seq<char>, Seq<char>)> {
    seq![(name, "gateway"@)]
}

/// The command line of the gateway's mcrouter container.
pub open spec fn gateway_command(config: Seq<char>, port: nat) -> Seq<Seq<char>> {
    seq![
        "mcrouter"@,
        "--config-str="@ + config,
        "--asynclog-disable"@,
        "--async-dir"@,
        "/"@,
        "-p"@,
        decimal(port),
    ]
}

/// The gateway deployment for the given inputs.
pub open spec fn gateway_deployment(
    namespace: Seq<char>,
    name: Seq<char>,
    pool_size: usize,
    image: Seq<char>,
    port: usize,
    shard_names: Seq<Seq<char>>,
) -> DeploymentView {
    DeploymentView {
        metadata: ObjectMetaView { name: Some(name), namespace: Some(namespace), labels: None },
        spec: Some(
            DeploymentSpecView {
                replicas: Some(pool_size as i32),
                selector: LabelSelectorView { match_labels: Some(gateway_labels(name)) },
                template: PodTemplateSpecView {
                    metadata: Some(
                        ObjectMetaView {
                            name: Some(name + "-pod"@),
                            namespace: Some(namespace),
                            labels: Some(gateway_labels(name)),
                        },
                    ),
                    spec: Some(
                        PodSpecView {
                            containers: seq![
                                ContainerView {
                                    name: "mcrouter"@,
                                    image: Some(image),
                                    image_pull_policy: None,
                                    command: Some(
                                        gateway_command(
                                            gateway_config(gateway_servers(shard_names, namespace, port as nat)),
                                            port as nat,
                                        ),
                                    ),
                                    ports: Some(
                                        seq![
                                            ContainerPortView {
                                                container_port: port as i32,
                                                name: None,
                                                protocol: Some("TCP"@),
                                            },
                                        ],
                                    ),
                                },
                            ],
                            service_account_name: None,
                        },
                    ),
                },
            },
        ),
    }
}

/// Inputs of the gateway service.
pub struct GatewayService<'a> {
    pub namespace: &'a str,
    pub name: &'a str,
    pub port: usize,
}

/// The gateway service for the given inputs: a cluster-IP service selecting
/// the pods labelled `{name: gateway}`.
pub open spec fn gateway_service(namespace: Seq<char>, name: Seq<char>, port: usize) -> ServiceView {
    ServiceView {
        metadata: ObjectMetaView { name: Some(name), namespace: Some(namespace), labels: None },
        spec: Some(
            ServiceSpecView {
                type_: Some("ClusterIP"@),
                cluster_ip: Some(Seq::empty()),
                selector: Some(gateway_labels(name)),
                ports: Some(forwarded_port(port as i32)),
            },
        ),
    }
}

impl<'a> GatewayDeployment<'a> {
    /// The gateway deployment: `mcrouter_pool_size` mcrouter pods, labelled
    /// `{name: gateway}`, each routing to every shard named in `shard_names`.
    pub fn definition(self) -> (d: Deployment)
        ensures
            d@ == gateway_deployment(
                self.namespace@,
                self.name@,
                self.mcrouter_pool_size,
                self.mcrouter_image@,
                self.mcrouter_port,
                self.shard_names.deep_view(),
            ),
            d@.metadata.name == Some(self.name@),
            d@.metadata.namespace == Some(self.namespace@),
            d@.spec->0.replicas == Some(self.mcrouter_pool_size as i32),
            d@.spec->0.template.spec->0.containers.len() == 1,
            d@.spec->0.template.spec->0.containers[0].image == Some(self.mcrouter_image@),
            d@.spec->0.template.spec->0.containers[0].image_pull_policy is None,
            d@.spec->0.template.spec->0.containers[0].ports->0[0].container_port == self.mcrouter_port as i32,
            d@.spec->0.template.spec->0.containers[0].command->0[6] == decimal(self.mcrouter_port as nat),
    {
        let config = self.config_json();
        let mut config_flag = owned("--config-str=");
        config_flag.append(config.as_str());
        let command = vec![
            owned("mcrouter"),
            config_flag,
            owned("--asynclog-disable"),
            owned("--async-dir"),
            owned("/"),
            owned("-p"),
            usize_to_string(self.mcrouter_port),
        ];
        assert(command.deep_view() =~= gateway_command(config@, self.mcrouter_port as nat));
        let ports = vec![
            ContainerPort {
                container_port: #[verifier::truncate] (self.mcrouter_port as i32),
                name: None,
                protocol: Some(owned("TCP")),
            },
        ];
        let ghost port_views = seq![
            ContainerPortView {
                container_port: self.mcrouter_port as i32,
                name: None,
                protocol: Some("TCP"@),
            },
        ];
        assert(ports.deep_view() =~= port_views);
        let containers = vec![
            Container {
                name: owned("mcrouter"),
                image: Some(owned(self.mcrouter_image)),
                image_pull_policy: None,
                command: Some(command),
                ports: Some(ports),
            },
        ];
        assert(containers.deep_view() =~= seq![containers[0].deep_view()]);
        let mut pod_name = owned(self.name);
        pod_name.append("-pod");
        let d = Deployment {
            metadata: ObjectMeta {
                name: Some(owned(self.name)),
                namespace: Some(owned(self.namespace)),
                labels: None,
            },
            spec: Some(
                DeploymentSpec {
                    replicas: Some(#[verifier::truncate] (self.mcrouter_pool_size as i32)),
                    selector: LabelSelector { match_labels: Some(single_label(self.name, "gateway")) },
                    template: PodTemplateSpec {
                        metadata: Some(
                            ObjectMeta {
                                name: Some(pod_name),
                                namespace: Some(owned(self.namespace)),
                                labels: Some(single_label(self.name, "gateway")),
                            },
                        ),
                        spec: Some(PodSpec { containers, service_account_name: None }),
                    },
                },
            ),
        };
        assert(d@.spec->0.template.spec->0.containers =~= gateway_deployment(
            self.namespace@,
            self.name@,
            self.mcrouter_pool_size,
            self.mcrouter_image@,
            self.mcrouter_port,
            self.shard_names.deep_view(),
        ).spec->0.template.spec->0.containers);
        proof {
            lemma_gateway_deployment_runs_mcrouter(
                self.namespace@,
                self.name@,
                self.mcrouter_pool_size,
                self.mcrouter_image@,
                self.mcrouter_port,
                self.shard_names.deep_view(),
            );
        }
        d
    }

    /// The gateway's mcrouter configuration.
    fn config_json(&self) -> (config: String)
        ensures
            config@ == gateway_config(
                gateway_servers(self.shard_names.deep_view(), self.namespace@, self.mcrouter_port as nat),
            ),
    {
        let ghost expected = gateway_servers(
            self.shard_names.deep_view(),
            self.namespace@,
            self.mcrouter_port as nat,
        );
        let port = usize_to_string(self.mcrouter_port);
        let mut servers: Vec<String> = Vec::new();
        let n = self.shard_names.len();
        for i in 0..n
            invariant
                n == self.shard_names.len(),
                port@ == decimal(self.mcrouter_port as nat),
                expected == gateway_servers(
                    self.shard_names.deep_view(),
                    self.namespace@,
                    self.mcrouter_port as nat,
                ),
                servers.len() == i,
                servers.deep_view() =~= expected.take(i as int),
        {
            let mut address = owned(self.shard_names[i].as_str());
            address.append(".");
            address.append(self.namespace);
            address.append(".svc.cluster.local:");
            address.append(port.as_str());
            assert(address@ == expected[i as int]);
            let ghost before = servers;
            let ghost item = address;
            servers.push(address);
            proof {
                lemma_push_deep_view(before, servers, item);
            }
            assert(servers.deep_view() =~= expected.take(i + 1));
        }
        assert(expected.take(n as int) =~= expected);
        let elements = json_string_list(&servers);
        let mut config = owned("{\"pools\":{\"A\":{\"servers\":[");
        config.append(elements.as_str());
        config.append("]}},\"route\":\"PoolRoute|A\"}");
        config
    }
}

impl<'a> GatewayService<'a> {
    /// The gateway service: a cluster-IP service on `port` in front of the
    /// gateway's pods.
    pub fn definition(self) -> (s: Service)
        ensures
            s@ == gateway_service(self.namespace@, self.name@, self.port),
            s@.metadata.name == Some(self.name@),
            s@.metadata.namespace == Some(self.namespace@),
            s@.spec->0.ports->0.len() == 1,
            s@.spec->0.ports->0[0].port == self.port as i32,
            s@.spec->0.ports->0[0].target_port == Some(IntOrStringView::Int(self.port as i32)),
    {
        let port = #[verifier::truncate] (self.port as i32);
        let s = Service {
            metadata: ObjectMeta {
                name: Some(owned(self.name)),
                namespace: Some(owned(self.namespace)),
                labels: None,
            },
            spec: Some(
                ServiceSpec {
                    type_: Some(owned("ClusterIP")),
                    cluster_ip: Some(String::new()),
                    selector: Some(single_label(self.name, "gateway")),
                    ports: Some(forwarded_port_list(port)),
                },
            ),
        };
        proof {
            lemma_gateway_service_exposes_port(self.namespace@, self.name@, self.port);
        }
        s
    }
}

/// The gateway deployment manages its own pods (its selector matches the
/// labels of its pod template), and the gateway service selects those pods
/// and forwards to the port their mcrouter listens on, in the same
/// namespace.
pub proof fn lemma_gateway_service_targets_gateway_pods(
    namespace: Seq<char>,
    name: Seq<char>,
    pool_size: usize,
    image: Seq<char>,
    port: usize,
    shard_names: Seq<Seq<char>>,
)
    ensures
        ({
            let d = gateway_deployment(namespace, name, pool_size, image, port, shard_names);
            let s = gateway_service(namespace, name, port);
            let pod_labels = d.spec->0.template.metadata->0.labels->0;
            let container_port = d.spec->0.template.spec->0.containers[0].ports->0[0].container_port;
            &&& selects(d.spec->0.selector.match_labels->0, pod_labels)
            &&& selects(s.spec->0.selector->0, pod_labels)
            &&& s.spec->0.ports->0[0].target_port == Some(IntOrStringView::Int(container_port))
            &&& s.metadata.namespace == d.spec->0.template.metadata->0.namespace
        }),
{
    let labels = gateway_labels(name);
    assert(labels.contains(labels[0]));
}

/// The gateway deployment runs `pool_size` (taken as an `i32`) pods named
/// `{name}-pod` in `namespace`, each with the single container `mcrouter`
/// that runs `image` under the API's default pull policy, listens on `port`
/// over TCP and is started as `mcrouter ... -p {port}`.
pub proof fn lemma_gateway_deployment_runs_mcrouter(
    namespace: Seq<char>,
    name: Seq<char>,
    pool_size: usize,
    image: Seq<char>,
    port: usize,
    shard_names: Seq<Seq<char>>,
)
    ensures
        ({
            let d = gateway_deployment(namespace, name, pool_size, image, port, shard_names);
            let pod = d.spec->0.template;
            let c = pod.spec->0.containers[0];
            &&& d.metadata.name == Some(name)
            &&& d.metadata.namespace == Some(namespace)
            &&& d.spec->0.replicas == Some(pool_size as i32)
            &&& pod.metadata->0.name == Some(name + "-pod"@)
            &&& pod.metadata->0.namespace == Some(namespace)
            &&& pod.spec->0.containers.len() == 1
            &&& c.name == "mcrouter"@
            &&& c.image == Some(image)
            &&& c.image_pull_policy is None
            &&& c.ports->0.len() == 1
            &&& c.ports->0[0].container_port == port as i32
            &&& c.ports->0[0].protocol == Some("TCP"@)
            &&& c.command->0.len() == 7
            &&& c.command->0[0] == "mcrouter"@
            &&& c.command->0[5] == "-p"@
            &&& c.command->0[6] == decimal(port as nat)
            &&& c.command->0 == seq![
                "mcrouter"@,
                "--config-str={\"pools\":{\"A\":{\"servers\":["@ + join(
                    Seq::new(
                        shard_names.len(),
                        |k: int|
                            json_string_literal(
                                shard_names[k] + "."@ + namespace + ".svc.cluster.local:"@ + decimal(port as nat),
                            ),
                    ),
                    ","@,
                ) + "]}},\"route\":\"PoolRoute|A\"}"@,
                "--asynclog-disable"@,
                "--async-dir"@,
                "/"@,
                "-p"@,
                decimal(port as nat),
            ]
        }),
{
    reveal_strlit("--config-str=");
    reveal_strlit("{\"pools\":{\"A\":{\"servers\":[");
    reveal_strlit("--config-str={\"pools\":{\"A\":{\"servers\":[");
    let servers = gateway_servers(shard_names, namespace, port as nat);
    let quoted = Seq::new(
        shard_names.len(),
        |k: int|
            json_string_literal(
                shard_names[k] + "."@ + namespace + ".svc.cluster.local:"@ + decimal(port as nat),
            ),
    );
    assert(servers.map_values(|s: Seq<char>| json_string_literal(s)) =~= quoted);
    let elems = json_string_elements(servers);
    let tail = "]}},\"route\":\"PoolRoute|A\"}"@;
    assert("--config-str="@ + ("{\"pools\":{\"A\":{\"servers\":["@ + elems + tail)
        =~= "--config-str={\"pools\":{\"A\":{\"servers\":["@ + elems + tail);
    let d = gateway_deployment(namespace, name, pool_size, image, port, shard_names);
    let c = d.spec->0.template.spec->0.containers[0];
    assert(c.command->0 =~= seq![
        "mcrouter"@,
        "--config-str={\"pools\":{\"A\":{\"servers\":["@ + join(quoted, ","@) + tail,
        "--asynclog-disable"@,
        "--async-dir"@,
        "/"@,
        "-p"@,
        decimal(port as nat),
    ]);
}

/// The gateway service, named `name` in `namespace`, exposes exactly `port`
/// (taken as an `i32`) and forwards it to the same port of the pods labelled
/// `{name: gateway}`.
pub proof fn lemma_gateway_service_exposes_port(namespace: Seq<char>, name: Seq<char>, port: usize)
    ensures
        ({
            let s = gateway_service(namespace, name, port);
            &&& s.metadata.name == Some(name)
            &&& s.metadata.namespace == Some(namespace)
            &&& s.spec->0.type_ == Some("ClusterIP"@)
            &&& s.spec->0.selector == Some(seq![(name, "gateway"@)])
            &&& s.spec->0.ports->0.len() == 1
            &&& s.spec->0.ports->0[0].port == port as i32
            &&& s.spec->0.ports->0[0].target_port == Some(IntOrStringView::Int(port as i32))
        }),
{
}

}
