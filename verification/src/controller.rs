//! The reconciliation decisions of the operator: which child objects a
//! custom resource should have, and what status it reports.
use crate::children::gateway::{
    lemma_gateway_deployment_runs_mcrouter, lemma_gateway_service_exposes_port, gateway_config, gateway_deployment, gateway_servers, gateway_service, shard_server_address,
    GatewayDeployment, GatewayService,
};
use crate::children::shard::{
    lemma_shard_service_forwards_to_mcrouter, lemma_shard_stateful_set_runs_mcrouter_and_memcached,
    replica_server_address, shard_config, shard_servers, shard_service, shard_stateful_set, ShardService,
    ShardStatefulSet,
};
use crate::crd::{Mcrouter, McrouterSpecView};
use crate::k8s::{
    IntOrStringView, lemma_push_deep_view, owned, Deployment, DeploymentView, Service, ServiceView, StatefulSet,
    StatefulSetView,
};
use crate::text::{
    decimal, lemma_decimal_injective, lemma_prefix_keeps_distinct, lemma_suffix_keeps_distinct,
    usize_to_string,
};
use vstd::prelude::*;

verus! {

/// One child object of a custom resource.
#[derive(Debug, PartialEq, Eq)]
pub enum Child {
    Deployment(Deployment),
    Service(Service),
    StatefulSet(StatefulSet),
}

pub enum ChildView {
    Deployment(DeploymentView),
    Service(ServiceView),
    StatefulSet(StatefulSetView),
}

impl DeepView for Child {
    type V = ChildView;

    open spec fn deep_view(&self) -> ChildView {
        match self {
            Child::Deployment(d) => ChildView::Deployment(d@),
            Child::Service(s) => ChildView::Service(s@),
            Child::StatefulSet(s) => ChildView::StatefulSet(s@),
        }
    }
}

/// The name of the gateway of the resource `name`: `{name}-memshack`.
pub open spec fn gateway_name(name: Seq<char>) -> Seq<char> {
    name + "-memshack"@
}

/// The name of shard `i` of the resource `name`:
/// `{name}-memshack-shard-{i}`.
pub open spec fn shard_name(name: Seq<char>, i: nat) -> Seq<char> {
    name + "-memshack-shard-"@ + decimal(i)
}

/// The names of the shards `0..num_shards`, in order.
pub open spec fn shard_names(name: Seq<char>, num_shards: nat) -> Seq<Seq<char>> {
    Seq::new(num_shards, |i: int| shard_name(name, i as nat))
}

/// The two children of shard `i`: its service, then its stateful set.
pub open spec fn shard_child(name: Seq<char>, namespace: Seq<char>, spec: McrouterSpecView, k: int) -> ChildView {
    let shard = shard_name(name, (k / 2) as nat);
    if k % 2 == 0 {
        ChildView::Service(shard_service(namespace, shard, spec.mcrouter_port))
    } else {
        ChildView::StatefulSet(
            shard_stateful_set(namespace, shard, spec.num_replicas, spec.mcrouter_image, spec.mcrouter_port),
        )
    }
}

/// The children of the resource `name` in `namespace` with `spec`, in
/// order: the gateway deployment, the gateway service, then for each shard
/// its service and its stateful set.
pub open spec fn desired_children(name: Seq<char>, namespace: Seq<char>, spec: McrouterSpecView) -> Seq<ChildView> {
    seq![
        ChildView::Deployment(
            gateway_deployment(
                namespace,
                gateway_name(name),
                spec.mcrouter_pool_size,
                spec.mcrouter_image,
                spec.mcrouter_port,
                shard_names(name, spec.num_shards as nat),
            ),
        ),
        ChildView::Service(gateway_service(namespace, gateway_name(name), spec.mcrouter_port)),
    ] + Seq::new(2 * spec.num_shards as nat, |k: int| shard_child(name, namespace, spec, k))
}

/// The name of shard `i` of the resource `name`.
pub fn make_shard_name(name: &str, i: usize) -> (s: String)
    ensures
        s@ == shard_name(name@, i as nat),
{
    let mut s = owned(name);
    s.append("-memshack-shard-");
    let index = usize_to_string(i);
    s.append(index.as_str());
    s
}

/// The child objects of a resource. A resource without a name or a
/// namespace has no children and is refused before this is called.
pub fn get_desired_children(cr: &Mcrouter) -> (children: Vec<Child>)
    requires
        cr.metadata.name is Some,
        cr.metadata.namespace is Some,
    ensures
        children.deep_view() == desired_children(
            cr.metadata.name->0@,
            cr.metadata.namespace->0@,
            cr.spec@,
        ),
        children@.len() == 2 + 2 * cr.spec.num_shards,
{
    let name = cr.metadata.name.as_ref().unwrap().as_str();
    let namespace = cr.metadata.namespace.as_ref().unwrap().as_str();
    let ghost spec = cr.spec@;
    let mut gateway = owned(name);
    gateway.append("-memshack");
    let num_shards = cr.spec.num_shards;

    let mut names: Vec<String> = Vec::new();
    for i in 0..num_shards
        invariant
            names.len() == i,
            names.deep_view() =~= shard_names(name@, num_shards as nat).take(i as int),
    {
        let shard = make_shard_name(name, i);
        let ghost before = names;
        let ghost item = shard;
        names.push(shard);
        proof {
            lemma_push_deep_view(before, names, item);
        }
        assert(names.deep_view() =~= shard_names(name@, num_shards as nat).take(i + 1));
    }
    assert(shard_names(name@, num_shards as nat).take(num_shards as int) =~= shard_names(name@, num_shards as nat));

    let gateway_deployment = GatewayDeployment {
        name: gateway.as_str(),
        namespace,
        shard_names: names,
        mcrouter_pool_size: cr.spec.mcrouter_pool_size,
        mcrouter_image: cr.spec.mcrouter_image.as_str(),
        mcrouter_port: cr.spec.mcrouter_port,
    }.definition();
    let gateway_service = GatewayService {
        name: gateway.as_str(),
        namespace,
        port: cr.spec.mcrouter_port,
    }.definition();
    let mut children = vec![Child::Deployment(gateway_deployment), Child::Service(gateway_service)];
    let ghost head = children.deep_view();
    assert(head =~= desired_children(name@, namespace@, spec).take(2));

    for shard_idx in 0..num_shards
        invariant
            num_shards == cr.spec.num_shards,
            spec == cr.spec@,
            name@ == cr.metadata.name->0@,
            namespace@ == cr.metadata.namespace->0@,
            children.len() == 2 + 2 * shard_idx,
            children.deep_view() =~= desired_children(name@, namespace@, spec).take(2 + 2 * shard_idx),
    {
        let shard = make_shard_name(name, shard_idx);
        let service = ShardService {
            shard_idx,
            name: shard.as_str(),
            namespace,
            mcrouter_port: cr.spec.mcrouter_port,
        }.definition();
        let stateful_set = ShardStatefulSet {
            shard_idx,
            name: shard.as_str(),
            namespace,
            num_replicas: cr.spec.num_replicas,
            mcrouter_image: cr.spec.mcrouter_image.as_str(),
            memcached_image: cr.spec.memcached_image.as_str(),
            mcrouter_port: cr.spec.mcrouter_port,
        }.definition();
        let ghost k = 2 + 2 * shard_idx;
        let ghost before = children;
        let ghost item = Child::Service(service);
        children.push(Child::Service(service));
        proof {
            lemma_push_deep_view(before, children, item);
        }
        let ghost middle = children;
        let ghost item2 = Child::StatefulSet(stateful_set);
        children.push(Child::StatefulSet(stateful_set));
        proof {
            lemma_push_deep_view(middle, children, item2);
            let all = desired_children(name@, namespace@, spec);
            assert(all[k] == shard_child(name@, namespace@, spec, 2 * shard_idx));
            assert(all[k + 1] == shard_child(name@, namespace@, spec, 2 * shard_idx + 1));
        }
        assert(children.deep_view() =~= desired_children(name@, namespace@, spec).take(2 + 2 * shard_idx + 2));
    }
    assert(desired_children(name@, namespace@, spec).take(2 + 2 * num_shards) =~= desired_children(name@, namespace@, spec));
    children
}

/// The status that the operator reports on a resource.
#[derive(Debug, PartialEq, Eq)]
pub struct SyncStatus {
    pub message: String,
    pub phase: String,
}

/// What a sync answers: the status to report, the children that should
/// exist, and when to sync again unprompted (in seconds; `None` for never).
#[derive(Debug, PartialEq, Eq)]
pub struct SyncResponse {
    pub status: SyncStatus,
    pub children: Vec<Child>,
    pub resync: Option<u64>,
}

/// The message reported while no pod has reported a status message.
pub open spec fn waiting_message() -> Seq<char> {
    "Waiting for Pod to be initialized"@
}

/// The status message of a resource: the status message of its first pod
/// child where that pod has one, else the waiting message.
pub open spec fn status_message(first_pod_message: Option<Seq<char>>) -> Seq<char> {
    match first_pod_message {
        Some(m) => m,
        None => waiting_message(),
    }
}

/// The current status message. `first_pod_message` is the string at
/// `/status/message` of the first pod among the resource's children, if
/// there is such a pod and that field holds a string.
pub fn get_current_status_message(first_pod_message: Option<&str>) -> (m: String)
    ensures
        m@ == status_message(first_pod_message.deep_view()),
{
    match first_pod_message {
        Some(message) => owned(message),
        None => owned("Waiting for Pod to be initialized"),
    }
}

/// Answers a sync of the resource `cr`: the status `Running` with the
/// current status message, the desired children, and no resync. A resource
/// without a name or a namespace is refused before this is called.
pub fn handle_sync(cr: &Mcrouter, first_pod_message: Option<&str>) -> (r: SyncResponse)
    requires
        cr.metadata.name is Some,
        cr.metadata.namespace is Some,
    ensures
        r.status.message@ == status_message(first_pod_message.deep_view()),
        r.status.phase@ == "Running"@,
        r.children.deep_view() == desired_children(
            cr.metadata.name->0@,
            cr.metadata.namespace->0@,
            cr.spec@,
        ),
        r.resync is None,
{
    let message = get_current_status_message(first_pod_message);
    let children = get_desired_children(cr);
    SyncResponse {
        status: SyncStatus { message, phase: owned("Running") },
        children,
        resync: None,
    }
}

/// Answers a sync that failed with `error_message`: the status `Error`
/// with that message, and no resync.
pub fn handle_error(error_message: &str) -> (r: (SyncStatus, Option<u64>))
    ensures
        r.0.message@ == error_message@,
        r.0.phase@ == "Error"@,
        r.1 is None,
{
    (SyncStatus { message: owned(error_message), phase: owned("Error") }, None)
}

/// The name of a child object.
pub open spec fn child_name(c: ChildView) -> Option<Seq<char>> {
    match c {
        ChildView::Deployment(d) => d.metadata.name,
        ChildView::Service(s) => s.metadata.name,
        ChildView::StatefulSet(s) => s.metadata.name,
    }
}

/// Whether two child objects are of the same kind.
pub open spec fn same_kind(a: ChildView, b: ChildView) -> bool {
    ||| (a is Deployment && b is Deployment)
    ||| (a is Service && b is Service)
    ||| (a is StatefulSet && b is StatefulSet)
}

/// Shards with different indices have different names.
pub proof fn lemma_shard_names_distinct(name: Seq<char>, a: nat, b: nat)
    requires
        a != b,
    ensures
        shard_name(name, a) != shard_name(name, b),
{
    let prefix = name + "-memshack-shard-"@;
    if shard_name(name, a) == shard_name(name, b) {
        assert(decimal(a) =~= shard_name(name, a).subrange(prefix.len() as int, shard_name(name, a).len() as int));
        assert(decimal(b) =~= shard_name(name, b).subrange(prefix.len() as int, shard_name(name, b).len() as int));
        crate::text::lemma_decimal_injective(a, b);
    }
}

/// No shard is named like the gateway.
pub proof fn lemma_gateway_name_not_shard_name(name: Seq<char>, a: nat)
    ensures
        gateway_name(name) != shard_name(name, a),
{
    reveal_strlit("-memshack");
    reveal_strlit("-memshack-shard-");
    crate::text::lemma_decimal_nonempty(a);
    assert(gateway_name(name).len() < shard_name(name, a).len());
}

/// Every child of a resource is named, and no two children of the same kind
/// share a name: the objects never overwrite one another.
pub proof fn lemma_child_names_distinct(
    name: Seq<char>,
    namespace: Seq<char>,
    spec: McrouterSpecView,
    i: int,
    j: int,
)
    requires
        0 <= i < j < desired_children(name, namespace, spec).len(),
    ensures
        child_name(desired_children(name, namespace, spec)[i]) is Some,
        child_name(desired_children(name, namespace, spec)[j]) is Some,
        same_kind(desired_children(name, namespace, spec)[i], desired_children(name, namespace, spec)[j])
            ==> child_name(desired_children(name, namespace, spec)[i]) != child_name(
            desired_children(name, namespace, spec)[j],
        ),
{
    let c = desired_children(name, namespace, spec);
    if i >= 2 {
        assert(c[i] == shard_child(name, namespace, spec, i - 2));
    }
    if j >= 2 {
        assert(c[j] == shard_child(name, namespace, spec, j - 2));
    }
    if same_kind(c[i], c[j]) {
        if i == 1 {
            lemma_gateway_name_not_shard_name(name, ((j - 2) / 2) as nat);
        } else if i >= 2 {
            assert((i - 2) % 2 == (j - 2) % 2);
            assert((i - 2) / 2 != (j - 2) / 2);
            lemma_shard_names_distinct(name, ((i - 2) / 2) as nat, ((j - 2) / 2) as nat);
        }
    }
}

/// The servers of the gateway's pool for the resource `name`.
pub open spec fn gateway_pool(name: Seq<char>, namespace: Seq<char>, spec: McrouterSpecView) -> Seq<Seq<char>> {
    gateway_servers(shard_names(name, spec.num_shards as nat), namespace, spec.mcrouter_port as nat)
}

/// The gateway routes to every shard and to nothing else: the pool in its
/// configuration lists one server per shard, in shard order, and server `i`
/// is the address of shard `i`'s service, by that service's name and
/// namespace and the port it exposes.
pub proof fn lemma_gateway_routes_to_shard_services(
    name: Seq<char>,
    namespace: Seq<char>,
    spec: McrouterSpecView,
    i: int,
)
    requires
        0 <= i < spec.num_shards,
    ensures
        ({
            let c = desired_children(name, namespace, spec);
            let pool = gateway_pool(name, namespace, spec);
            &&& c[0] is Deployment
            &&& c[0]->Deployment_0.spec->0.template.spec->0.containers[0].command->0[1] == "--config-str="@
                + gateway_config(pool)
            &&& pool.len() == spec.num_shards
            &&& c[2 + 2 * i] is Service
            &&& c[2 + 2 * i]->Service_0.metadata.namespace == Some(namespace)
            &&& c[2 + 2 * i]->Service_0.spec->0.ports->0[0].port == spec.mcrouter_port as i32
            &&& pool[i] == shard_server_address(
                c[2 + 2 * i]->Service_0.metadata.name->0,
                namespace,
                spec.mcrouter_port as nat,
            )
        }),
{
    let c = desired_children(name, namespace, spec);
    assert(c[2 + 2 * i] == shard_child(name, namespace, spec, 2 * i));
    assert((2 * i) / 2 == i);
}

/// Each shard is a service and a stateful set of the same name; the
/// stateful set runs `num_replicas` pods, and the pool of their mcrouter
/// lists the memcached of each replica `0..num_replicas`, in order.
pub proof fn lemma_shard_replicates_across_replicas(
    name: Seq<char>,
    namespace: Seq<char>,
    spec: McrouterSpecView,
    i: int,
    r: int,
)
    requires
        0 <= i < spec.num_shards,
        0 <= r < spec.num_replicas,
    ensures
        ({
            let c = desired_children(name, namespace, spec);
            let shard = shard_name(name, i as nat);
            let servers = shard_servers(shard, namespace, spec.num_replicas as nat);
            &&& c[2 + 2 * i] is Service
            &&& c[3 + 2 * i] is StatefulSet
            &&& c[2 + 2 * i]->Service_0.metadata.name == Some(shard)
            &&& c[3 + 2 * i]->StatefulSet_0.metadata.name == Some(shard)
            &&& c[3 + 2 * i]->StatefulSet_0.spec->0.replicas == Some(spec.num_replicas as i32)
            &&& c[3 + 2 * i]->StatefulSet_0.spec->0.template.spec->0.containers[0].command->0[1] == "--config-str='"@
                + shard_config(servers) + "'"@
            &&& servers.len() == spec.num_replicas
            &&& servers[r] == replica_server_address(shard, namespace, r as nat)
        }),
{
    let c = desired_children(name, namespace, spec);
    assert(c[2 + 2 * i] == shard_child(name, namespace, spec, 2 * i));
    assert(c[3 + 2 * i] == shard_child(name, namespace, spec, 2 * i + 1));
    assert((2 * i) / 2 == i);
    assert((2 * i + 1) / 2 == i);
}

/// No server is listed twice in a pool: the gateway lists each shard once,
/// and each shard lists each of its replicas once.
pub proof fn lemma_pool_servers_distinct(
    name: Seq<char>,
    namespace: Seq<char>,
    spec: McrouterSpecView,
    i: int,
    j: int,
)
    requires
        0 <= i < j,
    ensures
        j < spec.num_shards ==> gateway_pool(name, namespace, spec)[i] != gateway_pool(name, namespace, spec)[j],
        j < spec.num_replicas ==> forall|s: nat|
            #![trigger shard_servers(shard_name(name, s), namespace, spec.num_replicas as nat)]
            shard_servers(shard_name(name, s), namespace, spec.num_replicas as nat)[i]
                != shard_servers(shard_name(name, s), namespace, spec.num_replicas as nat)[j],
{
    if j < spec.num_shards {
        lemma_shard_names_distinct(name, i as nat, j as nat);
        let tail = "."@ + namespace + ".svc.cluster.local:"@ + decimal(spec.mcrouter_port as nat);
        lemma_suffix_keeps_distinct(shard_name(name, i as nat), shard_name(name, j as nat), tail);
        let pool = gateway_pool(name, namespace, spec);
        assert(pool[i] =~= shard_name(name, i as nat) + tail);
        assert(pool[j] =~= shard_name(name, j as nat) + tail);
    }
    if j < spec.num_replicas {
        assert forall|s: nat|
            #![trigger shard_servers(shard_name(name, s), namespace, spec.num_replicas as nat)]
            shard_servers(shard_name(name, s), namespace, spec.num_replicas as nat)[i]
                != shard_servers(shard_name(name, s), namespace, spec.num_replicas as nat)[j] by {
            let shard = shard_name(name, s);
            let head = shard + "-"@;
            let tail = "."@ + shard + "."@ + namespace + ".svc.cluster.local:"@ + decimal(11211);
            if decimal(i as nat) == decimal(j as nat) {
                lemma_decimal_injective(i as nat, j as nat);
            }
            lemma_prefix_keeps_distinct(head, decimal(i as nat), decimal(j as nat));
            lemma_suffix_keeps_distinct(head + decimal(i as nat), head + decimal(j as nat), tail);
            let servers = shard_servers(shard, namespace, spec.num_replicas as nat);
            assert(servers[i] =~= head + decimal(i as nat) + tail);
            assert(servers[j] =~= head + decimal(j as nat) + tail);
        }
    }
}

/// Every mcrouter of a resource listens on the resource's `mcrouter_port`:
/// the gateway's and each shard's mcrouter container has that container
/// port and is started with `-p {mcrouter_port}`, runs the resource's
/// `mcrouter_image`, and the gateway service and each shard's service
/// expose that port and forward it to that same container port.
pub proof fn lemma_mcrouters_listen_on_mcrouter_port(
    name: Seq<char>,
    namespace: Seq<char>,
    spec: McrouterSpecView,
    i: int,
)
    requires
        0 <= i < spec.num_shards,
    ensures
        ({
            let c = desired_children(name, namespace, spec);
            let port = spec.mcrouter_port as i32;
            let gateway = c[0]->Deployment_0.spec->0.template.spec->0.containers[0];
            let shard = c[3 + 2 * i]->StatefulSet_0.spec->0.template.spec->0.containers[0];
            let gateway_ports = c[1]->Service_0.spec->0.ports->0;
            let shard_ports = c[2 + 2 * i]->Service_0.spec->0.ports->0;
            &&& c[0] is Deployment
            &&& c[1] is Service
            &&& c[2 + 2 * i] is Service
            &&& c[3 + 2 * i] is StatefulSet
            &&& c[0]->Deployment_0.metadata.name == Some(name + "-memshack"@)
            &&& c[1]->Service_0.metadata.name == Some(name + "-memshack"@)
            &&& c[2 + 2 * i]->Service_0.metadata.name == Some(name + "-memshack-shard-"@ + decimal(i as nat))
            &&& c[3 + 2 * i]->StatefulSet_0.metadata.name == Some(name + "-memshack-shard-"@ + decimal(i as nat))
            &&& c[0]->Deployment_0.metadata.namespace == Some(namespace)
            &&& c[1]->Service_0.metadata.namespace == Some(namespace)
            &&& c[2 + 2 * i]->Service_0.metadata.namespace == Some(namespace)
            &&& c[3 + 2 * i]->StatefulSet_0.metadata.namespace == Some(namespace)
            &&& c[0]->Deployment_0.spec->0.replicas == Some(spec.mcrouter_pool_size as i32)
            &&& c[3 + 2 * i]->StatefulSet_0.spec->0.replicas == Some(spec.num_replicas as i32)
            &&& gateway.image == Some(spec.mcrouter_image)
            &&& gateway.ports->0[0].container_port == port
            &&& gateway.command->0.last() == decimal(spec.mcrouter_port as nat)
            &&& gateway_ports.len() == 1
            &&& gateway_ports[0].port == port
            &&& gateway_ports[0].target_port == Some(IntOrStringView::Int(port))
            &&& shard.name == "mcrouter"@
            &&& shard.image == Some(spec.mcrouter_image)
            &&& shard.ports->0[0].container_port == port
            &&& shard.command->0[shard.command->0.len() - 2] == "-p"@
            &&& shard.command->0.last() == decimal(spec.mcrouter_port as nat)
            &&& shard_ports.len() == 1
            &&& shard_ports[0].port == port
            &&& shard_ports[0].target_port == Some(IntOrStringView::Int(port))
        }),
{
    let c = desired_children(name, namespace, spec);
    assert(c[2 + 2 * i] == shard_child(name, namespace, spec, 2 * i));
    assert(c[3 + 2 * i] == shard_child(name, namespace, spec, 2 * i + 1));
    assert((2 * i) / 2 == i);
    assert((2 * i + 1) / 2 == i);
    let shard = shard_name(name, i as nat);
    lemma_gateway_deployment_runs_mcrouter(
        namespace,
        gateway_name(name),
        spec.mcrouter_pool_size,
        spec.mcrouter_image,
        spec.mcrouter_port,
        shard_names(name, spec.num_shards as nat),
    );
    lemma_gateway_service_exposes_port(namespace, gateway_name(name), spec.mcrouter_port);
    lemma_shard_stateful_set_runs_mcrouter_and_memcached(
        namespace,
        shard,
        spec.num_replicas,
        spec.mcrouter_image,
        spec.mcrouter_port,
    );
    lemma_shard_service_forwards_to_mcrouter(
        namespace,
        shard,
        spec.num_replicas,
        spec.mcrouter_image,
        spec.mcrouter_port,
    );
}

}
