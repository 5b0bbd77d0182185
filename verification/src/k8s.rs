//! The shapes of the Kubernetes objects that this operator writes: the
//! fields it sets, with the field names of the Kubernetes API. A field the
//! operator never sets is absent here and takes its API default.
use vstd::prelude::*;

verus! {

/// Standard object metadata.
#[derive(Debug, PartialEq, Eq)]
pub struct ObjectMeta {
    pub name: Option<String>,
    pub namespace: Option<String>,
    pub labels: Option<Vec<(String, String)>>,
}

pub struct ObjectMetaView {
    pub name: Option<Seq<char>>,
    pub namespace: Option<Seq<char>>,
    pub labels: Option<Seq<(Seq<char>, Seq<char>)>>,
}

impl DeepView for ObjectMeta {
    type V = ObjectMetaView;

    open spec fn deep_view(&self) -> ObjectMetaView {
        ObjectMetaView {
            name: self.name.deep_view(),
            namespace: self.namespace.deep_view(),
            labels: self.labels.deep_view(),
        }
    }
}

impl ObjectMetaView {
    /// Metadata with every field absent.
    pub open spec fn empty() -> ObjectMetaView {
        ObjectMetaView { name: None, namespace: None, labels: None }
    }
}

impl ObjectMeta {
    /// Metadata with every field absent, as `ObjectMeta::default()`.
    pub fn empty() -> (m: ObjectMeta)
        ensures
            m.deep_view() == ObjectMetaView::empty(),
    {
        ObjectMeta { name: None, namespace: None, labels: None }
    }
}

/// A label query over a set of objects.
#[derive(Debug, PartialEq, Eq)]
pub struct LabelSelector {
    pub match_labels: Option<Vec<(String, String)>>,
}

pub struct LabelSelectorView {
    pub match_labels: Option<Seq<(Seq<char>, Seq<char>)>>,
}

impl DeepView for LabelSelector {
    type V = LabelSelectorView;

    open spec fn deep_view(&self) -> LabelSelectorView {
        LabelSelectorView { match_labels: self.match_labels.deep_view() }
    }
}

/// A network port exposed by a container.
#[derive(Debug, PartialEq, Eq)]
pub struct ContainerPort {
    pub container_port: i32,
    pub name: Option<String>,
    pub protocol: Option<String>,
}

pub struct ContainerPortView {
    pub container_port: i32,
    pub name: Option<Seq<char>>,
    pub protocol: Option<Seq<char>>,
}

impl DeepView for ContainerPort {
    type V = ContainerPortView;

    open spec fn deep_view(&self) -> ContainerPortView {
        ContainerPortView {
            container_port: self.container_port,
            name: self.name.deep_view(),
            protocol: self.protocol.deep_view(),
        }
    }
}

/// A container of a pod.
#[derive(Debug, PartialEq, Eq)]
pub struct Container {
    pub name: String,
    pub image: Option<String>,
    pub image_pull_policy: Option<String>,
    pub command: Option<Vec<String>>,
    pub ports: Option<Vec<ContainerPort>>,
}

pub struct ContainerView {
    pub name: Seq<char>,
    pub image: Option<Seq<char>>,
    pub image_pull_policy: Option<Seq<char>>,
    pub command: Option<Seq<Seq<char>>>,
    pub ports: Option<Seq<ContainerPortView>>,
}

impl DeepView for Container {
    type V = ContainerView;

    open spec fn deep_view(&self) -> ContainerView {
        ContainerView {
            name: self.name@,
            image: self.image.deep_view(),
            image_pull_policy: self.image_pull_policy.deep_view(),
            command: self.command.deep_view(),
            ports: self.ports.deep_view(),
        }
    }
}

/// The specification of a pod.
#[derive(Debug, PartialEq, Eq)]
pub struct PodSpec {
    pub containers: Vec<Container>,
    pub service_account_name: Option<String>,
}

pub struct PodSpecView {
    pub containers: Seq<ContainerView>,
    pub service_account_name: Option<Seq<char>>,
}

impl DeepView for PodSpec {
    type V = PodSpecView;

    open spec fn deep_view(&self) -> PodSpecView {
        PodSpecView {
            containers: self.containers.deep_view(),
            service_account_name: self.service_account_name.deep_view(),
        }
    }
}

/// The template from which a controller creates pods.
#[derive(Debug, PartialEq, Eq)]
pub struct PodTemplateSpec {
    pub metadata: Option<ObjectMeta>,
    pub spec: Option<PodSpec>,
}

pub struct PodTemplateSpecView {
    pub metadata: Option<ObjectMetaView>,
    pub spec: Option<PodSpecView>,
}

impl DeepView for PodTemplateSpec {
    type V = PodTemplateSpecView;

    open spec fn deep_view(&self) -> PodTemplateSpecView {
        PodTemplateSpecView { metadata: self.metadata.deep_view(), spec: self.spec.deep_view() }
    }
}

/// The desired state of a deployment.
#[derive(Debug, PartialEq, Eq)]
pub struct DeploymentSpec {
    pub replicas: Option<i32>,
    pub selector: LabelSelector,
    pub template: PodTemplateSpec,
}

pub struct DeploymentSpecView {
    pub replicas: Option<i32>,
    pub selector: LabelSelectorView,
    pub template: PodTemplateSpecView,
}

impl DeepView for DeploymentSpec {
    type V = DeploymentSpecView;

    open spec fn deep_view(&self) -> DeploymentSpecView {
        DeploymentSpecView {
            replicas: self.replicas,
            selector: self.selector.deep_view(),
            template: self.template.deep_view(),
        }
    }
}

/// A deployment (`apps/v1`).
#[derive(Debug, PartialEq, Eq)]
pub struct Deployment {
    pub metadata: ObjectMeta,
    pub spec: Option<DeploymentSpec>,
}

pub struct DeploymentView {
    pub metadata: ObjectMetaView,
    pub spec: Option<DeploymentSpecView>,
}

impl DeepView for Deployment {
    type V = DeploymentView;

    open spec fn deep_view(&self) -> DeploymentView {
        DeploymentView { metadata: self.metadata.deep_view(), spec: self.spec.deep_view() }
    }
}

impl View for Deployment {
    type V = DeploymentView;

    open spec fn view(&self) -> DeploymentView {
        self.deep_view()
    }
}

/// The desired state of a stateful set.
#[derive(Debug, PartialEq, Eq)]
pub struct StatefulSetSpec {
    pub replicas: Option<i32>,
    pub template: PodTemplateSpec,
}

pub struct StatefulSetSpecView {
    pub replicas: Option<i32>,
    pub template: PodTemplateSpecView,
}

impl DeepView for StatefulSetSpec {
    type V = StatefulSetSpecView;

    open spec fn deep_view(&self) -> StatefulSetSpecView {
        StatefulSetSpecView { replicas: self.replicas, template: self.template.deep_view() }
    }
}

/// A stateful set (`apps/v1`).
#[derive(Debug, PartialEq, Eq)]
pub struct StatefulSet {
    pub metadata: ObjectMeta,
    pub spec: Option<StatefulSetSpec>,
}

pub struct StatefulSetView {
    pub metadata: ObjectMetaView,
    pub spec: Option<StatefulSetSpecView>,
}

impl DeepView for StatefulSet {
    type V = StatefulSetView;

    open spec fn deep_view(&self) -> StatefulSetView {
        StatefulSetView { metadata: self.metadata.deep_view(), spec: self.spec.deep_view() }
    }
}

impl View for StatefulSet {
    type V = StatefulSetView;

    open spec fn view(&self) -> StatefulSetView {
        self.deep_view()
    }
}

/// A port given by number or by name.
#[derive(Debug, PartialEq, Eq)]
pub enum IntOrString {
    Int(i32),
    Str(String),
}

pub enum IntOrStringView {
    Int(i32),
    Str(Seq<char>),
}

impl DeepView for IntOrString {
    type V = IntOrStringView;

    open spec fn deep_view(&self) -> IntOrStringView {
        match self {
            IntOrString::Int(i) => IntOrStringView::Int(*i),
            IntOrString::Str(s) => IntOrStringView::Str(s@),
        }
    }
}

/// A port that a service exposes, and the pod port it forwards to.
#[derive(Debug, PartialEq, Eq)]
pub struct ServicePort {
    pub port: i32,
    pub target_port: Option<IntOrString>,
}

pub struct ServicePortView {
    pub port: i32,
    pub target_port: Option<IntOrStringView>,
}

impl DeepView for ServicePort {
    type V = ServicePortView;

    open spec fn deep_view(&self) -> ServicePortView {
        ServicePortView { port: self.port, target_port: self.target_port.deep_view() }
    }
}

/// The desired state of a service.
#[derive(Debug, PartialEq, Eq)]
pub struct ServiceSpec {
    pub type_: Option<String>,
    pub cluster_ip: Option<String>,
    pub selector: Option<Vec<(String, String)>>,
    pub ports: Option<Vec<ServicePort>>,
}

pub struct ServiceSpecView {
    pub type_: Option<Seq<char>>,
    pub cluster_ip: Option<Seq<char>>,
    pub selector: Option<Seq<(Seq<char>, Seq<char>)>>,
    pub ports: Option<Seq<ServicePortView>>,
}

impl DeepView for ServiceSpec {
    type V = ServiceSpecView;

    open spec fn deep_view(&self) -> ServiceSpecView {
        ServiceSpecView {
            type_: self.type_.deep_view(),
            cluster_ip: self.cluster_ip.deep_view(),
            selector: self.selector.deep_view(),
            ports: self.ports.deep_view(),
        }
    }
}

/// A service (`v1`).
#[derive(Debug, PartialEq, Eq)]
pub struct Service {
    pub metadata: ObjectMeta,
    pub spec: Option<ServiceSpec>,
}

pub struct ServiceView {
    pub metadata: ObjectMetaView,
    pub spec: Option<ServiceSpecView>,
}

impl DeepView for Service {
    type V = ServiceView;

    open spec fn deep_view(&self) -> ServiceView {
        ServiceView { metadata: self.metadata.deep_view(), spec: self.spec.deep_view() }
    }
}

impl View for Service {
    type V = ServiceView;

    open spec fn view(&self) -> ServiceView {
        self.deep_view()
    }
}

/// A service account (`v1`).
#[derive(Debug, PartialEq, Eq)]
pub struct ServiceAccount {
    pub metadata: ObjectMeta,
}

pub struct ServiceAccountView {
    pub metadata: ObjectMetaView,
}

impl View for ServiceAccount {
    type V = ServiceAccountView;

    open spec fn view(&self) -> ServiceAccountView {
        ServiceAccountView { metadata: self.metadata.deep_view() }
    }
}

/// The account, user or group that a role binding grants to.
#[derive(Debug, PartialEq, Eq)]
pub struct Subject {
    pub kind: String,
    pub name: String,
    pub namespace: Option<String>,
}

pub struct SubjectView {
    pub kind: Seq<char>,
    pub name: Seq<char>,
    pub namespace: Option<Seq<char>>,
}

impl DeepView for Subject {
    type V = SubjectView;

    open spec fn deep_view(&self) -> SubjectView {
        SubjectView { kind: self.kind@, name: self.name@, namespace: self.namespace.deep_view() }
    }
}

/// The role that a role binding grants.
#[derive(Debug, PartialEq, Eq)]
pub struct RoleRef {
    pub api_group: String,
    pub kind: String,
    pub name: String,
}

pub struct RoleRefView {
    pub api_group: Seq<char>,
    pub kind: Seq<char>,
    pub name: Seq<char>,
}

impl DeepView for RoleRef {
    type V = RoleRefView;

    open spec fn deep_view(&self) -> RoleRefView {
        RoleRefView { api_group: self.api_group@, kind: self.kind@, name: self.name@ }
    }
}

/// A cluster role binding (`rbac.authorization.k8s.io/v1`).
#[derive(Debug, PartialEq, Eq)]
pub struct ClusterRoleBinding {
    pub metadata: ObjectMeta,
    pub subjects: Option<Vec<Subject>>,
    pub role_ref: RoleRef,
}

pub struct ClusterRoleBindingView {
    pub metadata: ObjectMetaView,
    pub subjects: Option<Seq<SubjectView>>,
    pub role_ref: RoleRefView,
}

impl View for ClusterRoleBinding {
    type V = ClusterRoleBindingView;

    open spec fn view(&self) -> ClusterRoleBindingView {
        ClusterRoleBindingView {
            metadata: self.metadata.deep_view(),
            subjects: self.subjects.deep_view(),
            role_ref: self.role_ref.deep_view(),
        }
    }
}

/// One rule of a role: the verbs allowed on the named resources.
#[derive(Debug, PartialEq, Eq)]
pub struct PolicyRule {
    pub api_groups: Option<Vec<String>>,
    pub resources: Option<Vec<String>>,
    pub resource_names: Option<Vec<String>>,
    pub verbs: Vec<String>,
}

pub struct PolicyRuleView {
    pub api_groups: Option<Seq<Seq<char>>>,
    pub resources: Option<Seq<Seq<char>>>,
    pub resource_names: Option<Seq<Seq<char>>>,
    pub verbs: Seq<Seq<char>>,
}

impl DeepView for PolicyRule {
    type V = PolicyRuleView;

    open spec fn deep_view(&self) -> PolicyRuleView {
        PolicyRuleView {
            api_groups: self.api_groups.deep_view(),
            resources: self.resources.deep_view(),
            resource_names: self.resource_names.deep_view(),
            verbs: self.verbs.deep_view(),
        }
    }
}

/// A cluster role (`rbac.authorization.k8s.io/v1`).
#[derive(Debug, PartialEq, Eq)]
pub struct ClusterRole {
    pub metadata: ObjectMeta,
    pub rules: Option<Vec<PolicyRule>>,
}

pub struct ClusterRoleView {
    pub metadata: ObjectMetaView,
    pub rules: Option<Seq<PolicyRuleView>>,
}

impl View for ClusterRole {
    type V = ClusterRoleView;

    open spec fn view(&self) -> ClusterRoleView {
        ClusterRoleView { metadata: self.metadata.deep_view(), rules: self.rules.deep_view() }
    }
}

/// Whether every pair of `selector` is among `labels`: the objects carrying
/// `labels` are selected by `selector`.
pub open spec fn selects(
    selector: Seq<(Seq<char>, Seq<char>)>,
    labels: Seq<(Seq<char>, Seq<char>)>,
) -> bool {
    forall|i: int| 0 <= i < selector.len() ==> labels.contains(#[trigger] selector[i])
}

/// The single port of a service: `port`, forwarded to the same port number
/// on the selected pods.
pub open spec fn forwarded_port(port: i32) -> Seq<ServicePortView> {
    seq![ServicePortView { port: port, target_port: Some(IntOrStringView::Int(port)) }]
}

/// The port list `[port -> port]` of a service.
pub fn forwarded_port_list(port: i32) -> (ports: Vec<ServicePort>)
    ensures
        ports.deep_view() == forwarded_port(port),
{
    let ports = vec![ServicePort { port, target_port: Some(IntOrString::Int(port)) }];
    assert(ports.deep_view() =~= forwarded_port(port));
    ports
}

/// The one-entry label list `{key: value}`.
pub fn single_label(key: &str, value: &str) -> (labels: Vec<(String, String)>)
    ensures
        labels.deep_view() == seq![(key@, value@)],
{
    let labels = vec![(owned(key), owned(value))];
    assert(labels.deep_view() =~= seq![(key@, value@)]);
    labels
}

/// A string owned by the caller with the characters of `s`.
pub fn owned(s: &str) -> (r: String)
    ensures
        r@ == s@,
{
    String::from_str(s)
}

/// Pushing onto a vector pushes the deep view of the item onto its deep view.
pub proof fn lemma_push_deep_view<T: DeepView>(before: Vec<T>, after: Vec<T>, item: T)
    requires
        after@ == before@.push(item),
    ensures
        after.deep_view() == before.deep_view().push(item.deep_view()),
{
    assert(after.deep_view() =~= before.deep_view().push(item.deep_view()));
}

}
