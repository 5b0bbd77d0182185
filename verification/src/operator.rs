//! The objects that install the operator itself: its deployment, its
//! service account, and the cluster role that the account is bound to.
use crate::k8s::{
    owned, selects, single_label, ClusterRole, ClusterRoleBinding, ClusterRoleBindingView, ClusterRoleView, Container,
    ContainerPort, ContainerPortView, ContainerView, Deployment, DeploymentSpec, DeploymentSpecView,
    DeploymentView, LabelSelector, LabelSelectorView, ObjectMeta, ObjectMetaView, PodSpec,
    PodSpecView, PodTemplateSpec, PodTemplateSpecView, PolicyRule, PolicyRuleView, RoleRef,
    RoleRefView, ServiceAccount, ServiceAccountView, Subject, SubjectView,
};
use vstd::prelude::*;

verus! {

/// The name under which the operator runs, and of every object that
/// installs it.
pub const OPERATOR_NAME: &'static str = "memshack-operator";

/// Metadata that carries only the operator's name.
pub open spec fn operator_metadata() -> ObjectMetaView {
    ObjectMetaView { name: Some(OPERATOR_NAME@), namespace: None, labels: None }
}

fn operator_meta() -> (m: ObjectMeta)
    ensures
        m.deep_view() == operator_metadata(),
{
    ObjectMeta { name: Some(owned(OPERATOR_NAME)), namespace: None, labels: None }
}

/// The labels that mark the operator's pods.
pub open spec fn operator_labels() -> Seq<(Seq<char>, Seq<char>)> {
    seq![("name"@, OPERATOR_NAME@)]
}

/// The operator's deployment.
pub open spec fn operator_deployment() -> DeploymentView {
    DeploymentView {
        metadata: operator_metadata(),
        spec: Some(
            DeploymentSpecView {
                replicas: Some(2),
                selector: LabelSelectorView { match_labels: Some(operator_labels()) },
                template: PodTemplateSpecView {
                    metadata: Some(
                        ObjectMetaView {
                            name: Some(OPERATOR_NAME@),
                            namespace: None,
                            labels: Some(operator_labels()),
                        },
                    ),
                    spec: Some(
                        PodSpecView {
                            service_account_name: Some(OPERATOR_NAME@),
                            containers: seq![
                                ContainerView {
                                    name: "operator"@,
                                    image: Some("memshack-operator:latest"@),
                                    image_pull_policy: Some("Never"@),
                                    command: None,
                                    ports: Some(
                                        seq![
                                            ContainerPortView {
                                                container_port: 3000,
                                                name: Some("https"@),
                                                protocol: Some("TCP"@),
                                            },
                                        ],
                                    ),
                                },
                            ],
                        },
                    ),
                },
            },
        ),
    }
}

/// The deployment that runs the operator: two replicas of the operator
/// image, serving https on port 3000, under the operator's service account.
pub fn deployment() -> (d: Deployment)
    ensures
        d@ == operator_deployment(),
{
    let ports = vec![
        ContainerPort {
            container_port: 3000,
            name: Some(owned("https")),
            protocol: Some(owned("TCP")),
        },
    ];
    assert(ports.deep_view() =~= operator_deployment().spec->0.template.spec->0.containers[0].ports->0);
    let containers = vec![
        Container {
            name: owned("operator"),
            image: Some(owned("memshack-operator:latest")),
            image_pull_policy: Some(owned("Never")),
            command: None,
            ports: Some(ports),
        },
    ];
    assert(containers.deep_view() =~= operator_deployment().spec->0.template.spec->0.containers);
    Deployment {
        metadata: operator_meta(),
        spec: Some(
            DeploymentSpec {
                replicas: Some(2),
                selector: LabelSelector { match_labels: Some(single_label("name", OPERATOR_NAME)) },
                template: PodTemplateSpec {
                    metadata: Some(
                        ObjectMeta {
                            name: Some(owned(OPERATOR_NAME)),
                            namespace: None,
                            labels: Some(single_label("name", OPERATOR_NAME)),
                        },
                    ),
                    spec: Some(
                        PodSpec { containers, service_account_name: Some(owned(OPERATOR_NAME)) },
                    ),
                },
            },
        ),
    }
}

/// The operator's service account.
pub open spec fn operator_service_account() -> ServiceAccountView {
    ServiceAccountView { metadata: operator_metadata() }
}

/// The service account that the operator's pods run as.
pub fn service_account() -> (a: ServiceAccount)
    ensures
        a@ == operator_service_account(),
{
    ServiceAccount { metadata: operator_meta() }
}

/// The binding of the operator's cluster role to its service account.
pub open spec fn operator_role_binding() -> ClusterRoleBindingView {
    ClusterRoleBindingView {
        metadata: operator_metadata(),
        subjects: Some(
            seq![
                SubjectView {
                    kind: "ServiceAccount"@,
                    name: OPERATOR_NAME@,
                    namespace: Some("default"@),
                },
            ],
        ),
        role_ref: RoleRefView {
            kind: "ClusterRole"@,
            name: OPERATOR_NAME@,
            api_group: "rbac.authorization.k8s.io"@,
        },
    }
}

/// The cluster role binding that grants the operator's cluster role to the
/// operator's service account in the `default` namespace.
pub fn role_binding() -> (b: ClusterRoleBinding)
    ensures
        b@ == operator_role_binding(),
{
    let subjects = vec![
        Subject {
            kind: owned("ServiceAccount"),
            name: owned(OPERATOR_NAME),
            namespace: Some(owned("default")),
        },
    ];
    assert(subjects.deep_view() =~= operator_role_binding().subjects->0);
    ClusterRoleBinding {
        metadata: operator_meta(),
        subjects: Some(subjects),
        role_ref: RoleRef {
            kind: owned("ClusterRole"),
            name: owned(OPERATOR_NAME),
            api_group: owned("rbac.authorization.k8s.io"),
        },
    }
}

/// A rule that allows every verb on `resources` of `api_group`.
pub open spec fn allow_all(api_group: Seq<char>, resources: Seq<Seq<char>>) -> PolicyRuleView {
    PolicyRuleView {
        api_groups: Some(seq![api_group]),
        resources: Some(resources),
        resource_names: None,
        verbs: seq!["*"@],
    }
}

/// The rules of the operator's cluster role, in order.
pub open spec fn operator_rules() -> Seq<PolicyRuleView> {
    seq![
        allow_all(
            ""@,
            seq![
                "pods"@,
                "services"@,
                "endpoints"@,
                "persistentvolumeclaims"@,
                "events"@,
                "configmaps"@,
                "secrets"@,
            ],
        ),
        allow_all("apps"@, seq!["deployments"@, "daemonsets"@, "replicasets"@, "statefulsets"@]),
        PolicyRuleView {
            api_groups: Some(seq!["apps"@]),
            resources: Some(seq!["deployments/finalizers"@]),
            resource_names: Some(seq![OPERATOR_NAME@]),
            verbs: seq!["update"@],
        },
        allow_all("example.memcached.com"@, seq!["*"@]),
        allow_all("example.memshack.com"@, seq!["*"@, "memshacks"@]),
    ]
}

/// The operator's cluster role.
pub open spec fn operator_role() -> ClusterRoleView {
    ClusterRoleView { metadata: operator_metadata(), rules: Some(operator_rules()) }
}

/// The one-item list `[s]`.
fn one(s: &str) -> (v: Vec<String>)
    ensures
        v.deep_view() == seq![s@],
{
    let v = vec![owned(s)];
    assert(v.deep_view() =~= seq![s@]);
    v
}

/// The rule `allow_all(api_group, resources)`.
fn allow_all_rule(api_group: &str, resources: Vec<String>) -> (r: PolicyRule)
    ensures
        r.deep_view() == allow_all(api_group@, resources.deep_view()),
{
    PolicyRule {
        api_groups: Some(one(api_group)),
        resources: Some(resources),
        resource_names: None,
        verbs: one("*"),
    }
}

/// The cluster role of the operator: full access to the core objects it
/// manages, to deployments, daemon sets, replica sets and stateful sets,
/// to the finalizers of its own deployment, and to the custom resources of
/// its API groups.
pub fn role() -> (r: ClusterRole)
    ensures
        r@ == operator_role(),
{
    let core = vec![
        owned("pods"),
        owned("services"),
        owned("endpoints"),
        owned("persistentvolumeclaims"),
        owned("events"),
        owned("configmaps"),
        owned("secrets"),
    ];
    assert(core.deep_view() =~= operator_rules()[0].resources->0);
    let apps = vec![
        owned("deployments"),
        owned("daemonsets"),
        owned("replicasets"),
        owned("statefulsets"),
    ];
    assert(apps.deep_view() =~= operator_rules()[1].resources->0);
    let memshack = vec![owned("*"), owned("memshacks")];
    assert(memshack.deep_view() =~= operator_rules()[4].resources->0);
    let rules = vec![
        allow_all_rule("", core),
        allow_all_rule("apps", apps),
        PolicyRule {
            api_groups: Some(one("apps")),
            resources: Some(one("deployments/finalizers")),
            resource_names: Some(one(OPERATOR_NAME)),
            verbs: one("update"),
        },
        allow_all_rule("example.memcached.com", one("*")),
        allow_all_rule("example.memshack.com", memshack),
    ];
    assert(rules.deep_view() =~= operator_rules());
    ClusterRole { metadata: operator_meta(), rules: Some(rules) }
}

/// The objects that install the operator fit together: the binding grants
/// the operator's cluster role to the operator's service account, the
/// operator's pods run as that account, and the operator's deployment
/// manages its own pods.
pub proof fn lemma_operator_objects_fit()
    ensures
        operator_role_binding().role_ref.kind == "ClusterRole"@,
        Some(operator_role_binding().role_ref.name) == operator_role().metadata.name,
        operator_role_binding().subjects->0[0].kind == "ServiceAccount"@,
        Some(operator_role_binding().subjects->0[0].name) == operator_service_account().metadata.name,
        operator_deployment().spec->0.template.spec->0.service_account_name
            == operator_service_account().metadata.name,
        selects(
            operator_deployment().spec->0.selector.match_labels->0,
            operator_deployment().spec->0.template.metadata->0.labels->0,
        ),
{
    let labels = operator_labels();
    assert(labels.contains(labels[0]));
}

}
