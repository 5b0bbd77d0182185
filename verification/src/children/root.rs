//! The root objects of a cluster.
use crate::k8s::{
    forwarded_port, forwarded_port_list, owned, single_label, Deployment, DeploymentView, ObjectMeta,
    ObjectMetaView, Service, ServiceSpec, ServiceSpecView, ServiceView,
};
use vstd::prelude::*;

verus! {

/// Inputs of the root deployment.
pub struct RootDeployment {
    pub namespace: String,
    pub name: String,
    pub num_shards: usize,
}

impl RootDeployment {
    /// The root deployment: for now an empty deployment, with every field
    /// at its default.
    pub fn definition() -> (d: Deployment)
        ensures
            d@ == (DeploymentView { metadata: ObjectMetaView::empty(), spec: None }),
    {
        Deployment { metadata: ObjectMeta::empty(), spec: None }
    }
}

/// Inputs of the root service.
pub struct RootService {
    pub namespace: String,
    pub name: String,
    pub port: i32,
    pub service_name: String,
}

/// The root service for the given inputs: a cluster-IP service on `port`
/// selecting the pods labelled `{app.kubernetes.io/name: service_name}`.
pub open spec fn root_service(
    namespace: Seq<char>,
    name: Seq<char>,
    port: i32,
    service_name: Seq<char>,
) -> ServiceView {
    ServiceView {
        metadata: ObjectMetaView { name: Some(name), namespace: Some(namespace), labels: None },
        spec: Some(
            ServiceSpecView {
                type_: Some("ClusterIP"@),
                cluster_ip: None,
                selector: Some(seq![("app.kubernetes.io/name"@, service_name)]),
                ports: Some(forwarded_port(port)),
            },
        ),
    }
}

impl RootService {
    /// The root service: a cluster-IP service on `port` in front of the pods
    /// of `service_name`.
    pub fn definition(self) -> (s: Service)
        ensures
            s@ == root_service(self.namespace@, self.name@, self.port, self.service_name@),
    {
        let selector = single_label("app.kubernetes.io/name", self.service_name.as_str());
        Service {
            metadata: ObjectMeta { name: Some(self.name), namespace: Some(self.namespace), labels: None },
            spec: Some(
                ServiceSpec {
                    type_: Some(owned("ClusterIP")),
                    cluster_ip: None,
                    selector: Some(selector),
                    ports: Some(forwarded_port_list(self.port)),
                },
            ),
        }
    }
}

}
