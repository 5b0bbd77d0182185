# memshack

Desired-state builders for a memcached cluster behind mcrouter, run as a
Kubernetes operator.

- `src/` is the verified library. `k8s` models the parts of the
  Kubernetes objects that the operator writes. `children` builds the
  gateway (an mcrouter deployment and its service) and the shards (a
  stateful set of mcrouter and memcached pods, and its service). `operator`
  builds the objects that install the operator. `crd` holds the custom
  resource and its defaults. `controller` decides the children and the
  status of a resource. `text` renders numbers and JSON string lists.
- `tests/` runs the library on concrete resources.
- `app/` is the operator process. It reads sync requests with roperator,
  lets the library decide, converts the result to the `k8s-openapi` types,
  and writes it as JSON.
