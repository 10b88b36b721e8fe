# kube_mock

A mock of the Kubernetes API server for tests of Kubernetes clients, written
in Verus.

- `src/` is the verified library. `kubeapi/parser.rs` parses request paths
  into the resource they address; `kubeapi/resources.rs` routes a method and
  a path to an operation; `kubeapi/controller/inventory.rs` keeps the objects
  of a kind and answers create and get requests; `kubeapi.rs` dispatches
  operations to the inventories and turns outcomes into replies;
  `ext/status.rs` builds the `Status` objects of failed requests;
  `builder.rs` sets up the objects a server starts with. Objects are held as
  plain values (`model.rs`) in a map with distinct keys (`store.rs`).
- `app/` is the transport: a `kube::Client` over a `tower_test` mock service,
  the reading of request bodies, and the JSON (de)serialisation of objects
  and statuses.
- `tests/` runs the library on concrete values.
