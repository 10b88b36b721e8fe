use kube_mock::kubeapi::controller::Nodes;
use kube_mock::KubeApi;

fn send<T: Send>() {}

#[test]
fn node_send() {
    send::<Nodes>();
}

#[test]
fn send_kubeapi() {
    send::<KubeApi>();
}
