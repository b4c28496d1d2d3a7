pub mod kubelet_tls;
pub mod kubelet_tls_laws;
pub mod virtual_kubelet_exposer;
