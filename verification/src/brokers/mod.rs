pub mod control_plane_broker;
pub mod control_plane_laws;
pub mod filesystem_broker;
pub mod oci_registry_broker;
pub mod oci_registry_laws;
pub mod proot_broker;
pub mod proot_launch;
pub mod proot_laws;
