pub mod event_recording_service;
pub mod health_probe_service;
pub mod image_pull_laws;
pub mod image_pull_service;
pub mod image_unpack_laws;
pub mod image_unpack_service;
pub mod image_unpack_work_laws;
pub mod node_capability_service;
pub mod workload_execution_laws;
pub mod workload_execution_service;
