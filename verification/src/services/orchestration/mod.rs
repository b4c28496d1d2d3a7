pub mod image_orchestration_laws;
pub mod image_orchestration_service;
pub mod node_registration_service;
pub mod reconciliation_laws;
pub mod reconciliation_loop;
pub mod reconciliation_service;
pub mod reconciliation_work_laws;
pub mod workload_lifecycle_service;
