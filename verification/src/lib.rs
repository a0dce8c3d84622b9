//! Troubleshooting findings for a Kubernetes dashboard: rule sets that
//! inspect cached cluster state, the findings they report, and the order in
//! which they are shown.

pub mod text;
pub mod resources;
pub mod troubleshoot;
pub mod troubleshoot_pod;
pub mod troubleshoot_pvc;
pub mod troubleshoot_rs;
pub mod sorting;
pub mod models;
pub mod troubleshoot_rules;
pub mod events;
