//! Decision logic of a desktop shell that supervises a bundled backend
//! server ("sidecar") and forwards external links to the system browser.

pub mod link;
pub mod paths;
pub mod supervisor;
