//! Semantic-family packets: identities, paths, manifests and routing.

pub mod error;
pub mod paths;
pub mod manifest;
pub mod routing;
pub mod order;
pub mod artifacts;
pub mod helper_surface;
pub mod decision;
pub mod language;
pub mod attestation;
pub mod report;
pub mod analysis_checks;
pub mod basis_checks;
pub mod recommendation_checks;
pub mod execution_checks;
pub mod coverage_checks;
pub mod gate_flow;
pub mod recommend;
pub mod delta;
pub mod coverage;
pub mod tally;
pub mod emit;
pub mod inventory;
pub mod harness;
pub mod scaffold;
pub mod layout;
pub mod verify;
pub mod artifact_path;
